//! Whether an `/account/info` reply shows a signed-in session.

use vstd::prelude::*;
use crate::text::{contains_seq, contains_str, str_equal, trim, trimmed};

verus! {

/// What `str::to_uppercase` gives for a string.
pub uninterp spec fn upper_of(s: Seq<char>) -> Seq<char>;

/// What `str::to_lowercase` gives for a string.
pub uninterp spec fn lower_of(s: Seq<char>) -> Seq<char>;

/// Relies on `str::to_uppercase`: the result depends on the characters alone.
#[verifier::external_body]
fn uppercase(s: &str) -> (r: String)
    ensures
        r@ == upper_of(s@),
{
    s.to_uppercase()
}

/// Relies on `str::to_lowercase`: the result depends on the characters alone.
#[verifier::external_body]
fn lowercase(s: &str) -> (r: String)
    ensures
        r@ == lower_of(s@),
{
    s.to_lowercase()
}

/// The fields of an account reply that the checks read, as plain values.
/// Absent or non-string fields are empty strings or `None`.
#[derive(Clone, Debug, PartialEq, Eq)]
pub struct AccountPayload {
    /// The reply is JSON `null` (or was not JSON).
    pub is_null: bool,
    /// `success`, when it is a boolean `true`.
    pub success: bool,
    /// `code`, when it is a string.
    pub code: String,
    /// The first of `message`, `msg`, `error` that is present, when a string.
    pub message: String,
    /// `data` is present.
    pub has_data: bool,
    /// `data` is an object with at least one field.
    pub data_has_fields: bool,
    /// `data.nickname`, when it is a string.
    pub nickname: Option<String>,
    /// `data.mobilekps`, when it is a string.
    pub mobilekps: Option<String>,
}

/// What the account check reports.
#[derive(Clone, Debug, PartialEq, Eq)]
pub struct AccountInfo {
    pub is_logged_in: bool,
    pub nickname: String,
    pub message: String,
    pub code: String,
}

pub open spec fn opt_text(s: Option<String>) -> Seq<char> {
    match s {
        Some(x) => x@,
        None => Seq::empty(),
    }
}

pub open spec fn is_success_status(status: u16) -> bool {
    200 <= status && status < 300
}

/// A reply text that says the session is not (or no longer) valid.
pub open spec fn names_auth_error(text: Seq<char>) -> bool {
    contains_seq(text, "未登录"@) || contains_seq(text, "登录失效"@)
        || contains_seq(lower_of(text), "invalid"@) || contains_seq(lower_of(text), "expired"@)
        || contains_seq(lower_of(text), "unauthorized"@) || contains_seq(lower_of(text), "forbidden"@)
}

/// The reply reports success: `success` is true or the code reads `OK`.
pub open spec fn reports_success(p: AccountPayload) -> bool {
    p.success || upper_of(p.code@) == "OK"@
}

fn opt_or_empty(s: &Option<String>) -> (r: String)
    ensures
        r@ == opt_text(*s),
{
    match s {
        Some(x) => x.clone(),
        None => String::new(),
    }
}

fn auth_error(text: &str) -> (r: bool)
    ensures
        r == names_auth_error(text@),
{
    let lower = lowercase(text);
    contains_str(text, "未登录") || contains_str(text, "登录失效")
        || contains_str(lower.as_str(), "invalid") || contains_str(lower.as_str(), "expired")
        || contains_str(lower.as_str(), "unauthorized") || contains_str(lower.as_str(), "forbidden")
}

/// Reads the session state from a reply: signed in when the status is
/// `2xx`, the reply reports success, it names the user (a nickname or a
/// mobile key), and its message and code name no authentication error.
pub fn parse_account_info_state(status: u16, payload: &AccountPayload) -> (r: AccountInfo)
    ensures
        r.code@ == upper_of(payload.code@),
        r.message@ == payload.message@,
        r.nickname@ == trimmed(opt_text(payload.nickname)),
        r.is_logged_in == (is_success_status(status) && reports_success(*payload)
            && (trimmed(opt_text(payload.nickname)).len() > 0 || opt_text(payload.mobilekps).len() > 0)
            && !names_auth_error(payload.message@ + " "@ + upper_of(payload.code@))),
{
    let code = uppercase(payload.code.as_str());
    let message = payload.message.clone();
    let nickname = trim(opt_or_empty(&payload.nickname).as_str());
    let has_identity = nickname.as_str().unicode_len() > 0
        || opt_or_empty(&payload.mobilekps).as_str().unicode_len() > 0;
    let success = payload.success || str_equal(code.as_str(), "OK");
    let mut combined = message.clone();
    combined.append(" ");
    combined.append(code.as_str());
    let denied = auth_error(combined.as_str());
    let is_logged_in = 200 <= status && status < 300 && success && has_identity && !denied;
    AccountInfo { is_logged_in, nickname, message, code }
}

/// Whether a reply still reads account information: a `2xx` status, a
/// non-null reply that reports success, and `data` with a non-blank
/// nickname or mobile key, or with any field at all.
pub fn can_read_account_info(status: u16, payload: &AccountPayload) -> (r: bool)
    ensures
        r == (is_success_status(status) && !payload.is_null && reports_success(*payload)
            && payload.has_data && (trimmed(opt_text(payload.nickname)).len() > 0
            || trimmed(opt_text(payload.mobilekps)).len() > 0 || payload.data_has_fields)),
{
    if !(200 <= status && status < 300) || payload.is_null {
        return false;
    }
    let code = uppercase(payload.code.as_str());
    let success = payload.success || str_equal(code.as_str(), "OK");
    if !success || !payload.has_data {
        return false;
    }
    trim(opt_or_empty(&payload.nickname).as_str()).as_str().unicode_len() > 0
        || trim(opt_or_empty(&payload.mobilekps).as_str()).as_str().unicode_len() > 0
        || payload.data_has_fields
}

} // verus!
