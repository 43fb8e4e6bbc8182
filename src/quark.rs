//! Pieces of the cloud-drive client around the downloader: the table of
//! proxied API routes, request URLs, cookie strings, and the verdict of a
//! logout attempt.

use vstd::prelude::*;
use crate::cookie::cookie_pair;
use vstd::utf8::encode_utf8;
use crate::text::{
    before_first, before_first_str, contains_seq, contains_str, digit_char, join, join_strings, starts_with_seq,
    starts_with_str, str_equal, strings_view, trim, trimmed,
};

verus! {

pub const HOST_PAN: &'static str = "pan.quark.cn";
pub const HOST_DRIVE_PC: &'static str = "drive-pc.quark.cn";
pub const HOST_DRIVE: &'static str = "drive.quark.cn";
pub const UOP_HOST: &'static str = "uop.quark.cn";
pub const COMMON_PARAMS: &'static str = "pr=ucpro&fr=pc&uc_param_str=";

/// The HTTP methods the proxied API uses.
#[derive(Clone, Copy, Debug, PartialEq, Eq, Structural)]
pub enum HttpMethod {
    Get,
    Post,
}

/// Where a local API path is forwarded: the remote path, its method and host.
#[derive(Clone, Copy, Debug, PartialEq, Eq)]
pub struct ApiRoute {
    pub path: &'static str,
    pub method: HttpMethod,
    pub host: &'static str,
}

/// A route as plain values: local path, remote path, method, host.
pub type RouteView = (Seq<char>, Seq<char>, HttpMethod, Seq<char>);

/// The table of proxied routes, in order.
pub open spec fn route_table() -> Seq<RouteView> {
    seq![
        ("/api/share/token"@, "/1/clouddrive/share/sharepage/token"@, HttpMethod::Post, HOST_PAN@),
        ("/api/share/detail"@, "/1/clouddrive/share/sharepage/detail"@, HttpMethod::Get, HOST_PAN@),
        ("/api/share/save"@, "/1/clouddrive/share/sharepage/save"@, HttpMethod::Post, HOST_DRIVE_PC@),
        ("/api/task"@, "/1/clouddrive/task"@, HttpMethod::Get, HOST_DRIVE_PC@),
        ("/api/file/download"@, "/1/clouddrive/file/download"@, HttpMethod::Post, HOST_DRIVE@),
        ("/api/file/delete"@, "/1/clouddrive/file/delete"@, HttpMethod::Post, HOST_DRIVE@),
        ("/api/member"@, "/1/clouddrive/member"@, HttpMethod::Get, HOST_DRIVE@),
    ]
}

/// The first entry of `table` for local path `p`.
pub open spec fn route_lookup(table: Seq<RouteView>, p: Seq<char>) -> Option<RouteView>
    decreases table.len(),
{
    if table.len() == 0 {
        None
    } else if table[0].0 == p {
        Some(table[0])
    } else {
        route_lookup(table.drop_first(), p)
    }
}

pub open spec fn entry_view(e: (&'static str, ApiRoute)) -> RouteView {
    (e.0@, e.1.path@, e.1.method, e.1.host@)
}

/// Every proxied path with its route, in table order.
pub fn get_api_routes() -> (r: Vec<(&'static str, ApiRoute)>)
    ensures
        r@.map_values(|e: (&'static str, ApiRoute)| entry_view(e)) == route_table(),
{
    let mut r: Vec<(&'static str, ApiRoute)> = Vec::new();
    r.push(("/api/share/token", ApiRoute { path: "/1/clouddrive/share/sharepage/token", method: HttpMethod::Post, host: HOST_PAN }));
    r.push(("/api/share/detail", ApiRoute { path: "/1/clouddrive/share/sharepage/detail", method: HttpMethod::Get, host: HOST_PAN }));
    r.push(("/api/share/save", ApiRoute { path: "/1/clouddrive/share/sharepage/save", method: HttpMethod::Post, host: HOST_DRIVE_PC }));
    r.push(("/api/task", ApiRoute { path: "/1/clouddrive/task", method: HttpMethod::Get, host: HOST_DRIVE_PC }));
    r.push(("/api/file/download", ApiRoute { path: "/1/clouddrive/file/download", method: HttpMethod::Post, host: HOST_DRIVE }));
    r.push(("/api/file/delete", ApiRoute { path: "/1/clouddrive/file/delete", method: HttpMethod::Post, host: HOST_DRIVE }));
    r.push(("/api/member", ApiRoute { path: "/1/clouddrive/member", method: HttpMethod::Get, host: HOST_DRIVE }));
    assert(r@.map_values(|e: (&'static str, ApiRoute)| entry_view(e)) =~= route_table());
    r
}

/// Looks up the route of a local API path.
pub fn find_api_route(path: &str) -> (r: Option<ApiRoute>)
    ensures
        match r {
            Some(x) => route_lookup(route_table(), path@) == Some((path@, x.path@, x.method, x.host@)),
            None => route_lookup(route_table(), path@) is None,
        },
{
    let routes = get_api_routes();
    let ghost table = route_table();
    let n = routes.len();
    let mut i: usize = 0;
    assert(table.subrange(0, n as int) =~= table);
    while i < n
        invariant
            n == routes@.len(),
            table == route_table(),
            table == routes@.map_values(|e: (&'static str, ApiRoute)| entry_view(e)),
            i <= n,
            route_lookup(table, path@) == route_lookup(table.subrange(i as int, n as int), path@),
        decreases n - i,
    {
        let ghost sub = table.subrange(i as int, n as int);
        assert(sub[0] == entry_view(routes@[i as int]));
        assert(sub.len() > 0);
        if str_equal(routes[i].0, path) {
            let x = routes[i].1;
            assert(sub[0] == (path@, x.path@, x.method, x.host@));
            return Some(x);
        }
        assert(sub.drop_first() =~= table.subrange(i + 1, n as int));
        i = i + 1;
    }
    None
}

/// `p` with one more query parameter (or parameter list) appended.
pub open spec fn with_param(p: Seq<char>, param: Seq<char>) -> Seq<char> {
    p + (if contains_seq(p, "?"@) { "&"@ } else { "?"@ }) + param
}

fn append_param(p: &mut String, param: &str)
    ensures
        final(p)@ == with_param(old(p)@, param@),
{
    if contains_str(p.as_str(), "?") {
        p.append("&");
    } else {
        p.append("?");
    }
    p.append(param);
}

/// The URL a proxied request goes to.
pub open spec fn proxy_url_text(hostname: Seq<char>, target_path: Seq<char>, query: Seq<char>, append_common: bool) -> Seq<char> {
    let with_common = if append_common { with_param(target_path, COMMON_PARAMS@) } else { target_path };
    let with_query = if query.len() > 0 { with_param(with_common, query) } else { with_common };
    "https://"@ + hostname + with_query
}

/// Builds `https://<hostname><target_path>`, adding the common parameters
/// when asked and then the caller's query, each after `?` or `&`.
pub fn proxy_url(hostname: &str, target_path: &str, query: &str, append_common: bool) -> (r: String)
    ensures
        r@ == proxy_url_text(hostname@, target_path@, query@, append_common),
{
    let mut full = String::from_str(target_path);
    if append_common {
        append_param(&mut full, COMMON_PARAMS);
    }
    if query.unicode_len() > 0 {
        append_param(&mut full, query);
    }
    let mut url = String::from_str("https://");
    url.append(hostname);
    url.append(full.as_str());
    url
}

/// The `__puus` pair a `Set-Cookie` value carries, if it sets `__puus`.
pub fn puus_pair(set_cookie: &str) -> (r: Option<String>)
    ensures
        starts_with_seq(set_cookie@, "__puus="@) ==> (r matches Some(p) && p@ == before_first(set_cookie@, ';')),
        !starts_with_seq(set_cookie@, "__puus="@) ==> r is None,
{
    if starts_with_str(set_cookie, "__puus=") {
        Some(before_first_str(set_cookie, ';'))
    } else {
        None
    }
}

/// The pairs of raw cookies, trimmed, keeping only non-empty ones when
/// `skip_empty`.
pub open spec fn pairs_of(raws: Seq<Seq<char>>, skip_empty: bool) -> Seq<Seq<char>>
    decreases raws.len(),
{
    if raws.len() == 0 {
        Seq::empty()
    } else {
        let pre = pairs_of(raws.drop_last(), skip_empty);
        let p = cookie_pair(raws.last());
        if skip_empty && p.len() == 0 { pre } else { pre.push(p) }
    }
}

fn collect_pairs(raws: &Vec<String>, skip_empty: bool) -> (r: Vec<String>)
    ensures
        strings_view(r@) == pairs_of(strings_view(raws@), skip_empty),
{
    let ghost rs = strings_view(raws@);
    let mut out: Vec<String> = Vec::new();
    let mut i: usize = 0;
    while i < raws.len()
        invariant
            rs == strings_view(raws@),
            i <= rs.len(),
            strings_view(out@) == pairs_of(rs.subrange(0, i as int), skip_empty),
        decreases rs.len() - i,
    {
        let ghost pre = rs.subrange(0, i as int);
        let ghost next = rs.subrange(0, i + 1);
        assert(next.drop_last() =~= pre);
        assert(next.last() == raws@[i as int]@);
        let p = trim(before_first_str(raws[i].as_str(), ';').as_str());
        if !(skip_empty && p.as_str().unicode_len() == 0) {
            let ghost prev = out@;
            let ghost pv = p@;
            out.push(p);
            assert(strings_view(out@) =~= strings_view(prev).push(pv));
        }
        i = i + 1;
    }
    assert(rs.subrange(0, rs.len() as int) =~= rs);
    out
}

/// The `Cookie` header sent with a request: the non-empty pairs of the raw
/// cookies collected so far, joined by `"; "`.
pub fn request_cookie_header(raws: &Vec<String>) -> (r: String)
    ensures
        r@ == join(pairs_of(strings_view(raws@), true), "; "@),
{
    join_strings(&collect_pairs(raws, true), "; ")
}

/// Every pair of the raw cookies, joined by `"; "`: the cookie string
/// handed back after a QR-code login.
pub fn joined_cookie_pairs(raws: &Vec<String>) -> (r: String)
    ensures
        r@ == join(pairs_of(strings_view(raws@), false), "; "@),
{
    join_strings(&collect_pairs(raws, false), "; ")
}

/// Whether a cookie string holds the `__puus` session cookie.
pub fn has_puus(cookie_str: &str) -> (r: bool)
    ensures
        r == contains_seq(cookie_str@, "__puus="@),
{
    contains_str(cookie_str, "__puus=")
}

/// A logout needs a cookie that is not blank.
pub fn logout_cookie_present(raw_cookie: &str) -> (r: bool)
    ensures
        r == (trimmed(raw_cookie@).len() > 0),
{
    trim(raw_cookie).as_str().unicode_len() > 0
}

/// The outcome of a logout attempt as reported to the caller.
#[derive(Clone, Debug, PartialEq, Eq)]
pub struct LogoutVerdict {
    /// Both the logout request and the verification succeeded.
    pub ok: bool,
    /// The session no longer reads account information.
    pub logged_out: bool,
    pub message: String,
}

pub open spec fn logout_message(request_failed: bool, logged_out: bool, nickname: Seq<char>) -> Seq<char> {
    if request_failed && logged_out {
        "The logout request failed, but the session is no longer valid"@
    } else if request_failed {
        "The logout request failed; the account is still signed in"@
    } else if !logged_out && nickname.len() > 0 {
        "Logout did not take effect; still signed in as "@ + nickname
    } else if logged_out {
        "Signed out"@
    } else {
        "The account is still signed in; try again later"@
    }
}

/// Judges a logout: it took effect when the verification request succeeded
/// and could no longer read account information.
pub fn logout_verdict(request_error: &str, verify_error: &str, can_read: bool, nickname: &str) -> (r: LogoutVerdict)
    ensures
        r.logged_out == (verify_error@.len() == 0 && !can_read),
        r.ok == (request_error@.len() == 0 && verify_error@.len() == 0),
        r.message@ == logout_message(request_error@.len() > 0, r.logged_out, nickname@),
{
    let request_failed = request_error.unicode_len() > 0;
    let verify_failed = verify_error.unicode_len() > 0;
    let logged_out = !verify_failed && !can_read;
    let message = if request_failed && logged_out {
        String::from_str("The logout request failed, but the session is no longer valid")
    } else if request_failed {
        String::from_str("The logout request failed; the account is still signed in")
    } else if !logged_out && nickname.unicode_len() > 0 {
        String::from_str("Logout did not take effect; still signed in as ").concat(nickname)
    } else if logged_out {
        String::from_str("Signed out")
    } else {
        String::from_str("The account is still signed in; try again later")
    };
    LogoutVerdict { ok: !request_failed && !verify_failed, logged_out, message }
}

/// A byte that percent-encoding leaves as it is: an ASCII letter or digit,
/// or one of `-`, `.`, `_`, `~`.
pub open spec fn is_unreserved(b: u8) -> bool {
    (48 <= b && b <= 57) || (65 <= b && b <= 90) || (97 <= b && b <= 122) || b == 45 || b == 46
        || b == 95 || b == 126
}

/// An upper-case hexadecimal digit.
pub open spec fn hex_digit(d: u8) -> char {
    if d < 10 { digit_char(d as nat) }
    else if d == 10 { 'A' }
    else if d == 11 { 'B' }
    else if d == 12 { 'C' }
    else if d == 13 { 'D' }
    else if d == 14 { 'E' }
    else { 'F' }
}

/// Percent-encoding of bytes: each unreserved byte stands for itself, every
/// other byte becomes `%` and two upper-case hex digits.
pub open spec fn percent_encoded(bytes: Seq<u8>) -> Seq<char>
    decreases bytes.len(),
{
    if bytes.len() == 0 {
        Seq::empty()
    } else {
        let b = bytes.last();
        percent_encoded(bytes.drop_last()) + if is_unreserved(b) {
            seq![b as char]
        } else {
            seq!['%', hex_digit(b / 16), hex_digit(b % 16)]
        }
    }
}

/// Percent-encoding of a string's UTF-8 bytes.
pub open spec fn url_encoded(s: Seq<char>) -> Seq<char> {
    percent_encoded(encode_utf8(s))
}

/// Relies on `urlencoding::encode`, which percent-encodes the UTF-8 bytes
/// of its argument, keeping ASCII letters, digits, `-`, `.`, `_` and `~`.
#[verifier::external_body]
fn encode_component(s: &str) -> (r: String)
    ensures
        r@ == url_encoded(s@),
{
    urlencoding::encode(s).into_owned()
}

/// The path that asks for a fresh login QR token.
pub fn qr_token_path(request_id: &str) -> (r: String)
    ensures
        r@ == "/cas/ajax/getTokenForQrcodeLogin?client_id=532&v=1.2&request_id="@ + request_id@,
{
    String::from_str("/cas/ajax/getTokenForQrcodeLogin?client_id=532&v=1.2&request_id=").concat(request_id)
}

/// The path that polls the state of a login QR token.
pub fn qr_status_path(token: &str, poll_id: &str) -> (r: String)
    ensures
        r@ == "/cas/ajax/getServiceTicketByQrcodeToken?client_id=532&v=1.2&token="@ + url_encoded(token@)
            + "&request_id="@ + url_encoded(poll_id@),
{
    let mut r = String::from_str("/cas/ajax/getServiceTicketByQrcodeToken?client_id=532&v=1.2&token=");
    r.append(encode_component(token).as_str());
    r.append("&request_id=");
    r.append(encode_component(poll_id).as_str());
    r
}

/// The URL that trades a service ticket for session cookies.
pub fn qr_cookie_url(service_ticket: &str) -> (r: String)
    ensures
        r@ == "https://pan.quark.cn/account/info?st="@ + url_encoded(service_ticket@) + "&lw=scan"@,
{
    let mut r = String::from_str("https://pan.quark.cn/account/info?st=");
    r.append(encode_component(service_ticket).as_str());
    r.append("&lw=scan");
    r
}

/// The URL that ends the session and returns to the drive's home page.
pub fn logout_url() -> (r: String)
    ensures
        r@ == "https://pan.quark.cn/account/logout?callback="@ + url_encoded("https://pan.quark.cn"@),
{
    String::from_str("https://pan.quark.cn/account/logout?callback=").concat(encode_component("https://pan.quark.cn").as_str())
}

} // verus!
