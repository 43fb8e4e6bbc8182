//! Following redirects by hand: each `3xx` answer with a `Location` header
//! moves the request to the resolved location, up to a fixed number of hops.

use vstd::prelude::*;
use crate::error::DownloadError;

verus! {

/// The most redirects followed before giving up.
pub const MAX_REDIRECTS: u32 = 5;

/// What `Url::parse(base)` followed by `join(location)` renders to, or
/// `None` when either step fails.
pub uninterp spec fn joined_url(base: Seq<char>, location: Seq<char>) -> Option<Seq<char>>;

/// Relies on `url::Url::parse` and `url::Url::join`, rendered with
/// `to_string`: the result depends on the two strings alone.
#[verifier::external_body]
fn join_url(base: &str, location: &str) -> (r: Option<String>)
    ensures
        match r {
            Some(u) => joined_url(base@, location@) == Some(u@),
            None => joined_url(base@, location@) is None,
        },
{
    url::Url::parse(base).and_then(|b| b.join(location)).map(|u| u.to_string()).ok()
}

/// Where a `Location` header leads from `current`: the joined URL, or the
/// header's text as it stands when joining fails.
pub open spec fn next_location(current: Seq<char>, location: Seq<char>) -> Seq<char> {
    match joined_url(current, location) {
        Some(u) => u,
        None => location,
    }
}

/// The URL a `Location` header leads to, given what joining it onto the
/// current URL gave: the joined URL, or the header's text when joining failed.
pub fn next_url(joined: Option<String>, location: &str) -> (r: String)
    ensures
        r@ == match joined {
            Some(u) => u@,
            None => location@,
        },
{
    match joined {
        Some(u) => u,
        None => String::from_str(location),
    }
}

/// Whether a status is a redirection (`3xx`).
pub open spec fn is_redirection(status: u16) -> bool {
    300 <= status && status < 400
}

/// The state of a redirect chain: the URL to request next and the number of
/// redirects followed so far.
pub struct RedirectTracker {
    pub url: String,
    pub hops: u32,
}

impl RedirectTracker {
    pub open spec fn wf(&self) -> bool {
        self.hops <= MAX_REDIRECTS + 1
    }

    pub fn new(url: &str) -> (r: RedirectTracker)
        ensures
            r.url@ == url@,
            r.hops == 0,
            r.wf(),
    {
        RedirectTracker { url: String::from_str(url), hops: 0 }
    }

    /// Checked before each request: fails once more than `MAX_REDIRECTS`
    /// redirects have been followed.
    pub fn before_request(&self) -> (r: Result<(), DownloadError>)
        ensures
            self.hops > MAX_REDIRECTS ==> r == Err::<(), DownloadError>(DownloadError::TooManyRedirects),
            self.hops <= MAX_REDIRECTS ==> r is Ok,
    {
        if self.hops > MAX_REDIRECTS {
            Err(DownloadError::TooManyRedirects)
        } else {
            Ok(())
        }
    }

    /// Handles a response to a request for `self.url`. Returns `true` when it
    /// is a redirection with a `Location`: the URL then moves on and the hop
    /// count grows. Any other response ends the chain at the current URL.
    pub fn on_response(&mut self, status: u16, location: Option<&str>) -> (r: bool)
        requires
            old(self).hops <= MAX_REDIRECTS,
        ensures
            r == (is_redirection(status) && location is Some),
            r ==> final(self).url@ == next_location(old(self).url@, location.unwrap()@)
                && final(self).hops == old(self).hops + 1,
            !r ==> *final(self) == *old(self),
            final(self).wf(),
    {
        if 300 <= status && status < 400 {
            if let Some(loc) = location {
                let next = next_url(join_url(self.url.as_str(), loc), loc);
                self.url = next;
                self.hops = self.hops + 1;
                return true;
            }
        }
        false
    }
}

} // verus!
