//! Failures of a download and of its segments, with the messages reported
//! to the caller.

use vstd::prelude::*;
use crate::text::{decimal, decimal_string};

verus! {

/// Why one segment worker failed.
#[derive(Clone, Debug, PartialEq, Eq)]
pub enum SegmentError {
    /// The download's epoch went stale during the transfer.
    Cancelled,
    /// The request could not be sent or its response not read.
    Transport(String),
    /// The server answered a range request with `200 OK`.
    RangeIgnored,
    /// The server answered with a status other than `206` or `200`.
    UnexpectedStatus(u16),
    /// The body stream broke after `received` of `expected` bytes.
    Interrupted { received: u64, expected: u64, cause: String },
    /// The body ended cleanly with `received` bytes where the range asked
    /// for `expected`.
    LengthMismatch { received: u64, expected: u64 },
    /// A temporary file could not be created or written.
    Filesystem(String),
    /// The worker task ended abnormally.
    Crashed(String),
}

/// A segment failure, tagged with the segment's index.
#[derive(Clone, Debug, PartialEq, Eq)]
pub struct SegmentFailure {
    pub index: usize,
    pub error: SegmentError,
}

/// Why a download failed or was cancelled.
#[derive(Clone, Debug, PartialEq, Eq)]
pub enum DownloadError {
    /// The epoch went stale; nothing was left at the destination.
    Cancelled,
    /// More than the allowed number of redirects were met.
    TooManyRedirects,
    /// A request could not be sent or a response not read.
    Transport(String),
    /// The probe answered with an error status; `detail` holds the start of
    /// the body.
    ServerStatus { status: u16, detail: String },
    /// The single-stream body broke after `received` bytes.
    Interrupted { received: u64, cause: String },
    /// A file or directory operation failed.
    Filesystem(String),
    /// At least one segment worker failed; the failures in index order.
    SegmentsFailed(Vec<SegmentFailure>),
}

pub open spec fn cancelled_text() -> Seq<char> {
    "download cancelled"@
}

/// The message for a segment failure.
pub open spec fn segment_error_text(e: SegmentError) -> Seq<char> {
    match e {
        SegmentError::Cancelled => cancelled_text(),
        SegmentError::Transport(c) => "request failed: "@ + c@,
        SegmentError::RangeIgnored => "server does not honour range requests (200 instead of 206)"@,
        SegmentError::UnexpectedStatus(s) => "server returned "@ + decimal(s as nat) + " (expected 206)"@,
        SegmentError::Interrupted { received, expected, cause } => "transfer interrupted: "@ + cause@
            + " (received "@ + decimal(received as nat) + "/"@ + decimal(expected as nat) + ")"@,
        SegmentError::LengthMismatch { received, expected } => "body length mismatch (received "@
            + decimal(received as nat) + "/"@ + decimal(expected as nat) + ")"@,
        SegmentError::Filesystem(c) => c@,
        SegmentError::Crashed(c) => "task crashed: "@ + c@,
    }
}

/// One line of the combined report: the segment's index and its message.
pub open spec fn failure_line(f: SegmentFailure) -> Seq<char> {
    "\nsegment "@ + decimal(f.index as nat) + ": "@ + segment_error_text(f.error)
}

/// The lines of all failures, in order.
pub open spec fn failure_lines(fs: Seq<SegmentFailure>) -> Seq<char>
    decreases fs.len(),
{
    if fs.len() == 0 {
        Seq::empty()
    } else {
        failure_lines(fs.drop_last()) + failure_line(fs.last())
    }
}

/// The message for a download failure.
pub open spec fn download_error_text(e: DownloadError) -> Seq<char> {
    match e {
        DownloadError::Cancelled => cancelled_text(),
        DownloadError::TooManyRedirects => "too many redirects"@,
        DownloadError::Transport(c) => "request failed: "@ + c@,
        DownloadError::ServerStatus { status, detail } => "server returned error "@ + decimal(status as nat)
            + ": "@ + detail@,
        DownloadError::Interrupted { received, cause } => "download interrupted: "@ + cause@
            + " (received "@ + decimal(received as nat) + ")"@,
        DownloadError::Filesystem(c) => c@,
        DownloadError::SegmentsFailed(fs) => "multi-segment download failed:"@ + failure_lines(fs@),
    }
}

impl SegmentError {
    pub fn message(&self) -> (r: String)
        ensures
            r@ == segment_error_text(*self),
    {
        match self {
            SegmentError::Cancelled => String::from_str("download cancelled"),
            SegmentError::Transport(c) => String::from_str("request failed: ").concat(c.as_str()),
            SegmentError::RangeIgnored => String::from_str(
                "server does not honour range requests (200 instead of 206)",
            ),
            SegmentError::UnexpectedStatus(s) => {
                let mut r = String::from_str("server returned ");
                r.append(decimal_string(*s as u64).as_str());
                r.append(" (expected 206)");
                r
            },
            SegmentError::Interrupted { received, expected, cause } => {
                let mut r = String::from_str("transfer interrupted: ");
                r.append(cause.as_str());
                r.append(" (received ");
                r.append(decimal_string(*received).as_str());
                r.append("/");
                r.append(decimal_string(*expected).as_str());
                r.append(")");
                r
            },
            SegmentError::LengthMismatch { received, expected } => {
                let mut r = String::from_str("body length mismatch (received ");
                r.append(decimal_string(*received).as_str());
                r.append("/");
                r.append(decimal_string(*expected).as_str());
                r.append(")");
                r
            },
            SegmentError::Filesystem(c) => c.clone(),
            SegmentError::Crashed(c) => String::from_str("task crashed: ").concat(c.as_str()),
        }
    }
}

impl DownloadError {
    pub fn message(&self) -> (r: String)
        ensures
            r@ == download_error_text(*self),
    {
        match self {
            DownloadError::Cancelled => String::from_str("download cancelled"),
            DownloadError::TooManyRedirects => String::from_str("too many redirects"),
            DownloadError::Transport(c) => String::from_str("request failed: ").concat(c.as_str()),
            DownloadError::ServerStatus { status, detail } => {
                let mut r = String::from_str("server returned error ");
                r.append(decimal_string(*status as u64).as_str());
                r.append(": ");
                r.append(detail.as_str());
                r
            },
            DownloadError::Interrupted { received, cause } => {
                let mut r = String::from_str("download interrupted: ");
                r.append(cause.as_str());
                r.append(" (received ");
                r.append(decimal_string(*received).as_str());
                r.append(")");
                r
            },
            DownloadError::Filesystem(c) => c.clone(),
            DownloadError::SegmentsFailed(fs) => {
                let mut r = String::from_str("multi-segment download failed:");
                let mut i: usize = 0;
                while i < fs.len()
                    invariant
                        i <= fs@.len(),
                        r@ == "multi-segment download failed:"@ + failure_lines(fs@.subrange(0, i as int)),
                    decreases fs@.len() - i,
                {
                    let f = &fs[i];
                    r.append("\nsegment ");
                    r.append(decimal_string(f.index as u64).as_str());
                    r.append(": ");
                    r.append(f.error.message().as_str());
                    proof {
                        let next = fs@.subrange(0, i + 1);
                        assert(next.drop_last() =~= fs@.subrange(0, i as int));
                    }
                    i = i + 1;
                }
                assert(fs@.subrange(0, fs@.len() as int) =~= fs@);
                r
            },
        }
    }
}

} // verus!
