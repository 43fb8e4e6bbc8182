//! Reading the probe response and choosing between a single stream and a
//! multi-segment transfer.

use vstd::prelude::*;
use crate::error::DownloadError;
use crate::text::{contains_seq, contains_str, first_chars, first_chars_of, parse_u64, parsed_u64};

verus! {

/// Resources of at least this many bytes are split into segments (10 MiB).
pub const MIN_MULTI_SEGMENT_SIZE: u64 = 10 * 1024 * 1024;

/// At most this many characters of an error body are kept in a report.
pub const ERROR_DETAIL_CHARS: usize = 200;

/// How the body of a resource is fetched.
#[derive(Clone, Copy, Debug, PartialEq, Eq, Structural)]
pub enum Strategy {
    /// The probe response's body is streamed to the destination.
    SingleStream,
    /// The resource is fetched as concurrent byte ranges and merged.
    MultiSegment,
}

/// What to do once the probe response has arrived.
#[derive(Clone, Copy, Debug, PartialEq, Eq, Structural)]
pub enum ProbeDecision {
    /// The download went stale while probing.
    Cancelled,
    /// The status is an error (400 or above): read the body and report it.
    Rejected,
    /// Transfer `total_size` bytes with the given strategy.
    Transfer { strategy: Strategy, total_size: u64 },
}

/// The size a `Content-Length` header declares: 0 when absent or not a
/// decimal number.
pub open spec fn declared_size(header: Option<Seq<char>>) -> u64 {
    match header {
        Some(h) => match parsed_u64(h) {
            Some(v) => v,
            None => 0,
        },
        None => 0,
    }
}

/// Whether an `Accept-Ranges` header announces byte ranges.
pub open spec fn announces_ranges(header: Option<Seq<char>>) -> bool {
    match header {
        Some(h) => contains_seq(h, "bytes"@),
        None => false,
    }
}

pub open spec fn strategy_for(accepts_ranges: bool, total_size: u64) -> Strategy {
    if accepts_ranges && total_size >= MIN_MULTI_SEGMENT_SIZE {
        Strategy::MultiSegment
    } else {
        Strategy::SingleStream
    }
}

pub open spec fn opt_view(h: Option<&str>) -> Option<Seq<char>> {
    match h {
        Some(s) => Some(s@),
        None => None,
    }
}

pub fn content_length(header: Option<&str>) -> (r: u64)
    ensures
        r == declared_size(opt_view(header)),
{
    match header {
        Some(h) => match parse_u64(h) {
            Some(v) => v,
            None => 0,
        },
        None => 0,
    }
}

pub fn accepts_ranges(header: Option<&str>) -> (r: bool)
    ensures
        r == announces_ranges(opt_view(header)),
{
    match header {
        Some(h) => contains_str(h, "bytes"),
        None => false,
    }
}

/// Multi-segment exactly when ranges are supported and the resource has at
/// least `MIN_MULTI_SEGMENT_SIZE` bytes.
pub fn choose_strategy(accepts_ranges: bool, total_size: u64) -> (r: Strategy)
    ensures
        r == strategy_for(accepts_ranges, total_size),
{
    if accepts_ranges && total_size >= MIN_MULTI_SEGMENT_SIZE {
        Strategy::MultiSegment
    } else {
        Strategy::SingleStream
    }
}

/// Decides what follows the probe: cancellation first, then an error
/// status, then the strategy from the two headers.
pub fn classify_probe(
    stale: bool,
    status: u16,
    content_length_header: Option<&str>,
    accept_ranges_header: Option<&str>,
) -> (r: ProbeDecision)
    ensures
        stale ==> r == ProbeDecision::Cancelled,
        !stale && status >= 400 ==> r == ProbeDecision::Rejected,
        !stale && status < 400 ==> r == (ProbeDecision::Transfer {
            strategy: strategy_for(
                announces_ranges(opt_view(accept_ranges_header)),
                declared_size(opt_view(content_length_header)),
            ),
            total_size: declared_size(opt_view(content_length_header)),
        }),
{
    if stale {
        return ProbeDecision::Cancelled;
    }
    if status >= 400 {
        return ProbeDecision::Rejected;
    }
    let total_size = content_length(content_length_header);
    let ranges = accepts_ranges(accept_ranges_header);
    ProbeDecision::Transfer { strategy: choose_strategy(ranges, total_size), total_size }
}

/// The failure for a probe answered with an error status: the status and
/// the first `ERROR_DETAIL_CHARS` characters of the body.
pub fn probe_error(status: u16, body: &str) -> (r: DownloadError)
    ensures
        r matches DownloadError::ServerStatus { status: s, detail }
            && s == status && detail@ == first_chars(body@, ERROR_DETAIL_CHARS as nat),
{
    DownloadError::ServerStatus { status, detail: first_chars_of(body, ERROR_DETAIL_CHARS) }
}

/// A probe that announces byte ranges leads to a multi-segment transfer
/// exactly when it declares at least 10 MiB; any other probe leads to a
/// single stream. At the boundary, 10 MiB is split and one byte less is not.
pub proof fn lemma_strategy_threshold(accept_ranges: Option<Seq<char>>, size: u64)
    ensures
        strategy_for(announces_ranges(accept_ranges), size) == Strategy::MultiSegment
            <==> announces_ranges(accept_ranges) && size >= 10 * 1024 * 1024,
        !announces_ranges(accept_ranges) ==> strategy_for(announces_ranges(accept_ranges), size)
            == Strategy::SingleStream,
        strategy_for(true, 10485760u64) == Strategy::MultiSegment,
        strategy_for(true, 10485759u64) == Strategy::SingleStream,
{
}

} // verus!
