//! Decisions of a segment worker: the range it asks for, the statuses it
//! accepts, and the cumulative progress it reports chunk by chunk.

use vstd::prelude::*;
use crate::error::SegmentError;
use crate::planner::Segment;
use crate::text::{decimal, decimal_string};

verus! {

/// The value of the `Range` header for an inclusive byte range.
pub open spec fn range_text(start: nat, end: nat) -> Seq<char> {
    "bytes="@ + decimal(start) + "-"@ + decimal(end)
}

/// `Range` header value for a non-empty segment: `bytes=<start>-<end>`.
pub fn range_header(seg: &Segment) -> (r: String)
    requires
        seg.len > 0,
        seg.start + seg.len <= u64::MAX + 1,
    ensures
        r@ == range_text(seg.start as nat, seg.end() as nat),
{
    let mut r = String::from_str("bytes=");
    r.append(decimal_string(seg.start).as_str());
    r.append("-");
    r.append(decimal_string(seg.end_offset()).as_str());
    r
}

/// Only `206 Partial Content` is accepted; `200 OK` means the server ignored
/// the range, and any other status fails with that status.
pub fn check_range_status(status: u16) -> (r: Result<(), SegmentError>)
    ensures
        status == 206 ==> r is Ok,
        status == 200 ==> r == Err::<(), SegmentError>(SegmentError::RangeIgnored),
        status != 206 && status != 200 ==> r == Err::<(), SegmentError>(
            SegmentError::UnexpectedStatus(status)),
{
    if status == 206 {
        Ok(())
    } else if status == 200 {
        Err(SegmentError::RangeIgnored)
    } else {
        Err(SegmentError::UnexpectedStatus(status))
    }
}

/// What the body stream of a segment produced next.
#[derive(Clone, Debug, PartialEq, Eq)]
pub enum ChunkEvent {
    /// A chunk of this many bytes was written to the segment's file.
    Data(u64),
    /// The body ended.
    End,
    /// The stream broke, for the given reason.
    Failed(String),
}

/// What the worker does after an event.
#[derive(Clone, Debug, PartialEq, Eq)]
pub enum SegmentStep {
    /// Publish the cumulative byte count and read on.
    Progress(u64),
    /// Flush the file: the segment is complete, with every byte it asked for.
    Finished,
    /// Abandon the segment.
    Fail(SegmentError),
}

/// The running state of one segment's transfer.
pub struct SegmentTransfer {
    pub expected: u64,
    pub received: u64,
}

pub open spec fn capped_sum(a: nat, b: nat) -> u64 {
    if a + b > u64::MAX { u64::MAX } else { (a + b) as u64 }
}

impl SegmentTransfer {
    pub fn new(seg: &Segment) -> (r: SegmentTransfer)
        ensures
            r.expected == seg.len,
            r.received == 0,
    {
        SegmentTransfer { expected: seg.len, received: 0 }
    }

    /// Handles one event of the body stream. `stale` is the cancellation
    /// check made before the chunk was read; it wins over the event. A clean
    /// end completes the segment only when exactly the expected number of
    /// bytes arrived.
    pub fn step(&mut self, stale: bool, event: ChunkEvent) -> (r: SegmentStep)
        ensures
            final(self).expected == old(self).expected,
            stale ==> r == SegmentStep::Fail(SegmentError::Cancelled) && final(self).received == old(self).received,
            !stale ==> match event {
                ChunkEvent::Data(n) => final(self).received == capped_sum(old(self).received as nat, n as nat)
                    && r == SegmentStep::Progress(final(self).received),
                ChunkEvent::End => final(self).received == old(self).received && if old(self).received
                    == old(self).expected {
                    r == SegmentStep::Finished
                } else {
                    r == SegmentStep::Fail(SegmentError::LengthMismatch {
                        received: old(self).received,
                        expected: old(self).expected,
                    })
                },
                ChunkEvent::Failed(cause) => final(self).received == old(self).received
                    && r == SegmentStep::Fail(SegmentError::Interrupted {
                        received: old(self).received,
                        expected: old(self).expected,
                        cause,
                    }),
            },
    {
        if stale {
            return SegmentStep::Fail(SegmentError::Cancelled);
        }
        match event {
            ChunkEvent::Data(n) => {
                self.received = self.received.saturating_add(n);
                SegmentStep::Progress(self.received)
            },
            ChunkEvent::End => if self.received == self.expected {
                SegmentStep::Finished
            } else {
                SegmentStep::Fail(SegmentError::LengthMismatch { received: self.received, expected: self.expected })
            },
            ChunkEvent::Failed(cause) => SegmentStep::Fail(SegmentError::Interrupted {
                received: self.received,
                expected: self.expected,
                cause,
            }),
        }
    }
}

} // verus!
