//! Progress reporting: summing per-segment counters, throughput over a tick,
//! and the events emitted while a transfer runs.

use vstd::prelude::*;
use crate::worker::capped_sum;

verus! {

/// Interval between two progress reports, in milliseconds.
pub const TICK_MS: u64 = 500;

/// The phase a progress event reports.
#[derive(Clone, Copy, Debug, PartialEq, Eq, Structural)]
pub enum TransferStatus {
    Transferring,
    Merging,
    Done,
}

/// One progress report: bytes so far, expected total, and throughput in
/// bytes per second over the last interval.
#[derive(Clone, Copy, Debug, PartialEq, Eq, Structural)]
pub struct ProgressEvent {
    pub downloaded: u64,
    pub total: u64,
    pub bytes_per_sec: u64,
    pub status: TransferStatus,
}

/// Sum of a sequence of counters.
pub open spec fn seq_sum(s: Seq<u64>) -> nat
    decreases s.len(),
{
    if s.len() == 0 { 0 } else { seq_sum(s.drop_last()) + s.last() as nat }
}

/// Bytes per second for `delta` bytes over `elapsed_ms` milliseconds
/// (0 when no time has passed), capped at `u64::MAX`.
pub open spec fn rate(delta: nat, elapsed_ms: nat) -> u64 {
    if elapsed_ms == 0 {
        0
    } else if delta * 1000 / elapsed_ms > u64::MAX {
        u64::MAX
    } else {
        (delta * 1000 / elapsed_ms) as u64
    }
}

pub open spec fn sat_sub(a: u64, b: u64) -> nat {
    if a >= b { (a - b) as nat } else { 0 }
}

pub fn throughput(delta: u64, elapsed_ms: u64) -> (r: u64)
    ensures
        r == rate(delta as nat, elapsed_ms as nat),
{
    if elapsed_ms == 0 {
        return 0;
    }
    let q: u128 = (delta as u128) * 1000 / (elapsed_ms as u128);
    if q > u64::MAX as u128 { u64::MAX } else { q as u64 }
}

/// The sum of the per-segment counters, capped at `u64::MAX`.
pub fn total_progress(counters: &Vec<u64>) -> (r: u64)
    ensures
        r == (if seq_sum(counters@) > u64::MAX { u64::MAX } else { seq_sum(counters@) as u64 }),
{
    let mut acc: u64 = 0;
    let mut i: usize = 0;
    let mut saturated = false;
    while i < counters.len()
        invariant
            i <= counters@.len(),
            !saturated ==> acc == seq_sum(counters@.subrange(0, i as int)),
            saturated ==> acc == u64::MAX && seq_sum(counters@.subrange(0, i as int)) > u64::MAX,
        decreases counters@.len() - i,
    {
        let ghost pre = counters@.subrange(0, i as int);
        let ghost next = counters@.subrange(0, i + 1);
        assert(next.drop_last() =~= pre);
        let c = counters[i];
        if saturated || (acc as u128) + (c as u128) > u64::MAX as u128 {
            acc = u64::MAX;
            saturated = true;
        } else {
            acc = acc + c;
        }
        i = i + 1;
    }
    assert(counters@.subrange(0, counters@.len() as int) =~= counters@);
    acc
}

/// What the monitor does after a tick.
#[derive(Clone, Copy, Debug, PartialEq, Eq, Structural)]
pub struct MonitorTick {
    /// The event to emit, if any.
    pub event: Option<ProgressEvent>,
    /// Whether the monitor stops after this tick.
    pub finished: bool,
}

/// The monitor of a multi-segment transfer: it only reads the counters.
pub struct ProgressMonitor {
    pub total: u64,
    pub last_downloaded: u64,
    pub last_ms: u64,
}

impl ProgressMonitor {
    pub fn new(total: u64, now_ms: u64) -> (r: ProgressMonitor)
        ensures
            r.total == total,
            r.last_downloaded == 0,
            r.last_ms == now_ms,
    {
        ProgressMonitor { total, last_downloaded: 0, last_ms: now_ms }
    }

    /// One tick at time `now_ms`: stop at once when stale; otherwise report
    /// the summed counters with the throughput since the last tick, and stop
    /// once the sum reaches the total.
    pub fn tick(&mut self, stale: bool, counters: &Vec<u64>, now_ms: u64) -> (r: MonitorTick)
        ensures
            final(self).total == old(self).total,
            stale ==> r == (MonitorTick { event: None, finished: true }) && *final(self) == *old(self),
            !stale ==> {
                let sum = if seq_sum(counters@) > u64::MAX { u64::MAX } else { seq_sum(counters@) as u64 };
                &&& r == (MonitorTick {
                    event: Some(ProgressEvent {
                        downloaded: sum,
                        total: old(self).total,
                        bytes_per_sec: rate(
                            sat_sub(sum, old(self).last_downloaded),
                            sat_sub(now_ms, old(self).last_ms),
                        ),
                        status: TransferStatus::Transferring,
                    }),
                    finished: sum >= old(self).total,
                })
                &&& final(self).last_downloaded == sum
                &&& final(self).last_ms == now_ms
            },
    {
        if stale {
            return MonitorTick { event: None, finished: true };
        }
        let downloaded = total_progress(counters);
        let speed = throughput(
            downloaded.saturating_sub(self.last_downloaded),
            now_ms.saturating_sub(self.last_ms),
        );
        self.last_downloaded = downloaded;
        self.last_ms = now_ms;
        MonitorTick {
            event: Some(ProgressEvent {
                downloaded,
                total: self.total,
                bytes_per_sec: speed,
                status: TransferStatus::Transferring,
            }),
            finished: downloaded >= self.total,
        }
    }
}

/// Progress of a single-stream transfer, reported at most once per tick.
pub struct StreamProgress {
    pub total: u64,
    pub downloaded: u64,
    pub last_emit_ms: u64,
    pub last_downloaded: u64,
}

impl StreamProgress {
    pub fn new(total: u64, now_ms: u64) -> (r: StreamProgress)
        ensures
            r.total == total,
            r.downloaded == 0,
            r.last_emit_ms == now_ms,
            r.last_downloaded == 0,
    {
        StreamProgress { total, downloaded: 0, last_emit_ms: now_ms, last_downloaded: 0 }
    }

    /// Counts a chunk of `len` bytes written at time `now_ms`, and returns an
    /// event when at least `TICK_MS` have passed since the last one.
    pub fn on_chunk(&mut self, len: u64, now_ms: u64) -> (r: Option<ProgressEvent>)
        ensures
            final(self).total == old(self).total,
            final(self).downloaded == capped_sum(old(self).downloaded as nat, len as nat),
            sat_sub(now_ms, old(self).last_emit_ms) >= TICK_MS ==> {
                &&& r == Some(ProgressEvent {
                    downloaded: final(self).downloaded,
                    total: old(self).total,
                    bytes_per_sec: rate(
                        sat_sub(final(self).downloaded, old(self).last_downloaded),
                        sat_sub(now_ms, old(self).last_emit_ms),
                    ),
                    status: TransferStatus::Transferring,
                })
                &&& final(self).last_emit_ms == now_ms
                &&& final(self).last_downloaded == final(self).downloaded
            },
            sat_sub(now_ms, old(self).last_emit_ms) < TICK_MS ==> r is None
                && final(self).last_emit_ms == old(self).last_emit_ms
                && final(self).last_downloaded == old(self).last_downloaded,
    {
        self.downloaded = self.downloaded.saturating_add(len);
        let elapsed = now_ms.saturating_sub(self.last_emit_ms);
        if elapsed < TICK_MS {
            return None;
        }
        let speed = throughput(self.downloaded.saturating_sub(self.last_downloaded), elapsed);
        self.last_downloaded = self.downloaded;
        self.last_emit_ms = now_ms;
        Some(ProgressEvent {
            downloaded: self.downloaded,
            total: self.total,
            bytes_per_sec: speed,
            status: TransferStatus::Transferring,
        })
    }

    /// The final event of a completed single-stream transfer.
    pub fn done_event(&self) -> (r: ProgressEvent)
        ensures
            r == (ProgressEvent {
                downloaded: self.downloaded,
                total: self.total,
                bytes_per_sec: 0,
                status: TransferStatus::Done,
            }),
    {
        ProgressEvent { downloaded: self.downloaded, total: self.total, bytes_per_sec: 0, status: TransferStatus::Done }
    }
}

/// The event for a multi-segment transfer entering the merge, or done.
pub fn phase_event(total: u64, status: TransferStatus) -> (r: ProgressEvent)
    ensures
        r == (ProgressEvent { downloaded: total, total, bytes_per_sec: 0, status }),
{
    ProgressEvent { downloaded: total, total, bytes_per_sec: 0, status }
}

} // verus!
