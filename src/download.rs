//! Decisions of the download orchestrator: identifiers and names of the
//! files it writes, how segment results combine, what a single stream does
//! with each event, and the law that a merge of planned ranges rebuilds
//! the resource.

use vstd::prelude::*;
use crate::error::{DownloadError, SegmentError, SegmentFailure};
use crate::planner::{planned_segment, lemma_plan_contiguous, MAX_THREADS};
use crate::text::{decimal, decimal_string, first_chars, first_chars_of};
use crate::worker::ChunkEvent;

verus! {

/// Length of the short tokens taken from a random UUID.
pub const TOKEN_CHARS: usize = 8;

/// Relies on `uuid::Uuid::new_v4` and its `Display`, which writes the
/// hyphenated form: 36 characters.
#[verifier::external_body]
fn random_uuid_text() -> (r: String)
    ensures
        r@.len() == 36,
{
    uuid::Uuid::new_v4().to_string()
}

/// A fresh random request identifier: the text of a random UUID.
pub fn new_request_id() -> (r: String)
    ensures
        r@.len() == 36,
{
    random_uuid_text()
}

/// The first `TOKEN_CHARS` characters of a UUID's text.
pub fn short_token(uuid_text: &str) -> (r: String)
    ensures
        r@ == first_chars(uuid_text@, TOKEN_CHARS as nat),
{
    first_chars_of(uuid_text, TOKEN_CHARS)
}

/// A fresh short random token, used as a download ID and to name a
/// temporary workspace.
pub fn new_token() -> (r: String)
    ensures
        r@.len() == TOKEN_CHARS,
{
    let u = random_uuid_text();
    short_token(u.as_str())
}

pub open spec fn temp_dir_text(token: Seq<char>) -> Seq<char> {
    ".quark_temp_"@ + token
}

/// Name of the temporary workspace directory for a token.
pub fn temp_dir_name(token: &str) -> (r: String)
    ensures
        r@ == temp_dir_text(token@),
{
    String::from_str(".quark_temp_").concat(token)
}

pub open spec fn chunk_text(index: nat) -> Seq<char> {
    "chunk_"@ + decimal(index)
}

/// Name of the temporary file that holds segment `index`.
pub fn chunk_file_name(index: usize) -> (r: String)
    ensures
        r@ == chunk_text(index as nat),
{
    let mut r = String::from_str("chunk_");
    r.append(decimal_string(index as u64).as_str());
    r
}

/// What a finished download reports: where the file is and its size.
#[derive(Clone, Debug, PartialEq, Eq)]
pub struct DownloadSummary {
    pub path: String,
    pub size: u64,
}

/// The failed segments among the results, with their indices, in order.
pub open spec fn failures_of(rs: Seq<Result<(), SegmentError>>) -> Seq<SegmentFailure>
    decreases rs.len(),
{
    if rs.len() == 0 {
        Seq::empty()
    } else {
        let pre = failures_of(rs.drop_last());
        match rs.last() {
            Ok(_) => pre,
            Err(e) => pre.push(SegmentFailure { index: (rs.len() - 1) as usize, error: e }),
        }
    }
}

/// What follows the segment workers: merge, or abandon the workspace.
#[derive(Clone, Debug, PartialEq, Eq)]
pub enum MergeDecision {
    Merge,
    Abort(DownloadError),
}

/// Whether the segments are merged once every worker has ended: only when
/// no worker failed and the epoch is still current.
pub open spec fn merges(stale: bool, rs: Seq<Result<(), SegmentError>>) -> bool {
    failures_of(rs).len() == 0 && !stale
}

/// Decides, from the workers' results in index order and a last
/// cancellation check, between merging and abandoning the workspace: any
/// failure aborts with all failures; else a stale epoch aborts as cancelled.
pub fn decide_merge(stale: bool, results: Vec<Result<(), SegmentError>>) -> (r: MergeDecision)
    ensures
        r == MergeDecision::Merge <==> merges(stale, results@),
        failures_of(results@).len() > 0 ==> (r matches MergeDecision::Abort(DownloadError::SegmentsFailed(fs))
            && fs@ == failures_of(results@)),
        failures_of(results@).len() == 0 && stale ==> r == MergeDecision::Abort(DownloadError::Cancelled),
{
    let ghost orig = results@;
    let n = results.len();
    let mut rest = results;
    let mut failures: Vec<SegmentFailure> = Vec::new();
    let mut i: usize = 0;
    while i < n
        invariant
            n == orig.len(),
            i <= n,
            rest@ == orig.subrange(i as int, n as int),
            failures@ == failures_of(orig.subrange(0, i as int)),
        decreases n - i,
    {
        let r = rest.remove(0);
        let ghost pre = orig.subrange(0, i as int);
        let ghost next = orig.subrange(0, i + 1);
        assert(next.drop_last() =~= pre);
        assert(r == orig[i as int]);
        match r {
            Ok(()) => {},
            Err(e) => {
                failures.push(SegmentFailure { index: i, error: e });
            },
        }
        i = i + 1;
        assert(rest@ =~= orig.subrange(i as int, n as int));
    }
    assert(orig.subrange(0, n as int) =~= orig);
    if failures.len() > 0 {
        MergeDecision::Abort(DownloadError::SegmentsFailed(failures))
    } else if stale {
        MergeDecision::Abort(DownloadError::Cancelled)
    } else {
        MergeDecision::Merge
    }
}

/// What a single-stream transfer does after an event.
#[derive(Clone, Debug, PartialEq, Eq)]
pub enum StreamAction {
    /// The chunk was written: read on.
    Continue,
    /// The body ended: flush and report.
    Complete,
    /// Delete the partly written destination file and fail.
    Abort(DownloadError),
}

/// The single-stream decision for one event, given the cancellation check
/// made before it and the bytes written so far.
pub fn stream_step(stale: bool, event: ChunkEvent, received: u64) -> (r: StreamAction)
    ensures
        stale ==> r == StreamAction::Abort(DownloadError::Cancelled),
        !stale ==> match event {
            ChunkEvent::Data(_) => r == StreamAction::Continue,
            ChunkEvent::End => r == StreamAction::Complete,
            ChunkEvent::Failed(cause) => r == StreamAction::Abort(
                DownloadError::Interrupted { received, cause }),
        },
{
    if stale {
        return StreamAction::Abort(DownloadError::Cancelled);
    }
    match event {
        ChunkEvent::Data(_) => StreamAction::Continue,
        ChunkEvent::End => StreamAction::Complete,
        ChunkEvent::Failed(cause) => StreamAction::Abort(DownloadError::Interrupted { received, cause }),
    }
}

/// Once the epoch is stale, the segments of a transfer are never merged
/// into a final file, whatever the workers reported.
pub proof fn lemma_stale_never_merges(rs: Seq<Result<(), SegmentError>>)
    ensures
        !merges(true, rs),
{
}

/// The bytes of the planned segments of `source`, one part per segment.
pub open spec fn planned_parts(source: Seq<u8>, t: nat) -> Seq<Seq<u8>> {
    Seq::new(t, |i: int| {
        let s = planned_segment(source.len(), t, i as nat);
        source.subrange(s.start as int, s.start + s.len)
    })
}

/// The concatenation of parts, in order.
pub open spec fn concat_parts(parts: Seq<Seq<u8>>) -> Seq<u8>
    decreases parts.len(),
{
    if parts.len() == 0 { Seq::empty() } else { concat_parts(parts.drop_last()) + parts.last() }
}

proof fn lemma_concat_prefix(source: Seq<u8>, t: nat, k: nat)
    requires
        1 <= t <= MAX_THREADS,
        source.len() <= u64::MAX,
        k <= t,
    ensures
        k == 0 ==> concat_parts(planned_parts(source, t).subrange(0, k as int)) == Seq::<u8>::empty(),
        k > 0 ==> concat_parts(planned_parts(source, t).subrange(0, k as int)) == source.subrange(
            0,
            planned_segment(source.len(), t, (k - 1) as nat).end() + 1,
        ),
    decreases k,
{
    lemma_plan_contiguous(source.len(), t);
    let parts = planned_parts(source, t);
    let pre = parts.subrange(0, k as int);
    if k == 0 {
        assert(pre.len() == 0);
    } else {
        lemma_concat_prefix(source, t, (k - 1) as nat);
        assert(pre.drop_last() =~= parts.subrange(0, k - 1));
        let s = planned_segment(source.len(), t, (k - 1) as nat);
        assert(pre.last() == source.subrange(s.start as int, s.start + s.len));
        if k == 1 {
            assert(s.start == 0);
            assert(Seq::<u8>::empty() + pre.last() =~= pre.last());
        } else {
            let p = planned_segment(source.len(), t, (k - 2) as nat);
            assert(planned_segment(source.len(), t, ((k - 2) as nat + 1) as nat) == s);
            assert(s.start == p.end() + 1);
            assert(source.subrange(0, p.end() + 1) + source.subrange(s.start as int, s.start + s.len)
                =~= source.subrange(0, s.end() + 1));
        }
    }
}

/// Merging, in index order, the bytes fetched for each planned segment of a
/// resource gives back the resource byte for byte.
pub proof fn lemma_merge_rebuilds_source(source: Seq<u8>, t: nat)
    requires
        1 <= t <= MAX_THREADS,
        source.len() <= u64::MAX,
    ensures
        concat_parts(planned_parts(source, t)) == source,
{
    lemma_concat_prefix(source, t, t);
    lemma_plan_contiguous(source.len(), t);
    let parts = planned_parts(source, t);
    assert(parts.subrange(0, t as int) =~= parts);
    assert(source.subrange(0, source.len() as int) =~= source);
}

} // verus!
