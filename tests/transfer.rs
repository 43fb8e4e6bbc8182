use quark_downloader::download::{decide_merge, stream_step, MergeDecision, StreamAction};
use quark_downloader::epoch::is_cancelled;
use quark_downloader::error::{DownloadError, SegmentError, SegmentFailure};
use quark_downloader::planner::Segment;
use quark_downloader::progress::{
    phase_event, throughput, total_progress, ProgressMonitor, StreamProgress, TransferStatus,
};
use quark_downloader::redirect::{next_url, RedirectTracker};
use quark_downloader::worker::{check_range_status, range_header, ChunkEvent, SegmentStep, SegmentTransfer};

#[test]
fn range_request_answered_with_200_fails() {
    assert_eq!(check_range_status(206), Ok(()));
    assert_eq!(check_range_status(200), Err(SegmentError::RangeIgnored));
    assert_eq!(check_range_status(416), Err(SegmentError::UnexpectedStatus(416)));
    assert_eq!(
        SegmentError::UnexpectedStatus(416).message(),
        "server returned 416 (expected 206)"
    );
}

#[test]
fn range_header_value() {
    let s = Segment { index: 1, start: 100, len: 50 };
    assert_eq!(range_header(&s), "bytes=100-149");
    let first = Segment { index: 0, start: 0, len: 13_107_200 };
    assert_eq!(range_header(&first), "bytes=0-13107199");
}

#[test]
fn segment_progress_is_cumulative() {
    let seg = Segment { index: 0, start: 0, len: 10 };
    let mut t = SegmentTransfer::new(&seg);
    assert_eq!(t.step(false, ChunkEvent::Data(4)), SegmentStep::Progress(4));
    assert_eq!(t.step(false, ChunkEvent::Data(6)), SegmentStep::Progress(10));
    assert_eq!(t.step(false, ChunkEvent::End), SegmentStep::Finished);
}

#[test]
fn segment_interruption_reports_counts() {
    let seg = Segment { index: 2, start: 0, len: 10 };
    let mut t = SegmentTransfer::new(&seg);
    t.step(false, ChunkEvent::Data(3));
    let step = t.step(false, ChunkEvent::Failed("reset".to_string()));
    let err = SegmentError::Interrupted { received: 3, expected: 10, cause: "reset".to_string() };
    assert_eq!(step, SegmentStep::Fail(err.clone()));
    assert_eq!(err.message(), "transfer interrupted: reset (received 3/10)");
}

#[test]
fn stale_epoch_cancels_every_step() {
    let current: u64 = 1;
    let captured: u64 = 0;
    assert!(is_cancelled(current, captured));
    assert!(!is_cancelled(captured, captured));
    let seg = Segment { index: 0, start: 0, len: 10 };
    let mut t = SegmentTransfer::new(&seg);
    assert_eq!(t.step(true, ChunkEvent::Data(5)), SegmentStep::Fail(SegmentError::Cancelled));
    assert_eq!(t.received, 0);
    assert_eq!(
        stream_step(true, ChunkEvent::Data(5), 0),
        StreamAction::Abort(DownloadError::Cancelled)
    );
    assert_eq!(decide_merge(true, vec![Ok(()), Ok(())]), MergeDecision::Abort(DownloadError::Cancelled));
    assert_eq!(DownloadError::Cancelled.message(), "download cancelled");
    let mut m = ProgressMonitor::new(100, 0);
    let tick = m.tick(true, &vec![10, 20], 500);
    assert!(tick.finished);
    assert!(tick.event.is_none());
}

#[test]
fn single_stream_steps() {
    assert_eq!(stream_step(false, ChunkEvent::Data(5), 0), StreamAction::Continue);
    assert_eq!(stream_step(false, ChunkEvent::End, 9), StreamAction::Complete);
    assert_eq!(
        stream_step(false, ChunkEvent::Failed("eof".to_string()), 9),
        StreamAction::Abort(DownloadError::Interrupted { received: 9, cause: "eof".to_string() })
    );
}

#[test]
fn merge_requires_all_segments() {
    assert_eq!(decide_merge(false, vec![Ok(()), Ok(()), Ok(())]), MergeDecision::Merge);
    let d = decide_merge(
        false,
        vec![Ok(()), Err(SegmentError::RangeIgnored), Ok(()), Err(SegmentError::Crashed("boom".to_string()))],
    );
    let expected = vec![
        SegmentFailure { index: 1, error: SegmentError::RangeIgnored },
        SegmentFailure { index: 3, error: SegmentError::Crashed("boom".to_string()) },
    ];
    assert_eq!(d, MergeDecision::Abort(DownloadError::SegmentsFailed(expected.clone())));
    assert_eq!(
        DownloadError::SegmentsFailed(expected).message(),
        "multi-segment download failed:\nsegment 1: server does not honour range requests (200 instead of 206)\nsegment 3: task crashed: boom"
    );
}

#[test]
fn throughput_values() {
    assert_eq!(throughput(1000, 500), 2000);
    assert_eq!(throughput(1500, 1000), 1500);
    assert_eq!(throughput(10, 0), 0);
    assert_eq!(throughput(u64::MAX, 1), u64::MAX);
    assert_eq!(total_progress(&vec![1, 2, 3]), 6);
    assert_eq!(total_progress(&vec![u64::MAX, 1]), u64::MAX);
    assert_eq!(total_progress(&vec![]), 0);
}

#[test]
fn monitor_reports_and_stops_at_total() {
    let mut m = ProgressMonitor::new(100, 0);
    let t1 = m.tick(false, &vec![10, 40], 500);
    let e1 = t1.event.unwrap();
    assert_eq!((e1.downloaded, e1.total, e1.bytes_per_sec), (50, 100, 100));
    assert_eq!(e1.status, TransferStatus::Transferring);
    assert!(!t1.finished);
    let t2 = m.tick(false, &vec![50, 50], 1000);
    assert_eq!(t2.event.unwrap().bytes_per_sec, 100);
    assert!(t2.finished);
    let done = phase_event(100, TransferStatus::Done);
    assert_eq!((done.downloaded, done.status), (100, TransferStatus::Done));
}

#[test]
fn stream_progress_emits_per_tick() {
    let mut p = StreamProgress::new(1000, 0);
    assert!(p.on_chunk(100, 100).is_none());
    let e = p.on_chunk(400, 500).unwrap();
    assert_eq!((e.downloaded, e.bytes_per_sec), (500, 1000));
    assert!(p.on_chunk(100, 800).is_none());
    let e2 = p.on_chunk(400, 1000).unwrap();
    assert_eq!((e2.downloaded, e2.bytes_per_sec), (1000, 1000));
    assert_eq!(p.done_event().status, TransferStatus::Done);
}

#[test]
fn five_redirects_are_followed() {
    let mut t = RedirectTracker::new("https://example.com/start");
    for _ in 0..5 {
        assert!(t.before_request().is_ok());
        assert!(t.on_response(302, Some("/next")));
    }
    assert!(t.before_request().is_ok());
    assert!(!t.on_response(200, None));
    assert_eq!(t.url, "https://example.com/next");
    assert_eq!(t.hops, 5);
}

#[test]
fn six_redirects_are_too_many() {
    let mut t = RedirectTracker::new("https://example.com/start");
    for _ in 0..6 {
        assert!(t.before_request().is_ok());
        assert!(t.on_response(302, Some("/next")));
    }
    let err = t.before_request().unwrap_err();
    assert_eq!(err, DownloadError::TooManyRedirects);
    assert_eq!(err.message(), "too many redirects");
}

#[test]
fn redirect_locations_are_resolved() {
    let mut t = RedirectTracker::new("https://example.com/a/b?x=1");
    assert!(t.on_response(301, Some("c/d")));
    assert_eq!(t.url, "https://example.com/a/c/d");
    assert!(t.on_response(307, Some("https://cdn.example.net/file")));
    assert_eq!(t.url, "https://cdn.example.net/file");
    let mut bad = RedirectTracker::new("not a url");
    assert!(bad.on_response(302, Some("/x")));
    assert_eq!(bad.url, "/x");
    assert!(!bad.on_response(302, None));
    assert!(!bad.on_response(404, Some("/y")));
}

#[test]
fn short_segment_body_fails() {
    let seg = Segment { index: 0, start: 0, len: 10 };
    let mut t = SegmentTransfer::new(&seg);
    assert_eq!(t.step(false, ChunkEvent::Data(7)), SegmentStep::Progress(7));
    let err = SegmentError::LengthMismatch { received: 7, expected: 10 };
    assert_eq!(t.step(false, ChunkEvent::End), SegmentStep::Fail(err.clone()));
    assert_eq!(err.message(), "body length mismatch (received 7/10)");
}

#[test]
fn overlong_segment_body_fails() {
    let seg = Segment { index: 0, start: 0, len: 4 };
    let mut t = SegmentTransfer::new(&seg);
    t.step(false, ChunkEvent::Data(6));
    assert_eq!(
        t.step(false, ChunkEvent::End),
        SegmentStep::Fail(SegmentError::LengthMismatch { received: 6, expected: 4 })
    );
}

#[test]
fn next_url_falls_back_to_location() {
    assert_eq!(next_url(Some("https://a/b".to_string()), "/b"), "https://a/b");
    assert_eq!(next_url(None, "/b"), "/b");
}
