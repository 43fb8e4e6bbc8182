use quark_downloader::download::{chunk_file_name, short_token, temp_dir_name, new_token};
use quark_downloader::planner::{clamp_thread_count, plan_segments, Segment};
use quark_downloader::strategy::{
    accepts_ranges, choose_strategy, classify_probe, content_length, probe_error, ProbeDecision,
    Strategy,
};
use quark_downloader::error::DownloadError;

fn check_plan(total: u64, t: usize) -> Vec<Segment> {
    let segs = plan_segments(total, t);
    assert_eq!(segs.len(), t);
    let mut next: u64 = 0;
    let mut sum: u64 = 0;
    for (i, s) in segs.iter().enumerate() {
        assert_eq!(s.index, i);
        assert_eq!(s.start, next);
        next = s.start + s.len;
        sum += s.len;
    }
    assert_eq!(next, total);
    assert_eq!(sum, total);
    segs
}

#[test]
fn plan_is_contiguous_and_covers_total() {
    for &(total, t) in &[(0u64, 1usize), (1, 1), (10, 3), (100, 7), (5, 8), (1000, 999), (7, 999)] {
        check_plan(total, t);
    }
}

#[test]
fn plan_last_segment_absorbs_remainder() {
    let segs = check_plan(10, 3);
    assert_eq!((segs[0].start, segs[0].len), (0, 3));
    assert_eq!((segs[1].start, segs[1].len), (3, 3));
    assert_eq!((segs[2].start, segs[2].len), (6, 4));
    assert_eq!(segs[2].end_offset(), 9);
}

#[test]
fn plan_smaller_than_thread_count() {
    let segs = check_plan(3, 5);
    for s in &segs[..4] {
        assert_eq!(s.len, 0);
    }
    assert_eq!((segs[4].start, segs[4].len), (0, 3));
    assert_eq!(segs[4].end_offset(), 2);
}

#[test]
fn fifty_mib_in_four_segments() {
    let total: u64 = 50 * 1024 * 1024;
    let segs = check_plan(total, 4);
    for s in &segs {
        assert_eq!(s.len, 13_107_200);
    }
    assert_eq!(segs[3].end_offset(), total - 1);
    assert_eq!(choose_strategy(true, total), Strategy::MultiSegment);
}

#[test]
fn thread_count_is_clamped() {
    assert_eq!(clamp_thread_count(None), 999);
    assert_eq!(clamp_thread_count(Some(0)), 1);
    assert_eq!(clamp_thread_count(Some(4)), 4);
    assert_eq!(clamp_thread_count(Some(5000)), 999);
}

#[test]
fn merged_segments_rebuild_source() {
    let source: Vec<u8> = (0..1000u32).map(|i| (i * 7 % 251) as u8).collect();
    for t in [1usize, 3, 4, 999] {
        let segs = plan_segments(source.len() as u64, t);
        let mut merged = Vec::new();
        for s in &segs {
            let a = s.start as usize;
            merged.extend_from_slice(&source[a..a + s.len as usize]);
        }
        assert_eq!(merged, source);
    }
}

#[test]
fn threshold_boundary() {
    let mib10: u64 = 10 * 1024 * 1024;
    assert_eq!(choose_strategy(true, mib10), Strategy::MultiSegment);
    assert_eq!(choose_strategy(true, mib10 - 1), Strategy::SingleStream);
    assert_eq!(choose_strategy(false, mib10 * 5), Strategy::SingleStream);
}

#[test]
fn probe_headers_are_read() {
    assert_eq!(content_length(Some("52428800")), 52_428_800);
    assert_eq!(content_length(Some("+12")), 12);
    assert_eq!(content_length(Some("abc")), 0);
    assert_eq!(content_length(Some("")), 0);
    assert_eq!(content_length(Some("18446744073709551616")), 0);
    assert_eq!(content_length(None), 0);
    assert!(accepts_ranges(Some("bytes")));
    assert!(accepts_ranges(Some("none, bytes")));
    assert!(!accepts_ranges(Some("none")));
    assert!(!accepts_ranges(None));
}

#[test]
fn probe_classification() {
    assert_eq!(classify_probe(true, 200, Some("99999999"), Some("bytes")), ProbeDecision::Cancelled);
    assert_eq!(classify_probe(false, 404, Some("10"), None), ProbeDecision::Rejected);
    assert_eq!(
        classify_probe(false, 200, Some("10485760"), Some("bytes")),
        ProbeDecision::Transfer { strategy: Strategy::MultiSegment, total_size: 10_485_760 }
    );
    assert_eq!(
        classify_probe(false, 200, Some("10485759"), Some("bytes")),
        ProbeDecision::Transfer { strategy: Strategy::SingleStream, total_size: 10_485_759 }
    );
}

#[test]
fn probe_error_keeps_two_hundred_chars() {
    let body = "x".repeat(250);
    match probe_error(503, &body) {
        DownloadError::ServerStatus { status, detail } => {
            assert_eq!(status, 503);
            assert_eq!(detail.chars().count(), 200);
        }
        other => panic!("unexpected {:?}", other),
    }
    let e = probe_error(404, "not found");
    assert_eq!(e.message(), "server returned error 404: not found");
}

#[test]
fn workspace_names() {
    assert_eq!(chunk_file_name(0), "chunk_0");
    assert_eq!(chunk_file_name(12), "chunk_12");
    assert_eq!(short_token("0123abcd-ffff-4444-8888-999999999999"), "0123abcd");
    assert_eq!(temp_dir_name("0123abcd"), ".quark_temp_0123abcd");
    let a = new_token();
    let b = new_token();
    assert_eq!(a.chars().count(), 8);
    assert_ne!(a, b);
}
