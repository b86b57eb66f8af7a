use oxidegate::stats::Stats;
use oxidegate::stream::FirstChunkWatch;

#[test]
fn only_first_chunk_is_reported() {
    let mut w = FirstChunkWatch::new();
    assert!(w.observe());
    assert!(!w.observe());
    assert!(!w.observe());
}

#[test]
fn fresh_stats_count_nothing() {
    let s = Stats::new();
    assert_eq!(s.ok, 0);
    assert_eq!(s.failed, 0);
}
