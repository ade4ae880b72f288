use ursa_minor_ffb::smoothing::RevisionWatch;

#[test]
fn fresh_watch_has_seen_revision_zero() {
    let mut w = RevisionWatch::new();
    assert_eq!(w.last(), 0);
    assert!(!w.observe(0));
    let d = RevisionWatch::default();
    assert_eq!(d.last(), 0);
}

#[test]
fn restart_once_per_revision_change() {
    let mut w = RevisionWatch::new();
    assert!(w.observe(7));
    assert_eq!(w.last(), 7);
    assert!(!w.observe(7));
    assert!(!w.observe(7));
    assert!(w.observe(3));
    assert_eq!(w.last(), 3);
    assert!(w.observe(u64::MAX));
    assert!(!w.observe(u64::MAX));
}
