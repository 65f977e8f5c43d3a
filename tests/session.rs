use xcode_discord_rpc::session::SessionTracker;

#[test]
fn project_sequence_resets_on_entry() {
    let mut s = SessionTracker::new(90);
    assert_eq!(s.update("", true, 100), 100);
    assert_eq!(s.update("Foo", false, 130), 130);
    assert_eq!(s.update("Foo", false, 160), 130);
    assert_eq!(s.update("Bar", false, 190), 190);
    assert_eq!(s.project(), "Bar");
}

#[test]
fn switch_moves_anchor_forward() {
    let mut s = SessionTracker::new(10);
    let a = s.update("A", false, 20);
    let b = s.update("B", false, 25);
    assert!(b >= a);
    assert_ne!(b, a);
    let c = s.update("", false, 25);
    assert_eq!(c, 25);
}

#[test]
fn same_project_keeps_anchor() {
    let mut s = SessionTracker::new(10);
    let first = s.update("Foo", false, 11);
    for t in 12..20 {
        assert_eq!(s.update("Foo", false, t), first);
    }
    assert_eq!(s.started_at(), 11);
}

#[test]
fn fresh_connection_resets() {
    let mut s = SessionTracker::new(10);
    s.update("Foo", false, 11);
    assert_eq!(s.update("Foo", true, 50), 50);
}
