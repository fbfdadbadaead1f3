use fabric_ui::pacing::FramePacer;

#[test]
fn redraw_waits_for_dirt_and_the_frame_interval() {
    let mut p = FramePacer::new();
    assert!(!p.should_redraw(false, 1_000));
    assert!(p.should_redraw(true, 1_000));
    p.mark_redraw(1_000);
    assert!(!p.should_redraw(true, 1_010));
    assert!(p.should_redraw(true, 1_016));
    assert!(!p.should_redraw(false, 1_016));
}

#[test]
fn the_poll_blocks_only_when_idle() {
    let p = FramePacer::new();
    assert!(p.poll_blocking(false));
    assert!(!p.poll_blocking(true));
}
