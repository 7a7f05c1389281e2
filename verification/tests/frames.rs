use cc_switch_tui::frame::{
    frame_draw_wait, next_loop_timeout, tick_wait, FrameScheduler, TUI_FRAME_INTERVAL,
    TUI_TICK_RATE,
};

const MICROSECOND: u64 = 1_000;
const MILLISECOND: u64 = 1_000_000;
const SECOND: u64 = 1_000_000_000;

#[test]
fn tui_tick_rate_returns_to_200ms() {
    assert_eq!(TUI_TICK_RATE, 200 * MILLISECOND);
}

#[test]
fn frame_draw_wait_draws_first_dirty_frame_immediately() {
    assert_eq!(frame_draw_wait(true, None), Some(0));
    assert_eq!(frame_draw_wait(false, None), None);
}

#[test]
fn frame_draw_wait_caps_repeated_dirty_wakeups() {
    let almost_one_frame = TUI_FRAME_INTERVAL - MICROSECOND;

    assert_eq!(
        frame_draw_wait(true, Some(almost_one_frame)),
        Some(MICROSECOND)
    );
    assert_eq!(frame_draw_wait(true, Some(TUI_FRAME_INTERVAL)), Some(0));
    assert_eq!(
        frame_draw_wait(true, Some(TUI_FRAME_INTERVAL + SECOND)),
        Some(0)
    );
}

#[test]
fn dirty_frame_deadline_shortens_tick_wait_for_single_input() {
    let elapsed = 4 * MILLISECOND;
    let frame_wait = frame_draw_wait(true, Some(elapsed));

    assert_eq!(
        next_loop_timeout(TUI_TICK_RATE - elapsed, frame_wait),
        TUI_FRAME_INTERVAL - elapsed
    );
    assert_eq!(next_loop_timeout(TUI_TICK_RATE, None), TUI_TICK_RATE);
}

#[test]
fn frame_scheduler_stays_clean_until_an_update_and_respects_cap() {
    let started = 3 * SECOND;
    let mut scheduler = FrameScheduler::new();

    assert!(scheduler.is_due(started));
    scheduler.record_draw(started);
    assert_eq!(scheduler.wait(started + SECOND), None);

    scheduler.mark_dirty();
    assert_eq!(
        scheduler.wait(started + 4 * MILLISECOND),
        Some(TUI_FRAME_INTERVAL - 4 * MILLISECOND)
    );
    assert!(scheduler.is_due(started + TUI_FRAME_INTERVAL));
}

#[test]
fn a_tick_waits_for_what_is_left_of_it() {
    assert_eq!(tick_wait(SECOND, SECOND), TUI_TICK_RATE);
    assert_eq!(tick_wait(SECOND + 50 * MILLISECOND, SECOND), 150 * MILLISECOND);
    assert_eq!(tick_wait(2 * SECOND, SECOND), 0);
}
