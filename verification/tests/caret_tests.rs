use skrift::caret::BlinkState;
use skrift::caret::CaretBlinkController;
use skrift::caret::TimerQueue;

#[test]
fn configure_enabled_schedules_one_tick() {
    let mut q = TimerQueue::new();
    let mut c = CaretBlinkController::new();
    c.configure(true, 500, 0, &mut q);
    let live = q.live();
    assert_eq!(live.len(), 1);
    assert_eq!(live[0].due_ms, 500);
    assert!(c.caret_visible());
    assert_eq!(c.state, BlinkState::Active { visible: true });
}

#[test]
fn configure_disabled_cancels_and_forces_visible() {
    let mut q = TimerQueue::new();
    let mut c = CaretBlinkController::new();
    c.configure(true, 500, 0, &mut q);
    c.configure(false, 500, 40, &mut q);
    assert_eq!(q.live().len(), 0);
    assert!(c.caret_visible());
    assert_eq!(c.handle, None);
}

#[test]
fn at_most_one_timer_through_a_whole_session() {
    let mut q = TimerQueue::new();
    let mut c = CaretBlinkController::new();
    assert!(q.live().len() <= 1);
    c.configure(true, 500, 0, &mut q);
    assert!(q.live().len() <= 1);
    c.activity(100, &mut q);
    assert!(q.live().len() <= 1);
    let id = q.live()[0].id;
    c.on_timer(id, 600, &mut q);
    assert!(q.live().len() <= 1);
    c.configure(true, 250, 700, &mut q);
    assert!(q.live().len() <= 1);
    c.configure(false, 250, 800, &mut q);
    assert!(q.live().len() <= 1);
    c.configure(true, 125, 900, &mut q);
    assert!(q.live().len() <= 1);
}

#[test]
fn keystroke_at_100_delays_next_toggle_past_600() {
    let mut q = TimerQueue::new();
    let mut c = CaretBlinkController::new();
    // flashing enabled at 500 ms: first tick due at 500
    c.configure(true, 500, 0, &mut q);
    // keystroke at t = 100: the pending tick is cancelled and the single
    // outstanding timer is the resume, due at 600
    c.activity(100, &mut q);
    assert_eq!(c.state, BlinkState::Paused);
    assert!(c.caret_visible());
    let live = q.live();
    assert_eq!(live.len(), 1);
    assert_eq!(live[0].due_ms, 600);
    // so nothing can fire before 600; the resume itself keeps the caret
    // visible and schedules the next tick for 1100
    let id = live[0].id;
    c.on_timer(id, 600, &mut q);
    assert!(c.caret_visible());
    assert_eq!(c.state, BlinkState::Active { visible: true });
    let live = q.live();
    assert_eq!(live.len(), 1);
    assert_eq!(live[0].due_ms, 1100);
    // the first toggle to invisible happens only at 1100
    let id = live[0].id;
    c.on_timer(id, 1100, &mut q);
    assert!(!c.caret_visible());
}

#[test]
fn ticks_alternate_visibility() {
    let mut q = TimerQueue::new();
    let mut c = CaretBlinkController::new();
    c.configure(true, 500, 0, &mut q);
    let mut expected = true;
    let mut now = 0;
    for _ in 0..6 {
        let live = q.live();
        assert_eq!(live.len(), 1);
        now = live[0].due_ms;
        c.on_timer(live[0].id, now, &mut q);
        expected = !expected;
        assert_eq!(c.caret_visible(), expected);
    }
    assert_eq!(now, 3000);
}

#[test]
fn foreign_handle_is_ignored() {
    let mut q = TimerQueue::new();
    let mut c = CaretBlinkController::new();
    c.configure(true, 500, 0, &mut q);
    let before_state = c.state;
    c.on_timer(977, 200, &mut q);
    assert_eq!(c.state, before_state);
    assert_eq!(q.live().len(), 1);
}

#[test]
fn activity_while_disabled_changes_nothing() {
    let mut q = TimerQueue::new();
    let mut c = CaretBlinkController::new();
    c.configure(false, 500, 0, &mut q);
    c.activity(100, &mut q);
    assert_eq!(q.live().len(), 0);
    assert!(c.caret_visible());
}

#[test]
fn reconfigure_replaces_the_timer() {
    let mut q = TimerQueue::new();
    let mut c = CaretBlinkController::new();
    c.configure(true, 500, 0, &mut q);
    let first = q.live()[0].id;
    c.configure(true, 200, 50, &mut q);
    let live = q.live();
    assert_eq!(live.len(), 1);
    assert_ne!(live[0].id, first);
    assert_eq!(live[0].due_ms, 250);
}
