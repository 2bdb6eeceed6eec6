use libmks_rs::display::capture_state::{CaptureState, PointerState};
use libmks_rs::display::vm_display::PointerPolicy;

#[derive(Debug, Clone, Copy)]
enum PolicyEvent {
    Enter(PointerPolicy),
    Capture(PointerPolicy),
}

fn state_in(state: PointerState) -> CaptureState {
    let mut capture_state = CaptureState::new();
    match state {
        PointerState::Inactive => {}
        PointerState::Tracking => capture_state.enter(PointerPolicy::Auto),
        PointerState::Captured => capture_state.capture(PointerPolicy::Locked),
    }
    capture_state
}

fn assert_state(state: &CaptureState, expected: PointerState) {
    assert_eq!(state.current(), expected);
    assert_eq!(state.should_forward(), expected != PointerState::Inactive);
}

#[test]
fn starts_in_inactive() {
    let from_default = CaptureState::default();
    let from_new = CaptureState::new();
    assert_state(&from_default, PointerState::Inactive);
    assert_state(&from_new, PointerState::Inactive);
}

#[test]
fn mode_sensitive_events_follow_transition_matrix() {
    let cases = [
        (PointerState::Inactive, PolicyEvent::Enter(PointerPolicy::Auto), PointerState::Tracking),
        (PointerState::Inactive, PolicyEvent::Enter(PointerPolicy::Locked), PointerState::Inactive),
        (PointerState::Inactive, PolicyEvent::Capture(PointerPolicy::Auto), PointerState::Inactive),
        (PointerState::Inactive, PolicyEvent::Capture(PointerPolicy::Locked), PointerState::Captured),
        (PointerState::Tracking, PolicyEvent::Enter(PointerPolicy::Auto), PointerState::Tracking),
        (PointerState::Tracking, PolicyEvent::Enter(PointerPolicy::Locked), PointerState::Tracking),
        (PointerState::Tracking, PolicyEvent::Capture(PointerPolicy::Auto), PointerState::Tracking),
        (PointerState::Tracking, PolicyEvent::Capture(PointerPolicy::Locked), PointerState::Captured),
        (PointerState::Captured, PolicyEvent::Enter(PointerPolicy::Auto), PointerState::Tracking),
        (PointerState::Captured, PolicyEvent::Enter(PointerPolicy::Locked), PointerState::Captured),
        (PointerState::Captured, PolicyEvent::Capture(PointerPolicy::Auto), PointerState::Captured),
        (PointerState::Captured, PolicyEvent::Capture(PointerPolicy::Locked), PointerState::Captured),
    ];

    for (initial, event, expected) in cases {
        let mut state = state_in(initial);
        match event {
            PolicyEvent::Enter(policy) => state.enter(policy),
            PolicyEvent::Capture(policy) => state.capture(policy),
        }
        assert_state(&state, expected);
    }
}

#[test]
fn mouse_leave_resets_from_any_state() {
    for initial in [PointerState::Inactive, PointerState::Tracking, PointerState::Captured] {
        let mut state = state_in(initial);
        state.leave();
        assert_state(&state, PointerState::Inactive);
    }
}

#[test]
fn release_resets_from_any_state() {
    for initial in [PointerState::Inactive, PointerState::Tracking, PointerState::Captured] {
        let mut state = state_in(initial);
        state.release();
        assert_state(&state, PointerState::Inactive);
    }
}

#[test]
fn reset_is_idempotent() {
    let mut state = state_in(PointerState::Captured);
    state.reset();
    assert_state(&state, PointerState::Inactive);
    state.reset();
    assert_state(&state, PointerState::Inactive);
}

#[test]
fn typical_auto_flow() {
    let mut state = CaptureState::new();
    assert_state(&state, PointerState::Inactive);

    state.enter(PointerPolicy::Auto);
    assert_state(&state, PointerState::Tracking);

    state.enter(PointerPolicy::Auto);
    assert_state(&state, PointerState::Tracking);

    state.leave();
    assert_state(&state, PointerState::Inactive);
}

#[test]
fn typical_locked_flow() {
    let mut state = CaptureState::new();
    assert_state(&state, PointerState::Inactive);

    state.enter(PointerPolicy::Locked);
    assert_state(&state, PointerState::Inactive);

    state.capture(PointerPolicy::Locked);
    assert_state(&state, PointerState::Captured);

    state.release();
    assert_state(&state, PointerState::Inactive);
}
