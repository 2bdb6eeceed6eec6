use libmks_rs::display::capture_state::PointerState;
use libmks_rs::dbus::keyboard::PressAction;
use libmks_rs::dbus::mouse::Button;
use libmks_rs::display::input_daemon::InputCommand;
use libmks_rs::display::input_handler::{Capability, InputHandler, SendOutcome};
use libmks_rs::display::vm_display::{
    CaptureController, CaptureModeOutcome, ConfineRequest, GuestInput, MouseModeOutcome, MoveOutcome, PointerPolicy,
};
use libmks_rs::keymaps::Qnum;

#[test]
fn seamless_mode_tracks_the_viewport() {
    let mut c = CaptureController::new();
    assert_eq!(c.current_input_policy(), PointerPolicy::Auto);
    assert_eq!(c.mouse_move(true, true), MoveOutcome::EnterAndMove);
    assert_eq!(c.capture_state().current(), PointerState::Tracking);
    assert!(c.should_forward());
    assert_eq!(c.mouse_move(true, true), MoveOutcome::Move);
    assert_eq!(c.mouse_move(true, false), MoveOutcome::Left);
    assert!(!c.should_forward());
    assert_eq!(c.mouse_move(true, false), MoveOutcome::Ignore);
}

#[test]
fn seamless_mode_needs_an_absolute_mouse() {
    let mut c = CaptureController::new();
    c.mouse_move(true, true);
    assert_eq!(c.mouse_move(false, true), MoveOutcome::SeamlessUnavailable { had_capture: true });
    assert_eq!(c.capture_state().current(), PointerState::Inactive);
    assert_eq!(
        c.set_input_capture_mode(PointerPolicy::Auto, false, true, true),
        CaptureModeOutcome::RelativeSeamlessRejected
    );
    assert_eq!(c.requested_input_mode(), PointerPolicy::Auto);
}

#[test]
fn locked_mode_flow() {
    let mut c = CaptureController::new();
    assert_eq!(c.set_input_capture_mode(PointerPolicy::Locked, true, false, true), CaptureModeOutcome::MouseUnavailable);
    assert_eq!(
        c.set_input_capture_mode(PointerPolicy::Locked, true, true, false),
        CaptureModeOutcome::InputChannelUnavailable
    );
    assert_eq!(c.set_input_capture_mode(PointerPolicy::Locked, true, true, true), CaptureModeOutcome::ConnectConfinement);
    assert!(!c.confined());
    c.confinement_connected();
    assert!(c.confined());
    assert_eq!(c.current_input_policy(), PointerPolicy::Locked);
    assert_eq!(c.set_input_capture_mode(PointerPolicy::Locked, true, true, true), CaptureModeOutcome::AlreadyActive);

    assert_eq!(c.confine_request(true, false), ConfineRequest::Confine { prefer_relative: true });
    c.confine_finished(true);
    assert_eq!(c.capture_state().current(), PointerState::Captured);
    assert_eq!(c.confine_request(true, false), ConfineRequest::AlreadyCaptured);
    assert_eq!(c.mouse_mode_changed(true), MouseModeOutcome::Reconfine { prefer_relative: false });
    c.reconfine_finished(false);
    assert_eq!(c.capture_state().current(), PointerState::Inactive);

    assert_eq!(c.confine_request(true, true), ConfineRequest::Confine { prefer_relative: false });
    c.confine_finished(true);
    assert_eq!(c.confine_request(false, true), ConfineRequest::Unconfine);
    assert_eq!(c.capture_state().current(), PointerState::Inactive);

    assert_eq!(c.set_input_capture_mode(PointerPolicy::Auto, true, true, true), CaptureModeOutcome::ConfinementDropped);
    assert!(!c.confined());
    assert_eq!(c.confine_request(true, true), ConfineRequest::NotLocked);
}

#[test]
fn relative_mouse_releases_seamless_capture() {
    let mut c = CaptureController::new();
    c.mouse_move(true, true);
    assert_eq!(c.mouse_mode_changed(false), MouseModeOutcome::SeamlessReleased { had_capture: true });
    assert!(!c.should_forward());
    assert_eq!(c.mouse_mode_changed(true), MouseModeOutcome::Unchanged);
    c.mouse_move(true, true);
    c.mouse_leave();
    assert_eq!(c.capture_state().current(), PointerState::Inactive);
}

#[test]
fn keys_are_released_when_forwarding_stops() {
    let mut c = CaptureController::new();
    assert!(!c.forwarding_ended(false));
    c.mouse_move(true, true);
    let was = c.should_forward();
    assert!(was);
    assert!(!c.forwarding_ended(was));
    c.mouse_move(true, false);
    assert!(c.forwarding_ended(was));
    assert!(!c.forwarding_ended(c.should_forward()));
}

#[test]
fn input_reaches_the_guest_only_while_forwarded() {
    let (tx, rx) = kanal::bounded::<InputCommand>(8);
    let mut input = InputHandler::new(Some(tx), None, Capability::default());
    let mut c = CaptureController::new();
    let key = GuestInput::Key { keycode: 38, transition: PressAction::Press };
    assert!(c.forward_input(&mut input, key).is_empty());
    assert!(c.forward_input(&mut input, GuestInput::Scroll { steps: 2 }).is_empty());
    assert!(input.held_keys.is_empty());
    assert_eq!(rx.try_recv().unwrap(), None);

    c.mouse_move(true, true);
    assert_eq!(c.forward_input(&mut input, key), vec![(InputCommand::KbdPress(Qnum(30)), SendOutcome::Sent)]);
    assert!(input.held_keys.contains(&30));
    let click = GuestInput::MouseButton { button: 1, transition: PressAction::Release };
    assert_eq!(
        c.forward_input(&mut input, click),
        vec![(InputCommand::MouseRelease(Button::Left), SendOutcome::Sent)]
    );
    assert_eq!(c.forward_input(&mut input, GuestInput::Scroll { steps: 1 }).len(), 2);
    assert_eq!(rx.try_recv().unwrap(), Some(InputCommand::KbdPress(Qnum(30))));
    assert_eq!(rx.try_recv().unwrap(), Some(InputCommand::MouseRelease(Button::Left)));
    assert_eq!(rx.try_recv().unwrap(), Some(InputCommand::MousePress(Button::WheelDown)));
    assert_eq!(rx.try_recv().unwrap(), Some(InputCommand::MouseRelease(Button::WheelDown)));
}
