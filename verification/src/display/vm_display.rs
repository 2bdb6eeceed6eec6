use crate::dbus::keyboard::PressAction;
use crate::dbus::mouse::spec_from_xorg;
use crate::display::capture_state::{CaptureState, PointerState};
use crate::display::input_daemon::InputCommand;
use crate::display::input_handler::{
    spec_button_command, spec_commands, spec_key_command, spec_scroll_commands, spec_track_key, InputHandler,
    SendOutcome,
};
use crate::keymaps::{spec_qnum_of_xorg, Qnum};
use vstd::prelude::*;

verus! {

/// Pointer capture policy for VM input forwarding.
#[derive(Debug, Clone, Copy, PartialEq, Eq, Structural)]
pub enum PointerPolicy {
    /// Locked mode: pointer cannot leave the VM view while captured.
    /// Requires explicit click to activate capture.
    Locked,
    /// Auto mode: automatically follows viewport enter/leave state.
    Auto,
}

/// How the guest resolution follows the host window.
#[derive(Debug, Clone, Copy, PartialEq, Eq, Structural)]
pub enum ScalingMode {
    /// Resize guest resolution to follow host window size.
    ResizeGuest,
    /// Keep guest resolution fixed; scale presentation only.
    FixedGuest,
}

/// A user input event that goes to the guest only while input is forwarded.
#[derive(Debug, Clone, Copy, PartialEq, Eq, Structural)]
pub enum GuestInput {
    /// A press or release of the X11 mouse button `button`.
    MouseButton { button: u32, transition: PressAction },
    /// Whole wheel notches: positive scrolls down, negative up.
    Scroll { steps: i64 },
    /// A press or release of the key with X11 keycode `keycode`.
    Key { keycode: u32, transition: PressAction },
}

/// The commands that handler `h` sends for `event`, as its sending methods state them:
/// nothing when the device is not offered, the channel is missing, or the button or key
/// has no wire code.
pub open spec fn spec_event_commands(h: InputHandler, event: GuestInput) -> Seq<InputCommand> {
    match event {
        GuestInput::MouseButton { button, transition } => if h.can_send(h.capability.mouse) && spec_from_xorg(
            button,
        ).is_some() {
            seq![spec_button_command(spec_from_xorg(button)->0, transition)]
        } else {
            Seq::empty()
        },
        GuestInput::Scroll { steps } => if h.can_send(h.capability.mouse) {
            spec_scroll_commands(steps)
        } else {
            Seq::empty()
        },
        GuestInput::Key { keycode, transition } => if h.can_send(h.capability.keyboard) && spec_qnum_of_xorg(keycode)
            != 0 {
            seq![spec_key_command(Qnum(spec_qnum_of_xorg(keycode)), transition)]
        } else {
            Seq::empty()
        },
    }
}

/// The input policy in force: locked while a pointer confinement exists, auto otherwise.
pub open spec fn spec_policy(confined: bool) -> PointerPolicy {
    if confined {
        PointerPolicy::Locked
    } else {
        PointerPolicy::Auto
    }
}

/// What the display must do after a request to switch the input capture mode.
#[derive(Debug, Clone, Copy, PartialEq, Eq, Structural)]
pub enum CaptureModeOutcome {
    /// Seamless capture needs an absolute guest mouse: capture and confinement were
    /// dropped; tell the user and refresh the capture view.
    RelativeSeamlessRejected,
    /// The requested mode is already in force.
    AlreadyActive,
    /// The pointer confinement was dropped (back to seamless); refresh the capture view.
    ConfinementDropped,
    /// No guest mouse: confined mode cannot be entered.
    MouseUnavailable,
    /// No input command channel: confined mode cannot be entered.
    InputChannelUnavailable,
    /// Connect the pointer confinement, then report the result with
    /// [`CaptureController::confinement_connected`].
    ConnectConfinement,
}

/// What the display must do with a pointer motion inside the widget.
#[derive(Debug, Clone, Copy, PartialEq, Eq, Structural)]
pub enum MoveOutcome {
    /// Nothing to forward.
    Ignore,
    /// Seamless mode without an absolute guest mouse: capture was released; refresh the
    /// capture view when it had been active.
    SeamlessUnavailable { had_capture: bool },
    /// The pointer entered the viewport in seamless mode: move the guest pointer there
    /// first, then refresh the capture view.
    EnterAndMove,
    /// The pointer left the viewport in seamless mode: refresh the capture view.
    Left,
    /// Forward the motion to the guest.
    Move,
}

/// What the display must do with a capture or release request in confined mode.
#[derive(Debug, Clone, Copy, PartialEq, Eq, Structural)]
pub enum ConfineRequest {
    /// Not in locked mode: the request is ignored.
    NotLocked,
    /// Capture was released: drop the pointer confinement and refresh the capture view.
    Unconfine,
    /// Already captured: the duplicate request is ignored.
    AlreadyCaptured,
    /// Confine the pointer, preferring relative motion when the guest mouse is relative,
    /// then report the result with [`CaptureController::confine_finished`].
    Confine { prefer_relative: bool },
}

/// What the display must do after the guest switched its mouse mode.
#[derive(Debug, Clone, Copy, PartialEq, Eq, Structural)]
pub enum MouseModeOutcome {
    /// Nothing to change.
    Unchanged,
    /// Confined capture is active: re-establish the confinement for the new mode, then
    /// report the result with [`CaptureController::reconfine_finished`].
    Reconfine { prefer_relative: bool },
    /// A relative guest mouse cannot be captured seamlessly: capture was released; tell
    /// the user, and refresh the capture view when it had been active.
    SeamlessReleased { had_capture: bool },
}

/// Pointer-capture decisions of the VM display: the capture state machine, the mode the
/// user asked for, and whether a pointer confinement is in force.
#[derive(Debug, Clone, Copy, PartialEq, Eq, Structural)]
pub struct CaptureController {
    capture_state: CaptureState,
    requested_input_mode: PointerPolicy,
    confined: bool,
}

impl CaptureController {
    /// The current pointer state.
    pub closed spec fn capture(self) -> PointerState {
        self.capture_state@
    }

    /// The input mode last requested.
    pub closed spec fn requested(self) -> PointerPolicy {
        self.requested_input_mode
    }

    /// Whether a pointer confinement is in force.
    pub closed spec fn is_confined(self) -> bool {
        self.confined
    }

    /// The controller's invariant: the pointer is never captured outside confined mode.
    pub open spec fn wf(self) -> bool {
        !self.is_confined() ==> self.capture() != PointerState::Captured
    }

    /// The invariant every controller keeps; see [`CaptureController::wf`].
    #[verifier::type_invariant]
    spec fn captured_only_when_confined(self) -> bool {
        !self.confined ==> self.capture_state@ != PointerState::Captured
    }

    /// A controller in seamless mode with nothing captured.
    pub fn new() -> (r: Self)
        ensures
            r.wf(),
            r.capture() == PointerState::Inactive,
            r.requested() == PointerPolicy::Auto,
            !r.is_confined(),
    {
        CaptureController {
            capture_state: CaptureState::new(),
            requested_input_mode: PointerPolicy::Auto,
            confined: false,
        }
    }

    /// The capture state machine.
    pub fn capture_state(&self) -> (r: CaptureState)
        ensures
            r@ == self.capture(),
    {
        self.capture_state
    }

    /// The input mode last requested.
    pub fn requested_input_mode(&self) -> (r: PointerPolicy)
        ensures
            r == self.requested(),
    {
        self.requested_input_mode
    }

    /// Whether a pointer confinement is in force.
    pub fn confined(&self) -> (r: bool)
        ensures
            r == self.is_confined(),
    {
        self.confined
    }

    /// The input policy in force: locked while confined, auto otherwise.
    pub fn current_input_policy(&self) -> (r: PointerPolicy)
        ensures
            r == spec_policy(self.is_confined()),
    {
        if self.confined {
            PointerPolicy::Locked
        } else {
            PointerPolicy::Auto
        }
    }

    /// Whether input events are forwarded to the guest.
    pub fn should_forward(&self) -> (r: bool)
        ensures
            r == (self.capture() != PointerState::Inactive),
    {
        self.capture_state.should_forward()
    }

    /// Whether held keys must be released after a message: input was forwarded before it
    /// (`was_forwarding`) and is not any more, so the guest would otherwise keep the keys
    /// down.
    pub fn forwarding_ended(&self, was_forwarding: bool) -> (r: bool)
        ensures
            r == (was_forwarding && self.capture() == PointerState::Inactive),
    {
        was_forwarding && !self.should_forward()
    }

    /// Forwards `event` to the guest through `input` when input is forwarded, and does
    /// nothing otherwise: no input reaches the guest unless the pointer is captured or
    /// tracked. Returns the commands sent, each with what became of it. A forwarded key
    /// event updates the held keys as [`InputHandler::press_keyboard`] does.
    pub fn forward_input(&self, input: &mut InputHandler, event: GuestInput) -> (sent: Vec<(InputCommand, SendOutcome)>)
        requires
            event matches GuestInput::Scroll { steps } ==> steps != i64::MIN,
        ensures
            self.capture() == PointerState::Inactive ==> sent@.len() == 0 && *final(input) == *old(input),
            self.capture() != PointerState::Inactive ==> spec_commands(sent@) == spec_event_commands(
                *old(input),
                event,
            ),
            final(input).input_sent() == old(input).input_sent() + spec_commands(sent@),
            final(input).same_setup(old(input)),
            final(input).watch_sent() == old(input).watch_sent(),
            final(input).held() == (match event {
                GuestInput::Key { keycode, transition } => if sent@.len() == 1 && sent@[0].1 == SendOutcome::Sent {
                    spec_track_key(old(input).held(), spec_qnum_of_xorg(keycode), transition)
                } else {
                    old(input).held()
                },
                _ => old(input).held(),
            }),
    {
        let mut sent: Vec<(InputCommand, SendOutcome)> = Vec::new();
        proof {
            assert(old(input).input_sent() + spec_commands(sent@) =~= old(input).input_sent());
        }
        if !self.should_forward() {
            return sent;
        }
        match event {
            GuestInput::MouseButton { button, transition } => {
                if let Some(s) = input.press_mouse_button(button, transition) {
                    sent.push(s);
                }
            },
            GuestInput::Scroll { steps } => {
                sent = input.scroll_mouse(steps);
            },
            GuestInput::Key { keycode, transition } => {
                if let Some(s) = input.press_keyboard(keycode, transition) {
                    sent.push(s);
                }
            },
        }
        sent
    }

    /// Handles a request to switch the input capture mode.
    ///
    /// Seamless (auto) mode needs an absolute guest mouse; otherwise the request is
    /// refused and capture and confinement are dropped. Switching away from the mode in
    /// force releases capture; leaving locked mode drops the confinement, and entering
    /// it needs a guest mouse and an input channel before the confinement is connected.
    pub fn set_input_capture_mode(
        &mut self,
        mode: PointerPolicy,
        is_absolute: bool,
        mouse_available: bool,
        has_input_channel: bool,
    ) -> (r: CaptureModeOutcome)
        ensures
            final(self).wf(),
            final(self).requested() == mode,
            mode == PointerPolicy::Auto && !is_absolute ==> {
                &&& r == CaptureModeOutcome::RelativeSeamlessRejected
                &&& final(self).capture() == PointerState::Inactive
                &&& !final(self).is_confined()
            },
            !(mode == PointerPolicy::Auto && !is_absolute) && spec_policy(old(self).is_confined()) == mode ==> {
                &&& r == CaptureModeOutcome::AlreadyActive
                &&& final(self).capture() == old(self).capture()
                &&& final(self).is_confined() == old(self).is_confined()
            },
            !(mode == PointerPolicy::Auto && !is_absolute) && spec_policy(old(self).is_confined()) != mode ==> {
                &&& final(self).capture() == PointerState::Inactive
                &&& !final(self).is_confined()
                &&& r == (if old(self).is_confined() {
                    CaptureModeOutcome::ConfinementDropped
                } else if !mouse_available {
                    CaptureModeOutcome::MouseUnavailable
                } else if !has_input_channel {
                    CaptureModeOutcome::InputChannelUnavailable
                } else {
                    CaptureModeOutcome::ConnectConfinement
                })
            },
    {
        proof {
            use_type_invariant(&*self);
        }
        self.requested_input_mode = mode;
        if mode == PointerPolicy::Auto && !is_absolute {
            self.capture_state.release();
            self.confined = false;
            return CaptureModeOutcome::RelativeSeamlessRejected;
        }
        if self.current_input_policy() == mode {
            return CaptureModeOutcome::AlreadyActive;
        }
        self.capture_state.release();
        if self.confined {
            self.confined = false;
            return CaptureModeOutcome::ConfinementDropped;
        }
        if !mouse_available {
            return CaptureModeOutcome::MouseUnavailable;
        }
        if !has_input_channel {
            return CaptureModeOutcome::InputChannelUnavailable;
        }
        CaptureModeOutcome::ConnectConfinement
    }

    /// Records that the pointer confinement was connected: locked mode is now in force.
    pub fn confinement_connected(&mut self)
        ensures
            final(self).wf(),
            final(self).is_confined(),
            final(self).capture() == old(self).capture(),
            final(self).requested() == old(self).requested(),
    {
        proof {
            use_type_invariant(&*self);
        }
        self.confined = true;
    }

    /// Handles the pointer leaving the widget: capture ends.
    pub fn mouse_leave(&mut self)
        ensures
            final(self).wf(),
            final(self).capture() == PointerState::Inactive,
            final(self).is_confined() == old(self).is_confined(),
            final(self).requested() == old(self).requested(),
    {
        proof {
            use_type_invariant(&*self);
        }
        self.capture_state.leave();
    }

    /// Handles a pointer motion; `in_viewport` tells whether it lies on the guest picture.
    ///
    /// In seamless mode the pointer is captured while it is over the picture and released
    /// when it leaves; without an absolute guest mouse seamless capture is dropped. In any
    /// mode a motion over the picture is forwarded while capture is active.
    pub fn mouse_move(&mut self, is_absolute: bool, in_viewport: bool) -> (r: MoveOutcome)
        ensures
            final(self).wf(),
            final(self).is_confined() == old(self).is_confined(),
            final(self).requested() == old(self).requested(),
            !old(self).is_confined() && !is_absolute ==> {
                &&& r == (MoveOutcome::SeamlessUnavailable { had_capture: old(self).capture() != PointerState::Inactive })
                &&& final(self).capture() == PointerState::Inactive
            },
            !(!old(self).is_confined() && !is_absolute) ==> {
                &&& !old(self).is_confined() && old(self).capture() == PointerState::Inactive && in_viewport ==> {
                    &&& r == MoveOutcome::EnterAndMove
                    &&& final(self).capture() == PointerState::Tracking
                }
                &&& !old(self).is_confined() && old(self).capture() == PointerState::Tracking && !in_viewport ==> {
                    &&& r == MoveOutcome::Left
                    &&& final(self).capture() == PointerState::Inactive
                }
                &&& !(!old(self).is_confined() && old(self).capture() == PointerState::Inactive && in_viewport)
                    && !(!old(self).is_confined() && old(self).capture() == PointerState::Tracking && !in_viewport) ==> {
                    &&& final(self).capture() == old(self).capture()
                    &&& r == (if in_viewport && old(self).capture() != PointerState::Inactive {
                        MoveOutcome::Move
                    } else {
                        MoveOutcome::Ignore
                    })
                }
            },
    {
        proof {
            use_type_invariant(&*self);
        }
        let policy = self.current_input_policy();
        if policy == PointerPolicy::Auto && !is_absolute {
            let had_capture = self.capture_state.should_forward();
            self.capture_state.release();
            return MoveOutcome::SeamlessUnavailable { had_capture };
        }
        let current = self.capture_state.current();
        match (policy, current, in_viewport) {
            (PointerPolicy::Auto, PointerState::Inactive, true) => {
                self.capture_state.enter(policy);
                MoveOutcome::EnterAndMove
            },
            (PointerPolicy::Auto, PointerState::Tracking, false) => {
                self.capture_state.leave();
                MoveOutcome::Left
            },
            (_, _, true) => {
                if !self.capture_state.should_forward() {
                    MoveOutcome::Ignore
                } else {
                    MoveOutcome::Move
                }
            },
            _ => MoveOutcome::Ignore,
        }
    }

    /// Handles a capture (`should_capture`) or release request, which only means
    /// something in locked mode. A release ends capture; a capture request while not yet
    /// captured asks for the confinement, preferring relative motion for a relative
    /// guest mouse.
    pub fn confine_request(&mut self, should_capture: bool, is_absolute: bool) -> (r: ConfineRequest)
        ensures
            final(self).wf(),
            final(self).is_confined() == old(self).is_confined(),
            final(self).requested() == old(self).requested(),
            !old(self).is_confined() ==> r == ConfineRequest::NotLocked && final(self).capture() == old(self).capture(),
            old(self).is_confined() && !should_capture ==> r == ConfineRequest::Unconfine && final(self).capture()
                == PointerState::Inactive,
            old(self).is_confined() && should_capture ==> final(self).capture() == old(self).capture() && r == (
            if old(self).capture() == PointerState::Captured {
                ConfineRequest::AlreadyCaptured
            } else {
                ConfineRequest::Confine { prefer_relative: !is_absolute }
            }),
    {
        proof {
            use_type_invariant(&*self);
        }
        if self.current_input_policy() != PointerPolicy::Locked {
            return ConfineRequest::NotLocked;
        }
        if !should_capture {
            self.capture_state.release();
            return ConfineRequest::Unconfine;
        }
        if self.capture_state.current() == PointerState::Captured {
            return ConfineRequest::AlreadyCaptured;
        }
        ConfineRequest::Confine { prefer_relative: !is_absolute }
    }

    /// Records the result of confining the pointer: on success input is captured.
    pub fn confine_finished(&mut self, ok: bool)
        requires
            old(self).is_confined(),
        ensures
            final(self).wf(),
            final(self).is_confined(),
            final(self).requested() == old(self).requested(),
            final(self).capture() == (if ok { PointerState::Captured } else { old(self).capture() }),
    {
        proof {
            use_type_invariant(&*self);
        }
        if ok {
            let policy = self.current_input_policy();
            self.capture_state.capture(policy);
        }
    }

    /// Handles a switch of the guest mouse between absolute and relative mode.
    ///
    /// An active confined capture must be re-established for the new mode. A relative
    /// guest mouse cannot be captured seamlessly, so seamless capture is released when
    /// seamless mode was both requested and in force.
    pub fn mouse_mode_changed(&mut self, is_absolute: bool) -> (r: MouseModeOutcome)
        ensures
            final(self).wf(),
            final(self).is_confined() == old(self).is_confined(),
            final(self).requested() == old(self).requested(),
            old(self).is_confined() && old(self).capture() != PointerState::Inactive ==> r
                == (MouseModeOutcome::Reconfine { prefer_relative: !is_absolute }) && final(self).capture() == old(
                self,
            ).capture(),
            !old(self).is_confined() && !is_absolute && old(self).requested() == PointerPolicy::Auto ==> r == (
            MouseModeOutcome::SeamlessReleased { had_capture: old(self).capture() != PointerState::Inactive })
                && final(self).capture() == PointerState::Inactive,
            !(old(self).is_confined() && old(self).capture() != PointerState::Inactive) && !(!old(self).is_confined()
                && !is_absolute && old(self).requested() == PointerPolicy::Auto) ==> r == MouseModeOutcome::Unchanged
                && final(self).capture() == old(self).capture(),
    {
        proof {
            use_type_invariant(&*self);
        }
        let policy = self.current_input_policy();
        if policy == PointerPolicy::Locked && self.capture_state.should_forward() {
            return MouseModeOutcome::Reconfine { prefer_relative: !is_absolute };
        }
        if !is_absolute && self.requested_input_mode == PointerPolicy::Auto && policy == PointerPolicy::Auto {
            let had_capture = self.capture_state.should_forward();
            self.capture_state.release();
            return MouseModeOutcome::SeamlessReleased { had_capture };
        }
        MouseModeOutcome::Unchanged
    }

    /// Records the result of re-establishing the confinement: on failure capture ends.
    pub fn reconfine_finished(&mut self, ok: bool)
        ensures
            final(self).wf(),
            final(self).is_confined() == old(self).is_confined(),
            final(self).requested() == old(self).requested(),
            final(self).capture() == (if ok { old(self).capture() } else { PointerState::Inactive }),
    {
        proof {
            use_type_invariant(&*self);
        }
        if !ok {
            self.capture_state.release();
        }
    }
}

} // verus!
