use crate::dbus::keyboard::PressAction;
use crate::dbus::mouse::Button;
use crate::dbus::multitouch::Kind as TouchKind;
use crate::display::input_daemon::{InputCommand, WatchCommand};
use crate::keymaps::{spec_qnum_of_xorg, Qnum};
use std::collections::HashSet;
use vstd::prelude::*;
use vstd::std_specs::hash::spec_hash_keys_iter;
use vstd::std_specs::iter::IteratorSpec;
use crate::display::send_log::{try_send_async, try_send_blocking, SendLog};

verus! {

broadcast use vstd::std_specs::hash::group_hash_axioms;

/// Which input devices the guest console offers.
#[derive(Debug, Clone, Copy, PartialEq, Eq, Structural)]
pub struct Capability {
    pub keyboard: bool,
    pub mouse: bool,
    pub multitouch: bool,
}

impl Default for Capability {
    fn default() -> (r: Self)
        ensures
            r == (Capability { keyboard: true, mouse: true, multitouch: true }),
    {
        Capability { keyboard: true, mouse: true, multitouch: true }
    }
}

/// What became of one non-blocking send on a channel.
#[derive(Debug, Clone, Copy, PartialEq, Eq, Structural)]
pub enum SendOutcome {
    /// The value was handed over.
    Sent,
    /// The channel's buffer was full; the value was dropped.
    Full,
    /// The channel is closed; the value was dropped.
    Closed,
}

/// The outcome that a `try_send` result stands for.
pub open spec fn spec_outcome(r: Result<bool, kanal::SendError>) -> SendOutcome {
    match r {
        Ok(true) => SendOutcome::Sent,
        Ok(false) => SendOutcome::Full,
        Err(_) => SendOutcome::Closed,
    }
}

/// Classifies the result of a `try_send`: `Ok(true)` sent, `Ok(false)` full, `Err` closed.
pub fn outcome_of(r: Result<bool, kanal::SendError>) -> (o: SendOutcome)
    ensures
        o == spec_outcome(r),
{
    match r {
        Ok(true) => SendOutcome::Sent,
        Ok(false) => SendOutcome::Full,
        Err(_) => SendOutcome::Closed,
    }
}

/// The held-key set after a key event of `transition` for `key` was handed to the input
/// daemon: a press adds the key, a release removes it.
pub open spec fn spec_track_key(held: Set<u32>, key: u32, transition: PressAction) -> Set<u32> {
    match transition {
        PressAction::Press => held.insert(key),
        PressAction::Release => held.remove(key),
    }
}

/// A press followed by a release of the same key leaves the held set as it was, less
/// that key.
pub proof fn law_press_then_release_forgets_key(held: Set<u32>, key: u32)
    ensures
        spec_track_key(spec_track_key(held, key, PressAction::Press), key, PressAction::Release) == held.remove(key),
{
    assert(held.insert(key).remove(key) =~= held.remove(key));
}

/// The wheel button and the number of press/release pairs that a scroll of `steps`
/// notches sends: down for positive steps, up otherwise.
pub open spec fn spec_scroll_plan(steps: i64) -> (Button, nat) {
    if steps > 0 {
        (Button::WheelDown, steps as nat)
    } else {
        (Button::WheelUp, (-steps) as nat)
    }
}

/// Computes the scroll plan: which wheel button, and how many clicks of it. The count
/// is the magnitude of `steps`, so `i64::MIN`, whose magnitude has no `i64`, is left out.
pub fn scroll_plan(steps: i64) -> (r: (Button, u64))
    requires
        steps != i64::MIN,
    ensures
        r.0 == spec_scroll_plan(steps).0,
        r.1 as nat == spec_scroll_plan(steps).1,
{
    if steps > 0 {
        (Button::WheelDown, steps as u64)
    } else {
        (Button::WheelUp, (-steps) as u64)
    }
}

/// The commands of a list of sends, in order.
pub open spec fn spec_commands(sent: Seq<(InputCommand, SendOutcome)>) -> Seq<InputCommand> {
    sent.map_values(|s: (InputCommand, SendOutcome)| s.0)
}

/// The commands a scroll of `steps` notches sends: for each notch a press, then a release,
/// of the wheel button of [`spec_scroll_plan`].
pub open spec fn spec_scroll_commands(steps: i64) -> Seq<InputCommand> {
    let (button, n) = spec_scroll_plan(steps);
    Seq::new(
        2 * n,
        |k: int|
            if k % 2 == 0 {
                InputCommand::MousePress(button)
            } else {
                InputCommand::MouseRelease(button)
            },
    )
}

/// The command for a key event: a press or a release of `qnum`.
pub open spec fn spec_key_command(qnum: Qnum, transition: PressAction) -> InputCommand {
    match transition {
        PressAction::Press => InputCommand::KbdPress(qnum),
        PressAction::Release => InputCommand::KbdRelease(qnum),
    }
}

/// The command for a mouse button event: a press or a release of `button`.
pub open spec fn spec_button_command(button: Button, transition: PressAction) -> InputCommand {
    match transition {
        PressAction::Press => InputCommand::MousePress(button),
        PressAction::Release => InputCommand::MouseRelease(button),
    }
}

/// Builds the command for a key event; see [`spec_key_command`].
pub fn key_command(qnum: Qnum, transition: PressAction) -> (c: InputCommand)
    ensures
        c == spec_key_command(qnum, transition),
{
    match transition {
        PressAction::Press => InputCommand::KbdPress(qnum),
        PressAction::Release => InputCommand::KbdRelease(qnum),
    }
}

/// Builds the command for a mouse button event; see [`spec_button_command`].
pub fn button_command(button: Button, transition: PressAction) -> (c: InputCommand)
    ensures
        c == spec_button_command(button, transition),
{
    match transition {
        PressAction::Press => InputCommand::MousePress(button),
        PressAction::Release => InputCommand::MouseRelease(button),
    }
}

/// Whether `cmds` releases every key of `held` exactly once and does nothing else: it
/// is made of `KbdRelease` commands only, none twice, one for each held key and for no
/// other key.
pub open spec fn spec_releases_each_once(held: Set<u32>, cmds: Seq<InputCommand>) -> bool {
    &&& cmds.len() == held.len()
    &&& cmds.no_duplicates()
    &&& forall|k: int| 0 <= k < cmds.len() ==> #[trigger] cmds[k] is KbdRelease
    &&& forall|q: u32| #[trigger] held.contains(q) <==> cmds.contains(InputCommand::KbdRelease(Qnum(q)))
}

/// Releases built one for one from a duplicate-free listing of a key set release every
/// key of the set exactly once.
proof fn lemma_releases_each_once(keys: Seq<u32>, cmds: Seq<InputCommand>)
    requires
        keys.no_duplicates(),
        cmds.len() == keys.len(),
        forall|k: int| 0 <= k < cmds.len() ==> #[trigger] cmds[k] == InputCommand::KbdRelease(Qnum(keys[k])),
    ensures
        spec_releases_each_once(keys.to_set(), cmds),
{
    keys.unique_seq_to_set();
    assert forall|i: int, j: int| 0 <= i < cmds.len() && 0 <= j < cmds.len() && i != j implies cmds[i]
        != cmds[j] by {
        assert(keys[i] != keys[j]);
    }
    assert forall|q: u32| #[trigger] keys.to_set().contains(q) <==> cmds.contains(
        InputCommand::KbdRelease(Qnum(q)),
    ) by {
        if keys.to_set().contains(q) {
            let i = choose|i: int| 0 <= i < keys.len() && keys[i] == q;
            assert(cmds[i] == InputCommand::KbdRelease(Qnum(q)));
        }
        if cmds.contains(InputCommand::KbdRelease(Qnum(q))) {
            let i = choose|i: int| 0 <= i < cmds.len() && cmds[i] == InputCommand::KbdRelease(Qnum(q));
            assert(keys[i] == q);
            assert(keys.contains(q));
        }
    }
}

/// Hands `cmd` to the input channel `tx`, recording it in `log`, and returns it with what
/// became of the send.
fn send_input(tx: &kanal::Sender<InputCommand>, log: &mut SendLog<InputCommand>, cmd: InputCommand) -> (o: (
    InputCommand,
    SendOutcome,
))
    ensures
        o.0 == cmd,
        final(log)@ == old(log)@.push(cmd),
{
    let r = try_send_blocking(tx, log, cmd);
    (cmd, outcome_of(r))
}

/// Front end of the input pipeline: turns UI input events into commands for the input
/// daemon, and remembers which keys are held so that they can be released when the
/// pointer capture is dropped.
pub struct InputHandler {
    pub input_cmd_tx: Option<kanal::Sender<InputCommand>>,
    pub watch_cmd_tx: Option<kanal::AsyncSender<WatchCommand>>,
    pub capability: Capability,
    pub is_absolute: bool,
    pub held_keys: HashSet<u32>,
    /// Every command handed to the input channel.
    pub input_log: SendLog<InputCommand>,
    /// Every command handed to the watch channel.
    pub watch_log: SendLog<WatchCommand>,
}

impl InputHandler {
    /// The QEMU key numbers of the keys whose press was handed to the input daemon and
    /// whose release was not.
    pub open spec fn held(&self) -> Set<u32> {
        self.held_keys@
    }

    /// The commands handed to the input channel so far, oldest first.
    pub open spec fn input_sent(&self) -> Seq<InputCommand> {
        self.input_log@
    }

    /// The commands handed to the watch channel so far, oldest first.
    pub open spec fn watch_sent(&self) -> Seq<WatchCommand> {
        self.watch_log@
    }

    /// Whether `self` has the channels, capabilities and mouse mode of `other`.
    pub open spec fn same_setup(&self, other: &Self) -> bool {
        &&& self.input_cmd_tx == other.input_cmd_tx
        &&& self.watch_cmd_tx == other.watch_cmd_tx
        &&& self.capability == other.capability
        &&& self.is_absolute == other.is_absolute
    }

    /// A handler with the given channels and capabilities, in relative mouse mode, with
    /// no key held and nothing sent.
    pub fn new(
        input_cmd_tx: Option<kanal::Sender<InputCommand>>,
        watch_cmd_tx: Option<kanal::AsyncSender<WatchCommand>>,
        capability: Capability,
    ) -> (r: InputHandler)
        ensures
            r.input_cmd_tx == input_cmd_tx,
            r.watch_cmd_tx == watch_cmd_tx,
            r.capability == capability,
            !r.is_absolute,
            r.held() == Set::<u32>::empty(),
            r.input_sent() == Seq::<InputCommand>::empty(),
            r.watch_sent() == Seq::<WatchCommand>::empty(),
    {
        InputHandler {
            input_cmd_tx,
            watch_cmd_tx,
            capability,
            is_absolute: false,
            held_keys: HashSet::with_capacity(8),
            input_log: SendLog::new(),
            watch_log: SendLog::new(),
        }
    }

    /// The input command channel, if there is one.
    pub fn input_cmd_tx(&self) -> (r: Option<&kanal::Sender<InputCommand>>)
        ensures
            r.is_some() == self.input_cmd_tx.is_some(),
            r.is_some() ==> *r.unwrap() == self.input_cmd_tx.unwrap(),
    {
        self.input_cmd_tx.as_ref()
    }

    /// Records whether the guest mouse takes absolute positions.
    pub fn set_mouse_mode(&mut self, is_absolute: bool)
        ensures
            final(self).is_absolute == is_absolute,
            final(self).capability == old(self).capability,
            final(self).input_cmd_tx == old(self).input_cmd_tx,
            final(self).watch_cmd_tx == old(self).watch_cmd_tx,
            final(self).held() == old(self).held(),
            final(self).input_sent() == old(self).input_sent(),
            final(self).watch_sent() == old(self).watch_sent(),
    {
        self.is_absolute = is_absolute;
    }

    /// Updates the device capabilities and, when the watch channel exists, hands
    /// `Update(cap)` to the property watcher manager without waiting. Returns the command
    /// handed over with what became of it, or `None`, sending nothing, when there is no
    /// watch channel.
    pub fn update_capabilities(&mut self, cap: Capability) -> (o: Option<(WatchCommand, SendOutcome)>)
        ensures
            final(self).capability == cap,
            final(self).is_absolute == old(self).is_absolute,
            final(self).input_cmd_tx == old(self).input_cmd_tx,
            final(self).watch_cmd_tx == old(self).watch_cmd_tx,
            final(self).held() == old(self).held(),
            final(self).input_sent() == old(self).input_sent(),
            o.is_none() == old(self).watch_cmd_tx.is_none(),
            o matches Some(s) ==> s.0 == WatchCommand::Update(cap),
            final(self).watch_sent() == (if o is Some {
                old(self).watch_sent().push(WatchCommand::Update(cap))
            } else {
                old(self).watch_sent()
            }),
    {
        self.capability = cap;
        match &self.watch_cmd_tx {
            None => None,
            Some(tx) => {
                let command = WatchCommand::Update(cap);
                let r = try_send_async(tx, &mut self.watch_log, command);
                Some((command, outcome_of(r)))
            },
        }
    }

    /// Whether a command of this kind may be sent: the device is offered and the input
    /// channel exists.
    pub open spec fn can_send(&self, device: bool) -> bool {
        device && self.input_cmd_tx.is_some()
    }

    /// The input channel's log after a single send that returned `o`: `cmd` appended
    /// when something was sent, unchanged otherwise.
    pub open spec fn after_one_send(&self, o: Option<(InputCommand, SendOutcome)>, cmd: InputCommand) -> Seq<
        InputCommand,
    > {
        if o is Some {
            self.input_sent().push(cmd)
        } else {
            self.input_sent()
        }
    }

    /// Queues an absolute pointer move to guest position (`x`, `y`): sends
    /// `MouseSetAbs(x, y)` and returns it with what became of the send. Returns `None`,
    /// and sends nothing, when the mouse is not offered or the input channel is missing.
    pub fn set_abs_position(&mut self, x: u32, y: u32) -> (o: Option<(InputCommand, SendOutcome)>)
        ensures
            o.is_some() == old(self).can_send(old(self).capability.mouse),
            o matches Some(s) ==> s.0 == InputCommand::MouseSetAbs(x, y),
            final(self).input_sent() == old(self).after_one_send(o, InputCommand::MouseSetAbs(x, y)),
            final(self).same_setup(old(self)),
            final(self).held() == old(self).held(),
            final(self).watch_sent() == old(self).watch_sent(),
    {
        if !self.capability.mouse {
            return None;
        }
        match &self.input_cmd_tx {
            None => None,
            Some(tx) => Some(send_input(tx, &mut self.input_log, InputCommand::MouseSetAbs(x, y))),
        }
    }

    /// Queues a relative pointer move by (`dx`, `dy`): sends `MouseRel(dx, dy)` and returns
    /// it with what became of the send. Returns `None`, and sends nothing, when the mouse
    /// is not offered or the input channel is missing.
    pub fn rel_motion(&mut self, dx: i32, dy: i32) -> (o: Option<(InputCommand, SendOutcome)>)
        ensures
            o.is_some() == old(self).can_send(old(self).capability.mouse),
            o matches Some(s) ==> s.0 == InputCommand::MouseRel(dx, dy),
            final(self).input_sent() == old(self).after_one_send(o, InputCommand::MouseRel(dx, dy)),
            final(self).same_setup(old(self)),
            final(self).held() == old(self).held(),
            final(self).watch_sent() == old(self).watch_sent(),
    {
        if !self.capability.mouse {
            return None;
        }
        match &self.input_cmd_tx {
            None => None,
            Some(tx) => Some(send_input(tx, &mut self.input_log, InputCommand::MouseRel(dx, dy))),
        }
    }

    /// Sends `steps` wheel notches: for each, a press and then a release of the wheel
    /// button that `scroll_plan` picks. Returns the commands sent, in order, each with what
    /// became of it; none when the mouse is not offered or the input channel is missing.
    pub fn scroll_mouse(&mut self, steps: i64) -> (sent: Vec<(InputCommand, SendOutcome)>)
        requires
            steps != i64::MIN,
        ensures
            old(self).can_send(old(self).capability.mouse) ==> spec_commands(sent@) == spec_scroll_commands(steps),
            !old(self).can_send(old(self).capability.mouse) ==> sent@.len() == 0,
            final(self).input_sent() == old(self).input_sent() + spec_commands(sent@),
            final(self).same_setup(old(self)),
            final(self).held() == old(self).held(),
            final(self).watch_sent() == old(self).watch_sent(),
    {
        let mut sent: Vec<(InputCommand, SendOutcome)> = Vec::new();
        proof {
            assert(old(self).input_sent() + spec_commands(sent@) =~= old(self).input_sent());
        }
        if !self.capability.mouse {
            return sent;
        }
        let tx = match &self.input_cmd_tx {
            Some(tx) => tx,
            None => return sent,
        };
        let (btn, count) = scroll_plan(steps);
        let ghost want = spec_scroll_commands(steps);
        let ghost log0 = self.input_log@;
        let mut i: u64 = 0;
        while i < count
            invariant
                i <= count,
                count == spec_scroll_plan(steps).1,
                btn == spec_scroll_plan(steps).0,
                want == spec_scroll_commands(steps),
                sent@.len() == 2 * i,
                forall|k: int| 0 <= k < sent@.len() ==> #[trigger] sent@[k].0 == want[k],
                self.input_log@ == log0 + spec_commands(sent@),
                self.same_setup(old(self)),
                self.held_keys@ == old(self).held_keys@,
                self.watch_log@ == old(self).watch_log@,
            decreases count - i,
        {
            let press = send_input(tx, &mut self.input_log, InputCommand::MousePress(btn));
            sent.push(press);
            let release = send_input(tx, &mut self.input_log, InputCommand::MouseRelease(btn));
            sent.push(release);
            proof {
                assert((2 * i) % 2 == 0) by (nonlinear_arith);
                assert((2 * i + 1) % 2 == 1) by (nonlinear_arith);
                assert(self.input_log@ =~= log0 + spec_commands(sent@));
            }
            i = i + 1;
        }
        proof {
            assert(spec_commands(sent@) =~= want);
        }
        sent
    }

    /// Records in the held-key set a key event that was handed to the input daemon
    /// (`Sent`): a press adds the key, a release removes it. Any other outcome leaves the
    /// set as it was.
    pub fn track_key(&mut self, qnum: Qnum, transition: PressAction, outcome: SendOutcome)
        ensures
            outcome == SendOutcome::Sent ==> final(self).held() == spec_track_key(
                old(self).held(),
                qnum.0,
                transition,
            ),
            outcome != SendOutcome::Sent ==> final(self).held() == old(self).held(),
            final(self).same_setup(old(self)),
            final(self).input_sent() == old(self).input_sent(),
            final(self).watch_sent() == old(self).watch_sent(),
    {
        if outcome == SendOutcome::Sent {
            match transition {
                PressAction::Press => {
                    self.held_keys.insert(qnum.0);
                },
                PressAction::Release => {
                    self.held_keys.remove(&qnum.0);
                },
            }
        }
    }

    /// Translates the X11 `keycode` and forwards the key press or release: sends
    /// `KbdPress` or `KbdRelease` of the key's QEMU number, returns it with what became of
    /// the send, and keeps the held-key set in step with what the daemon was handed.
    /// Returns `None`, and changes nothing, when the keyboard is not offered, the keycode
    /// maps to no QEMU key, or the input channel is missing.
    pub fn press_keyboard(&mut self, keycode: u32, transition: PressAction) -> (o: Option<(InputCommand, SendOutcome)>)
        ensures
            o.is_some() == (old(self).can_send(old(self).capability.keyboard) && spec_qnum_of_xorg(keycode) != 0),
            o matches Some(s) ==> s.0 == spec_key_command(Qnum(spec_qnum_of_xorg(keycode)), transition),
            final(self).input_sent() == old(self).after_one_send(
                o,
                spec_key_command(Qnum(spec_qnum_of_xorg(keycode)), transition),
            ),
            o matches Some(s) && s.1 == SendOutcome::Sent ==> final(self).held() == spec_track_key(
                old(self).held(),
                spec_qnum_of_xorg(keycode),
                transition,
            ),
            !(o matches Some(s) && s.1 == SendOutcome::Sent) ==> final(self).held() == old(self).held(),
            final(self).same_setup(old(self)),
            final(self).watch_sent() == old(self).watch_sent(),
    {
        if !self.capability.keyboard {
            return None;
        }
        let qnum = Qnum::from_xorg_keycode(keycode);
        if qnum.is_unmapped() {
            return None;
        }
        let sent = match &self.input_cmd_tx {
            None => return None,
            Some(tx) => send_input(tx, &mut self.input_log, key_command(qnum, transition)),
        };
        self.track_key(qnum, transition, sent.1);
        Some(sent)
    }

    /// Sends a `KbdRelease` for every held key, each once, and forgets them all, so that
    /// no modifier stays stuck when the capture is dropped. Returns the releases sent,
    /// each with what became of it. With the keyboard not offered the keys are forgotten
    /// and nothing is sent; with no input channel nothing is sent and nothing changes.
    pub fn release_all_keys(&mut self) -> (sent: Vec<(InputCommand, SendOutcome)>)
        ensures
            old(self).can_send(old(self).capability.keyboard) ==> spec_releases_each_once(
                old(self).held(),
                spec_commands(sent@),
            ),
            !old(self).can_send(old(self).capability.keyboard) ==> sent@.len() == 0,
            final(self).input_sent() == old(self).input_sent() + spec_commands(sent@),
            (old(self).capability.keyboard && old(self).input_cmd_tx.is_none()) ==> final(self).held()
                == old(self).held(),
            !(old(self).capability.keyboard && old(self).input_cmd_tx.is_none()) ==> final(self).held()
                == Set::<u32>::empty(),
            final(self).same_setup(old(self)),
            final(self).watch_sent() == old(self).watch_sent(),
    {
        let mut sent: Vec<(InputCommand, SendOutcome)> = Vec::new();
        proof {
            assert(old(self).input_sent() + spec_commands(sent@) =~= old(self).input_sent());
        }
        if !self.capability.keyboard {
            self.held_keys.clear();
            return sent;
        }
        let tx = match &self.input_cmd_tx {
            Some(tx) => tx,
            None => return sent,
        };
        let ghost log0 = self.input_log@;
        let ghost keys: Seq<u32> = IteratorSpec::remaining(&spec_hash_keys_iter(&self.held_keys)).unref();
        for key in it: self.held_keys.iter()
            invariant
                keys == it.seq().unref(),
                keys.to_set() == self.held_keys@,
                keys.no_duplicates(),
                sent@.len() == it.index(),
                forall|k: int| 0 <= k < sent@.len() ==> #[trigger] sent@[k].0 == InputCommand::KbdRelease(
                    Qnum(keys[k]),
                ),
                self.input_log@ == log0 + spec_commands(sent@),
                self.same_setup(old(self)),
                self.held_keys@ == old(self).held_keys@,
                self.watch_log@ == old(self).watch_log@,
        {
            let release = send_input(tx, &mut self.input_log, InputCommand::KbdRelease(Qnum(*key)));
            sent.push(release);
            proof {
                assert(self.input_log@ =~= log0 + spec_commands(sent@));
            }
        }
        proof {
            let cmds = spec_commands(sent@);
            assert(cmds.len() == keys.len());
            assert forall|k: int| 0 <= k < cmds.len() implies #[trigger] cmds[k] == InputCommand::KbdRelease(
                Qnum(keys[k]),
            ) by {}
            lemma_releases_each_once(keys, cmds);
        }
        self.held_keys.clear();
        sent
    }

    /// Sends a press or release of the X11 mouse button `button`: `MousePress` or
    /// `MouseRelease` of its wire code, returned with what became of the send. Returns
    /// `None`, and sends nothing, when the mouse is not offered, the button has no wire
    /// code, or the input channel is missing.
    pub fn press_mouse_button(&mut self, button: u32, transition: PressAction) -> (o: Option<(InputCommand, SendOutcome)>)
        ensures
            o.is_some() == (old(self).can_send(old(self).capability.mouse)
                && crate::dbus::mouse::spec_from_xorg(button).is_some()),
            o matches Some(s) ==> s.0 == spec_button_command(
                crate::dbus::mouse::spec_from_xorg(button)->0,
                transition,
            ),
            final(self).input_sent() == old(self).after_one_send(
                o,
                spec_button_command(crate::dbus::mouse::spec_from_xorg(button)->0, transition),
            ),
            final(self).same_setup(old(self)),
            final(self).held() == old(self).held(),
            final(self).watch_sent() == old(self).watch_sent(),
    {
        if !self.capability.mouse {
            return None;
        }
        let btn = match Button::from_xorg(button) {
            Some(b) => b,
            None => return None,
        };
        match &self.input_cmd_tx {
            None => None,
            Some(tx) => Some(send_input(tx, &mut self.input_log, button_command(btn, transition))),
        }
    }

    /// Forwards a touch event, the position given as the bits of its two `f64`
    /// coordinates: sends `Touch` with these fields and returns it with what became of the
    /// send. Returns `None`, and sends nothing, when multitouch is not offered or the input
    /// channel is missing.
    pub fn touch(&mut self, kind: TouchKind, num_slot: u64, x_bits: u64, y_bits: u64) -> (o: Option<(InputCommand, SendOutcome)>)
        ensures
            o.is_some() == old(self).can_send(old(self).capability.multitouch),
            o matches Some(s) ==> s.0 == (InputCommand::Touch { kind, num_slot, x_bits, y_bits }),
            final(self).input_sent() == old(self).after_one_send(
                o,
                InputCommand::Touch { kind, num_slot, x_bits, y_bits },
            ),
            final(self).same_setup(old(self)),
            final(self).held() == old(self).held(),
            final(self).watch_sent() == old(self).watch_sent(),
    {
        if !self.capability.multitouch {
            return None;
        }
        match &self.input_cmd_tx {
            None => None,
            Some(tx) => Some(send_input(tx, &mut self.input_log, InputCommand::Touch { kind, num_slot, x_bits, y_bits })),
        }
    }
}

} // verus!
