use crate::dbus::mouse::Button;
use crate::dbus::multitouch::Kind as TouchKind;
use crate::display::input_handler::Capability;
use crate::keymaps::Qnum;
use vstd::prelude::*;

verus! {

/// Commands sent to the input daemon thread.
///
/// A touch position is carried as the raw bits of its two `f64` coordinates
/// (`f64::to_bits`); the daemon passes them through unchanged.
#[derive(Debug, Clone, Copy, PartialEq, Eq, Structural)]
pub enum InputCommand {
    KbdPress(Qnum),
    KbdRelease(Qnum),
    MousePress(Button),
    MouseRelease(Button),
    MouseSetAbs(u32, u32),
    MouseRel(i32, i32),
    Touch { kind: TouchKind, num_slot: u64, x_bits: u64, y_bits: u64 },
    Shutdown,
}

/// Commands for the property watcher manager.
#[derive(Debug, Clone, Copy, PartialEq, Eq, Structural)]
pub enum WatchCommand {
    Update(Capability),
    Shutdown,
}

/// State updates emitted by input property watchers.
#[derive(Debug, Clone, Copy, PartialEq, Eq, Structural)]
pub enum InputStateEvent {
    ModifiersChanged(u32),
    MouseIsAbsolute(bool),
    TouchMaxSlots(i32),
}

/// A mouse movement held back so that consecutive moves can be coalesced.
#[derive(Debug, Clone, Copy, PartialEq, Eq, Structural)]
pub enum PendingMove {
    Idle,
    Abs { x: u32, y: u32 },
    Rel { dx: i32, dy: i32 },
}

impl Default for PendingMove {
    fn default() -> (r: Self)
        ensures
            r == PendingMove::Idle,
    {
        PendingMove::Idle
    }
}

/// Which device proxies the input daemon could open.
#[derive(Debug, Clone, Copy, PartialEq, Eq, Structural)]
pub struct ProxySet {
    pub keyboard: bool,
    pub mouse: bool,
    pub touch: bool,
}

/// One D-Bus method call that the input daemon makes on a device proxy.
#[derive(Debug, Clone, Copy, PartialEq, Eq, Structural)]
pub enum ProxyCall {
    KbdPress(Qnum),
    KbdRelease(Qnum),
    MousePress(Button),
    MouseRelease(Button),
    SetAbsPosition(u32, u32),
    RelMotion(i32, i32),
    Touch { kind: TouchKind, num_slot: u64, x_bits: u64, y_bits: u64 },
}

/// `a + b` clamped to the range of `i32`.
pub open spec fn spec_saturating_add(a: i32, b: i32) -> i32 {
    if a + b > i32::MAX {
        i32::MAX
    } else if a + b < i32::MIN {
        i32::MIN
    } else {
        (a + b) as i32
    }
}

/// Adds two `i32`, clamping at the bounds of the type.
pub fn saturating_add_i32(a: i32, b: i32) -> (r: i32)
    ensures
        r == spec_saturating_add(a, b),
{
    let s: i64 = a as i64 + b as i64;
    if s > i32::MAX as i64 {
        i32::MAX
    } else if s < i32::MIN as i64 {
        i32::MIN
    } else {
        s as i32
    }
}

/// The calls that flushing `p` makes: the held movement, if any.
pub open spec fn spec_flush(p: PendingMove) -> Seq<ProxyCall> {
    match p {
        PendingMove::Idle => Seq::empty(),
        PendingMove::Abs { x, y } => seq![ProxyCall::SetAbsPosition(x, y)],
        PendingMove::Rel { dx, dy } => seq![ProxyCall::RelMotion(dx, dy)],
    }
}

/// One command applied to the pending movement: the new pending movement, the calls
/// made meanwhile, and whether the daemon must shut down.
///
/// Absolute moves replace one another, relative moves add up (saturating), a switch of
/// motion mode flushes the held movement first, and a button event flushes it before
/// the button is sent. Without a mouse proxy every mouse command is dropped together
/// with the held movement.
pub open spec fn spec_step(cmd: InputCommand, px: ProxySet, p: PendingMove) -> (PendingMove, Seq<ProxyCall>, bool) {
    match cmd {
        InputCommand::KbdPress(q) => (p, if px.keyboard { seq![ProxyCall::KbdPress(q)] } else { Seq::empty() }, false),
        InputCommand::KbdRelease(q) => (p, if px.keyboard { seq![ProxyCall::KbdRelease(q)] } else { Seq::empty() }, false),
        InputCommand::MouseSetAbs(x, y) => if !px.mouse {
            (PendingMove::Idle, Seq::empty(), false)
        } else {
            match p {
                PendingMove::Rel { .. } => (PendingMove::Abs { x, y }, spec_flush(p), false),
                _ => (PendingMove::Abs { x, y }, Seq::empty(), false),
            }
        },
        InputCommand::MouseRel(dx, dy) => if !px.mouse {
            (PendingMove::Idle, Seq::empty(), false)
        } else {
            match p {
                PendingMove::Idle => (PendingMove::Rel { dx, dy }, Seq::empty(), false),
                PendingMove::Abs { .. } => (PendingMove::Rel { dx, dy }, spec_flush(p), false),
                PendingMove::Rel { dx: pdx, dy: pdy } => (
                    PendingMove::Rel { dx: spec_saturating_add(pdx, dx), dy: spec_saturating_add(pdy, dy) },
                    Seq::empty(),
                    false,
                ),
            }
        },
        InputCommand::MousePress(b) => if !px.mouse {
            (PendingMove::Idle, Seq::empty(), false)
        } else {
            (PendingMove::Idle, spec_flush(p).push(ProxyCall::MousePress(b)), false)
        },
        InputCommand::MouseRelease(b) => if !px.mouse {
            (PendingMove::Idle, Seq::empty(), false)
        } else {
            (PendingMove::Idle, spec_flush(p).push(ProxyCall::MouseRelease(b)), false)
        },
        InputCommand::Touch { kind, num_slot, x_bits, y_bits } => (
            p,
            if px.touch {
                seq![ProxyCall::Touch { kind, num_slot, x_bits, y_bits }]
            } else {
                Seq::empty()
            },
            false,
        ),
        InputCommand::Shutdown => (
            PendingMove::Idle,
            if px.mouse { spec_flush(p) } else { Seq::empty() },
            true,
        ),
    }
}

/// Flushes the coalesced pending mouse movement: queues its call and clears it.
pub fn flush_mouse_move(pending_move: &mut PendingMove, calls: &mut Vec<ProxyCall>)
    ensures
        *final(pending_move) == PendingMove::Idle,
        final(calls)@ == old(calls)@ + spec_flush(*old(pending_move)),
{
    let p = *pending_move;
    *pending_move = PendingMove::Idle;
    match p {
        PendingMove::Idle => {},
        PendingMove::Abs { x, y } => calls.push(ProxyCall::SetAbsPosition(x, y)),
        PendingMove::Rel { dx, dy } => calls.push(ProxyCall::RelMotion(dx, dy)),
    }
}

/// Applies one command: updates the pending movement and queues the calls to make,
/// in order. Returns `true` when the daemon must shut down.
pub fn handle_cmd(cmd: InputCommand, proxies: &ProxySet, pending_move: &mut PendingMove, calls: &mut Vec<ProxyCall>) -> (shutdown: bool)
    ensures
        ({
            let (p, c, sd) = spec_step(cmd, *proxies, *old(pending_move));
            &&& *final(pending_move) == p
            &&& final(calls)@ == old(calls)@ + c
            &&& shutdown == sd
        }),
{
    match cmd {
        InputCommand::KbdPress(q) => {
            if proxies.keyboard {
                calls.push(ProxyCall::KbdPress(q));
            }
            proof { assert(calls@ =~= old(calls)@ + spec_step(cmd, *proxies, *old(pending_move)).1); }
            false
        },
        InputCommand::KbdRelease(q) => {
            if proxies.keyboard {
                calls.push(ProxyCall::KbdRelease(q));
            }
            proof { assert(calls@ =~= old(calls)@ + spec_step(cmd, *proxies, *old(pending_move)).1); }
            false
        },
        InputCommand::MouseSetAbs(x, y) => {
            if !proxies.mouse {
                *pending_move = PendingMove::Idle;
                proof { assert(calls@ =~= old(calls)@ + Seq::<ProxyCall>::empty()); }
                return false;
            }
            if let PendingMove::Rel { .. } = *pending_move {
                flush_mouse_move(pending_move, calls);
            } else {
                proof { assert(calls@ =~= old(calls)@ + Seq::<ProxyCall>::empty()); }
            }
            *pending_move = PendingMove::Abs { x, y };
            false
        },
        InputCommand::MouseRel(dx, dy) => {
            if !proxies.mouse {
                *pending_move = PendingMove::Idle;
                proof { assert(calls@ =~= old(calls)@ + Seq::<ProxyCall>::empty()); }
                return false;
            }
            if let PendingMove::Abs { .. } = *pending_move {
                flush_mouse_move(pending_move, calls);
            } else {
                proof { assert(calls@ =~= old(calls)@ + Seq::<ProxyCall>::empty()); }
            }
            match *pending_move {
                PendingMove::Rel { dx: pdx, dy: pdy } => {
                    *pending_move = PendingMove::Rel {
                        dx: saturating_add_i32(pdx, dx),
                        dy: saturating_add_i32(pdy, dy),
                    };
                },
                _ => {
                    *pending_move = PendingMove::Rel { dx, dy };
                },
            }
            false
        },
        InputCommand::MousePress(b) => {
            if !proxies.mouse {
                *pending_move = PendingMove::Idle;
                proof { assert(calls@ =~= old(calls)@ + Seq::<ProxyCall>::empty()); }
                return false;
            }
            flush_mouse_move(pending_move, calls);
            calls.push(ProxyCall::MousePress(b));
            proof { assert(calls@ =~= old(calls)@ + spec_step(cmd, *proxies, *old(pending_move)).1); }
            false
        },
        InputCommand::MouseRelease(b) => {
            if !proxies.mouse {
                *pending_move = PendingMove::Idle;
                proof { assert(calls@ =~= old(calls)@ + Seq::<ProxyCall>::empty()); }
                return false;
            }
            flush_mouse_move(pending_move, calls);
            calls.push(ProxyCall::MouseRelease(b));
            proof { assert(calls@ =~= old(calls)@ + spec_step(cmd, *proxies, *old(pending_move)).1); }
            false
        },
        InputCommand::Touch { kind, num_slot, x_bits, y_bits } => {
            if proxies.touch {
                calls.push(ProxyCall::Touch { kind, num_slot, x_bits, y_bits });
            }
            proof { assert(calls@ =~= old(calls)@ + spec_step(cmd, *proxies, *old(pending_move)).1); }
            false
        },
        InputCommand::Shutdown => {
            if proxies.mouse {
                flush_mouse_move(pending_move, calls);
            } else {
                *pending_move = PendingMove::Idle;
                proof { assert(calls@ =~= old(calls)@ + Seq::<ProxyCall>::empty()); }
            }
            true
        },
    }
}

/// A run of commands from pending movement `p`: the final pending movement, the calls
/// made, and whether a shutdown command ended the run (later commands are not read).
pub open spec fn spec_run(p: PendingMove, s: Seq<InputCommand>, px: ProxySet) -> (PendingMove, Seq<ProxyCall>, bool)
    decreases s.len(),
{
    if s.len() == 0 {
        (p, Seq::empty(), false)
    } else {
        let (p1, c1, sd) = spec_step(s[0], px, p);
        if sd {
            (p1, c1, true)
        } else {
            let (p2, c2, sd2) = spec_run(p1, s.drop_first(), px);
            (p2, c1 + c2, sd2)
        }
    }
}

/// The calls made for one batch of queued commands, starting from pending movement `p`:
/// the run, then the final flush of the held movement when a mouse proxy exists.
pub open spec fn spec_batch(p: PendingMove, s: Seq<InputCommand>, px: ProxySet) -> Seq<ProxyCall> {
    let (p2, c, sd) = spec_run(p, s, px);
    if sd {
        c
    } else if px.mouse {
        c + spec_flush(p2)
    } else {
        c
    }
}

/// Whether a call is a pointer movement.
pub open spec fn is_move_call(c: ProxyCall) -> bool {
    c is SetAbsPosition || c is RelMotion
}

/// The calls of `s` that are not pointer movements, in order.
pub open spec fn non_move_calls(s: Seq<ProxyCall>) -> Seq<ProxyCall> {
    s.filter(|c: ProxyCall| !is_move_call(c))
}

/// The call that a key, button or touch command forwards unchanged.
pub open spec fn spec_forward(cmd: InputCommand) -> Seq<ProxyCall> {
    match cmd {
        InputCommand::KbdPress(q) => seq![ProxyCall::KbdPress(q)],
        InputCommand::KbdRelease(q) => seq![ProxyCall::KbdRelease(q)],
        InputCommand::MousePress(b) => seq![ProxyCall::MousePress(b)],
        InputCommand::MouseRelease(b) => seq![ProxyCall::MouseRelease(b)],
        InputCommand::Touch { kind, num_slot, x_bits, y_bits } => seq![
            ProxyCall::Touch { kind, num_slot, x_bits, y_bits },
        ],
        _ => Seq::empty(),
    }
}

/// The key, button and touch calls that a sequence of commands forwards, in order.
pub open spec fn spec_forwarded(s: Seq<InputCommand>) -> Seq<ProxyCall>
    decreases s.len(),
{
    if s.len() == 0 {
        Seq::empty()
    } else {
        spec_forward(s[0]) + spec_forwarded(s.drop_first())
    }
}

/// Whether every command of `s` is an absolute move.
pub open spec fn all_abs(s: Seq<InputCommand>) -> bool {
    forall|i: int| 0 <= i < s.len() ==> #[trigger] s[i] is MouseSetAbs
}

/// Whether every command of `s` is a relative move.
pub open spec fn all_rel(s: Seq<InputCommand>) -> bool {
    forall|i: int| 0 <= i < s.len() ==> #[trigger] s[i] is MouseRel
}

/// The saturating sum of the relative moves of `s`, added to `(dx, dy)` in order.
pub open spec fn spec_rel_sum(dx: i32, dy: i32, s: Seq<InputCommand>) -> (i32, i32)
    decreases s.len(),
{
    if s.len() == 0 {
        (dx, dy)
    } else {
        match s[0] {
            InputCommand::MouseRel(ddx, ddy) => spec_rel_sum(
                spec_saturating_add(dx, ddx),
                spec_saturating_add(dy, ddy),
                s.drop_first(),
            ),
            _ => spec_rel_sum(dx, dy, s.drop_first()),
        }
    }
}

proof fn lemma_filter_single(c: ProxyCall)
    ensures
        non_move_calls(seq![c]) == (if is_move_call(c) { Seq::<ProxyCall>::empty() } else { seq![c] }),
{
    reveal_with_fuel(Seq::filter, 2);
    assert(seq![c].drop_last() =~= Seq::<ProxyCall>::empty());
    if is_move_call(c) {
        assert(non_move_calls(seq![c]) =~= Seq::<ProxyCall>::empty());
    } else {
        assert(non_move_calls(seq![c]) =~= seq![c]);
    }
}

proof fn lemma_non_moves_add(a: Seq<ProxyCall>, b: Seq<ProxyCall>)
    ensures
        non_move_calls(a + b) == non_move_calls(a) + non_move_calls(b),
{
    Seq::filter_distributes_over_add(a, b, |c: ProxyCall| !is_move_call(c));
}

proof fn lemma_flush_has_only_moves(p: PendingMove)
    ensures
        non_move_calls(spec_flush(p)) == Seq::<ProxyCall>::empty(),
        spec_flush(p).len() <= 1,
{
    reveal_with_fuel(Seq::filter, 2);
    match p {
        PendingMove::Idle => {
            assert(non_move_calls(spec_flush(p)) =~= Seq::<ProxyCall>::empty());
        },
        PendingMove::Abs { x, y } => {
            lemma_filter_single(ProxyCall::SetAbsPosition(x, y));
        },
        PendingMove::Rel { dx, dy } => {
            lemma_filter_single(ProxyCall::RelMotion(dx, dy));
        },
    }
}

proof fn lemma_step_non_moves(cmd: InputCommand, px: ProxySet, p: PendingMove)
    requires
        px.keyboard && px.mouse && px.touch,
        !(cmd is Shutdown),
    ensures
        non_move_calls(spec_step(cmd, px, p).1) == spec_forward(cmd),
        !spec_step(cmd, px, p).2,
{
    lemma_flush_has_only_moves(p);
    match cmd {
        InputCommand::KbdPress(q) => lemma_filter_single(ProxyCall::KbdPress(q)),
        InputCommand::KbdRelease(q) => lemma_filter_single(ProxyCall::KbdRelease(q)),
        InputCommand::MousePress(b) => {
            lemma_filter_single(ProxyCall::MousePress(b));
            lemma_non_moves_add(spec_flush(p), seq![ProxyCall::MousePress(b)]);
            assert(spec_flush(p).push(ProxyCall::MousePress(b)) =~= spec_flush(p) + seq![ProxyCall::MousePress(b)]);
            assert(Seq::<ProxyCall>::empty() + seq![ProxyCall::MousePress(b)] =~= seq![ProxyCall::MousePress(b)]);
        },
        InputCommand::MouseRelease(b) => {
            lemma_filter_single(ProxyCall::MouseRelease(b));
            lemma_non_moves_add(spec_flush(p), seq![ProxyCall::MouseRelease(b)]);
            assert(spec_flush(p).push(ProxyCall::MouseRelease(b)) =~= spec_flush(p) + seq![ProxyCall::MouseRelease(b)]);
            assert(Seq::<ProxyCall>::empty() + seq![ProxyCall::MouseRelease(b)] =~= seq![ProxyCall::MouseRelease(b)]);
        },
        InputCommand::Touch { kind, num_slot, x_bits, y_bits } => {
            lemma_filter_single(ProxyCall::Touch { kind, num_slot, x_bits, y_bits });
        },
        InputCommand::MouseSetAbs(x, y) => {
            reveal_with_fuel(Seq::filter, 1);
            assert(non_move_calls(Seq::<ProxyCall>::empty()) =~= Seq::<ProxyCall>::empty());
        },
        InputCommand::MouseRel(dx, dy) => {
            reveal_with_fuel(Seq::filter, 1);
            assert(non_move_calls(Seq::<ProxyCall>::empty()) =~= Seq::<ProxyCall>::empty());
        },
        InputCommand::Shutdown => {},
    }
}

proof fn lemma_run_non_moves(p: PendingMove, s: Seq<InputCommand>, px: ProxySet)
    requires
        px.keyboard && px.mouse && px.touch,
        forall|i: int| 0 <= i < s.len() ==> !(#[trigger] s[i] is Shutdown),
    ensures
        non_move_calls(spec_batch(p, s, px)) == spec_forwarded(s),
    decreases s.len(),
{
    reveal_with_fuel(Seq::filter, 1);
    if s.len() == 0 {
        lemma_flush_has_only_moves(p);
        assert(Seq::<ProxyCall>::empty() + spec_flush(p) =~= spec_flush(p));
    } else {
        let (p1, c1, sd) = spec_step(s[0], px, p);
        lemma_step_non_moves(s[0], px, p);
        let rest = s.drop_first();
        assert forall|i: int| 0 <= i < rest.len() implies !(#[trigger] rest[i] is Shutdown) by {
            assert(rest[i] == s[i + 1]);
        }
        lemma_run_non_moves(p1, rest, px);
        let (p2, c2, sd2) = spec_run(p1, rest, px);
        lemma_non_moves_add(c1, c2 + spec_flush(p2));
        assert(c1 + c2 + spec_flush(p2) =~= c1 + (c2 + spec_flush(p2)));
    }
}

/// Coalescing never reorders or drops a key, button or touch event: with every device
/// proxy present and no shutdown in the batch, the calls that are not pointer
/// movements are exactly the key, button and touch commands of the batch, in order.
pub proof fn law_non_move_events_keep_order(s: Seq<InputCommand>, px: ProxySet)
    requires
        px.keyboard && px.mouse && px.touch,
        forall|i: int| 0 <= i < s.len() ==> !(#[trigger] s[i] is Shutdown),
    ensures
        non_move_calls(spec_batch(PendingMove::Idle, s, px)) == spec_forwarded(s),
{
    lemma_run_non_moves(PendingMove::Idle, s, px);
}

proof fn lemma_run_abs(p: PendingMove, s: Seq<InputCommand>, px: ProxySet)
    requires
        px.mouse,
        all_abs(s),
        s.len() > 0,
        !(p is Rel),
    ensures
        spec_run(p, s, px) == (match s.last() {
            InputCommand::MouseSetAbs(x, y) => PendingMove::Abs { x, y },
            _ => p,
        }, Seq::<ProxyCall>::empty(), false),
    decreases s.len(),
{
    assert(s[0] is MouseSetAbs);
    let rest = s.drop_first();
    let (p1, c1, sd) = spec_step(s[0], px, p);
    assert(c1 =~= Seq::<ProxyCall>::empty());
    if rest.len() == 0 {
        assert(s.last() == s[0]);
        assert(spec_run(p1, rest, px) == (p1, Seq::<ProxyCall>::empty(), false));
        assert(Seq::<ProxyCall>::empty() + Seq::<ProxyCall>::empty() =~= Seq::<ProxyCall>::empty());
    } else {
        assert forall|i: int| 0 <= i < rest.len() implies #[trigger] rest[i] is MouseSetAbs by {
            assert(rest[i] == s[i + 1]);
        }
        lemma_run_abs(p1, rest, px);
        assert(rest.last() == s.last());
        assert(Seq::<ProxyCall>::empty() + Seq::<ProxyCall>::empty() =~= Seq::<ProxyCall>::empty());
    }
}

/// Absolute moves are last-write-wins: a batch of absolute moves makes one call, to the
/// last position.
pub proof fn law_absolute_moves_last_write_wins(s: Seq<InputCommand>, px: ProxySet)
    requires
        px.mouse,
        all_abs(s),
        s.len() > 0,
    ensures
        spec_batch(PendingMove::Idle, s, px) == (match s.last() {
            InputCommand::MouseSetAbs(x, y) => seq![ProxyCall::SetAbsPosition(x, y)],
            _ => Seq::<ProxyCall>::empty(),
        }),
{
    assert(s[s.len() - 1] is MouseSetAbs);
    lemma_run_abs(PendingMove::Idle, s, px);
    assert(Seq::<ProxyCall>::empty() + spec_flush(spec_run(PendingMove::Idle, s, px).0) =~= spec_flush(
        spec_run(PendingMove::Idle, s, px).0,
    ));
}

proof fn lemma_run_rel(dx: i32, dy: i32, s: Seq<InputCommand>, px: ProxySet)
    requires
        px.mouse,
        all_rel(s),
    ensures
        spec_run(PendingMove::Rel { dx, dy }, s, px) == (PendingMove::Rel {
            dx: spec_rel_sum(dx, dy, s).0,
            dy: spec_rel_sum(dx, dy, s).1,
        }, Seq::<ProxyCall>::empty(), false),
    decreases s.len(),
{
    if s.len() > 0 {
        assert(s[0] is MouseRel);
        let rest = s.drop_first();
        assert forall|i: int| 0 <= i < rest.len() implies #[trigger] rest[i] is MouseRel by {
            assert(rest[i] == s[i + 1]);
        }
        if let InputCommand::MouseRel(ddx, ddy) = s[0] {
            lemma_run_rel(spec_saturating_add(dx, ddx), spec_saturating_add(dy, ddy), rest, px);
        }
        assert(Seq::<ProxyCall>::empty() + Seq::<ProxyCall>::empty() =~= Seq::<ProxyCall>::empty());
    }
}

/// Relative moves add up: a batch of relative moves makes one call, with the saturating
/// sum of all deltas.
pub proof fn law_relative_moves_accumulate(s: Seq<InputCommand>, px: ProxySet)
    requires
        px.mouse,
        all_rel(s),
        s.len() > 0,
    ensures
        spec_batch(PendingMove::Idle, s, px) == (match s[0] {
            InputCommand::MouseRel(dx, dy) => {
                let (sx, sy) = spec_rel_sum(dx, dy, s.drop_first());
                seq![ProxyCall::RelMotion(sx, sy)]
            },
            _ => Seq::<ProxyCall>::empty(),
        }),
{
    assert(s[0] is MouseRel);
    let rest = s.drop_first();
    assert forall|i: int| 0 <= i < rest.len() implies #[trigger] rest[i] is MouseRel by {
        assert(rest[i] == s[i + 1]);
    }
    if let InputCommand::MouseRel(dx, dy) = s[0] {
        lemma_run_rel(dx, dy, rest, px);
        assert(Seq::<ProxyCall>::empty() + Seq::<ProxyCall>::empty() =~= Seq::<ProxyCall>::empty());
        let (sx, sy) = spec_rel_sum(dx, dy, rest);
        assert(Seq::<ProxyCall>::empty() + seq![ProxyCall::RelMotion(sx, sy)] =~= seq![ProxyCall::RelMotion(sx, sy)]);
    }
}

proof fn lemma_batch_len(p: PendingMove, s: Seq<InputCommand>, px: ProxySet)
    ensures
        spec_batch(p, s, px).len() <= s.len() + spec_flush(p).len(),
    decreases s.len(),
{
    if s.len() > 0 {
        let (p1, c1, sd) = spec_step(s[0], px, p);
        lemma_batch_len(p1, s.drop_first(), px);
    }
}

/// Coalescing never amplifies traffic: a batch makes at most as many calls as it has
/// commands.
pub proof fn law_batch_never_grows(s: Seq<InputCommand>, px: ProxySet)
    ensures
        spec_batch(PendingMove::Idle, s, px).len() <= s.len(),
{
    lemma_batch_len(PendingMove::Idle, s, px);
}


proof fn lemma_run_push(p: PendingMove, s: Seq<InputCommand>, c: InputCommand, px: ProxySet)
    requires
        !spec_run(p, s, px).2,
    ensures
        ({
            let (p1, c1, _) = spec_run(p, s, px);
            let (p2, c2, sd) = spec_step(c, px, p1);
            spec_run(p, s.push(c), px) == (p2, c1 + c2, sd)
        }),
    decreases s.len(),
{
    if s.len() == 0 {
        assert(s.push(c) =~= seq![c]);
        assert(seq![c].drop_first() =~= Seq::<InputCommand>::empty());
        let (p2, c2, sd) = spec_step(c, px, p);
        assert(spec_run(p2, Seq::<InputCommand>::empty(), px) == (p2, Seq::<ProxyCall>::empty(), false));
        assert(spec_run(p, s, px) == (p, Seq::<ProxyCall>::empty(), false));
        assert(c2 + Seq::<ProxyCall>::empty() =~= c2);
        assert(Seq::<ProxyCall>::empty() + c2 =~= c2);
    } else {
        let (q1, d1, sd1) = spec_step(s[0], px, p);
        let rest = s.drop_first();
        assert(s.push(c).drop_first() =~= rest.push(c));
        assert(s.push(c)[0] == s[0]);
        lemma_run_push(q1, rest, c, px);
        let (r1, e1, _) = spec_run(q1, rest, px);
        let (p2, c2, sd) = spec_step(c, px, r1);
        assert(d1 + (e1 + c2) =~= (d1 + e1) + c2);
    }
}

proof fn lemma_run_stops_at_shutdown(p: PendingMove, s: Seq<InputCommand>, u: Seq<InputCommand>, px: ProxySet)
    requires
        spec_run(p, s, px).2,
    ensures
        spec_run(p, s + u, px) == spec_run(p, s, px),
    decreases s.len(),
{
    let (q1, d1, sd1) = spec_step(s[0], px, p);
    assert((s + u)[0] == s[0]);
    if !sd1 {
        assert((s + u).drop_first() =~= s.drop_first() + u);
        lemma_run_stops_at_shutdown(q1, s.drop_first(), u, px);
    }
}

/// A button event is sent only after the pointer movement before it: with a mouse proxy,
/// appending a press or release of `b` to a batch that does not shut down puts exactly
/// that button call at the very end of the batch's calls, after every movement that the
/// earlier commands make, the flush of the held movement included. So the calls for
/// `[move, button]` are `[move, button]`.
pub proof fn law_button_follows_earlier_moves(s: Seq<InputCommand>, b: Button, press: bool, px: ProxySet)
    requires
        px.mouse,
        !spec_run(PendingMove::Idle, s, px).2,
    ensures
        ({
            let cmd = if press {
                InputCommand::MousePress(b)
            } else {
                InputCommand::MouseRelease(b)
            };
            let call = if press {
                ProxyCall::MousePress(b)
            } else {
                ProxyCall::MouseRelease(b)
            };
            spec_batch(PendingMove::Idle, s.push(cmd), px) == spec_batch(PendingMove::Idle, s, px).push(call)
        }),
{
    let cmd = if press {
        InputCommand::MousePress(b)
    } else {
        InputCommand::MouseRelease(b)
    };
    let call = if press {
        ProxyCall::MousePress(b)
    } else {
        ProxyCall::MouseRelease(b)
    };
    lemma_run_push(PendingMove::Idle, s, cmd, px);
    let (p1, c1, _) = spec_run(PendingMove::Idle, s, px);
    assert(c1 + spec_flush(p1).push(call) + spec_flush(PendingMove::Idle) =~= (c1 + spec_flush(p1)).push(call));
}

/// Processes one batch of queued commands, starting with no held movement: every
/// command goes through `handle_cmd`, a shutdown command ends the batch, and otherwise
/// the held movement is flushed at the end when a mouse proxy exists. Returns the calls
/// to make, in order, and whether the daemon must shut down.
pub fn process_batch(cmds: &[InputCommand], proxies: &ProxySet) -> (r: (Vec<ProxyCall>, bool))
    ensures
        r.0@ == spec_batch(PendingMove::Idle, cmds@, *proxies),
        r.1 == spec_run(PendingMove::Idle, cmds@, *proxies).2,
{
    let mut pending = PendingMove::Idle;
    let mut calls: Vec<ProxyCall> = Vec::new();
    let mut i: usize = 0;
    while i < cmds.len()
        invariant
            i <= cmds@.len(),
            !spec_run(PendingMove::Idle, cmds@.take(i as int), *proxies).2,
            pending == spec_run(PendingMove::Idle, cmds@.take(i as int), *proxies).0,
            calls@ == spec_run(PendingMove::Idle, cmds@.take(i as int), *proxies).1,
        decreases cmds@.len() - i,
    {
        let cmd = cmds[i];
        proof {
            assert(cmds@.take(i + 1) =~= cmds@.take(i as int).push(cmd));
            lemma_run_push(PendingMove::Idle, cmds@.take(i as int), cmd, *proxies);
        }
        let shutdown = handle_cmd(cmd, proxies, &mut pending, &mut calls);
        if shutdown {
            proof {
                lemma_run_stops_at_shutdown(PendingMove::Idle, cmds@.take(i + 1), cmds@.skip(i + 1), *proxies);
                assert(cmds@.take(i + 1) + cmds@.skip(i + 1) =~= cmds@);
            }
            return (calls, true);
        }
        i = i + 1;
    }
    proof {
        assert(cmds@.take(i as int) =~= cmds@);
    }
    if proxies.mouse {
        flush_mouse_move(&mut pending, &mut calls);
    }
    (calls, false)
}

/// What the watcher manager does for one device when the capabilities change.
#[derive(Debug, Clone, Copy, PartialEq, Eq, Structural)]
pub enum WatcherAction {
    /// Start a watcher: it is wanted, none runs, and the device proxy exists.
    Start,
    /// Abort the running watcher: it is no longer wanted.
    Stop,
    /// It is wanted but the device proxy is missing, so none can be started.
    Unavailable,
    /// Nothing to do.
    Keep,
}

/// The reconciliation rule for one device watcher.
pub open spec fn spec_watcher_action(desired: bool, running: bool, proxy: bool) -> WatcherAction {
    if desired {
        if running {
            WatcherAction::Keep
        } else if proxy {
            WatcherAction::Start
        } else {
            WatcherAction::Unavailable
        }
    } else if running {
        WatcherAction::Stop
    } else {
        WatcherAction::Keep
    }
}

/// Decides what to do with one device watcher: start it when wanted, not running and
/// possible; abort it when running and no longer wanted; otherwise leave it.
pub fn watcher_action(desired: bool, running: bool, proxy: bool) -> (a: WatcherAction)
    ensures
        a == spec_watcher_action(desired, running, proxy),
{
    if desired {
        if running {
            WatcherAction::Keep
        } else if proxy {
            WatcherAction::Start
        } else {
            WatcherAction::Unavailable
        }
    } else if running {
        WatcherAction::Stop
    } else {
        WatcherAction::Keep
    }
}

/// Which property watchers run, one flag per device.
#[derive(Debug, Clone, Copy, PartialEq, Eq, Structural)]
pub struct RunningWatchers {
    pub keyboard: bool,
    pub mouse: bool,
    pub touch: bool,
}

/// The actions that reconcile the running watchers with the desired capabilities.
#[derive(Debug, Clone, Copy, PartialEq, Eq, Structural)]
pub struct WatcherPlan {
    pub keyboard: WatcherAction,
    pub mouse: WatcherAction,
    pub touch: WatcherAction,
}

/// Whether a watcher runs after `a` was carried out on one that ran (`running`) before.
pub open spec fn spec_runs_after(a: WatcherAction, running: bool) -> bool {
    match a {
        WatcherAction::Start => true,
        WatcherAction::Stop => false,
        _ => running,
    }
}

/// The running watchers after a plan was carried out.
pub open spec fn spec_apply_plan(plan: WatcherPlan, r: RunningWatchers) -> RunningWatchers {
    RunningWatchers {
        keyboard: spec_runs_after(plan.keyboard, r.keyboard),
        mouse: spec_runs_after(plan.mouse, r.mouse),
        touch: spec_runs_after(plan.touch, r.touch),
    }
}

/// The plan that reconciles `running` with `desired`, each device on its own.
pub open spec fn spec_plan_watchers(desired: Capability, running: RunningWatchers, proxies: ProxySet) -> WatcherPlan {
    WatcherPlan {
        keyboard: spec_watcher_action(desired.keyboard, running.keyboard, proxies.keyboard),
        mouse: spec_watcher_action(desired.mouse, running.mouse, proxies.mouse),
        touch: spec_watcher_action(desired.multitouch, running.touch, proxies.touch),
    }
}

/// Reconciles the running property watchers with the desired capabilities.
pub fn plan_watchers(desired: Capability, running: RunningWatchers, proxies: ProxySet) -> (p: WatcherPlan)
    ensures
        p == spec_plan_watchers(desired, running, proxies),
{
    WatcherPlan {
        keyboard: watcher_action(desired.keyboard, running.keyboard, proxies.keyboard),
        mouse: watcher_action(desired.mouse, running.mouse, proxies.mouse),
        touch: watcher_action(desired.multitouch, running.touch, proxies.touch),
    }
}

/// After reconciliation a watcher runs exactly when it is wanted and, if it was not
/// already running, its device proxy exists; and reconciling again with the same
/// capabilities changes nothing.
pub proof fn law_reconcile_converges(desired: Capability, running: RunningWatchers, proxies: ProxySet)
    ensures
        ({
            let after = spec_apply_plan(spec_plan_watchers(desired, running, proxies), running);
            &&& after.keyboard == (desired.keyboard && (running.keyboard || proxies.keyboard))
            &&& after.mouse == (desired.mouse && (running.mouse || proxies.mouse))
            &&& after.touch == (desired.multitouch && (running.touch || proxies.touch))
            &&& spec_apply_plan(spec_plan_watchers(desired, after, proxies), after) == after
            &&& spec_plan_watchers(desired, after, proxies).keyboard != WatcherAction::Start
            &&& spec_plan_watchers(desired, after, proxies).keyboard != WatcherAction::Stop
            &&& spec_plan_watchers(desired, after, proxies).mouse != WatcherAction::Start
            &&& spec_plan_watchers(desired, after, proxies).mouse != WatcherAction::Stop
            &&& spec_plan_watchers(desired, after, proxies).touch != WatcherAction::Start
            &&& spec_plan_watchers(desired, after, proxies).touch != WatcherAction::Stop
        }),
{
}

} // verus!
