use libmks_rs::dbus::keyboard::PressAction;
use libmks_rs::dbus::mouse::Button;
use libmks_rs::dbus::multitouch::Kind;
use libmks_rs::display::input_daemon::{
    flush_mouse_move, handle_cmd, plan_watchers, process_batch, saturating_add_i32, watcher_action, InputCommand,
    PendingMove, ProxyCall, ProxySet, RunningWatchers, WatchCommand, WatcherAction, WatcherPlan,
};
use libmks_rs::display::input_handler::{
    button_command, key_command, outcome_of, scroll_plan, Capability, InputHandler, SendOutcome,
};
use libmks_rs::keymaps::Qnum;

const ALL: ProxySet = ProxySet { keyboard: true, mouse: true, touch: true };

#[test]
fn documented_scenario_moves_coalesce_before_a_press() {
    let cmds = [
        InputCommand::MouseSetAbs(10, 10),
        InputCommand::MouseSetAbs(20, 20),
        InputCommand::MouseSetAbs(30, 30),
        InputCommand::MousePress(Button::Left),
        InputCommand::MouseSetAbs(40, 40),
    ];
    let (calls, shutdown) = process_batch(&cmds, &ALL);
    assert!(!shutdown);
    assert_eq!(
        calls,
        vec![
            ProxyCall::SetAbsPosition(30, 30),
            ProxyCall::MousePress(Button::Left),
            ProxyCall::SetAbsPosition(40, 40),
        ]
    );
}

#[test]
fn absolute_moves_last_write_wins() {
    let cmds = [InputCommand::MouseSetAbs(1, 2), InputCommand::MouseSetAbs(3, 4), InputCommand::MouseSetAbs(5, 6)];
    let (calls, _) = process_batch(&cmds, &ALL);
    assert_eq!(calls, vec![ProxyCall::SetAbsPosition(5, 6)]);
}

#[test]
fn relative_moves_accumulate_and_saturate() {
    let cmds = [InputCommand::MouseRel(1, -2), InputCommand::MouseRel(3, -4), InputCommand::MouseRel(5, -6)];
    let (calls, _) = process_batch(&cmds, &ALL);
    assert_eq!(calls, vec![ProxyCall::RelMotion(9, -12)]);

    let cmds = [InputCommand::MouseRel(i32::MAX, i32::MIN), InputCommand::MouseRel(5, -5)];
    let (calls, _) = process_batch(&cmds, &ALL);
    assert_eq!(calls, vec![ProxyCall::RelMotion(i32::MAX, i32::MIN)]);
    assert_eq!(saturating_add_i32(i32::MAX, 1), i32::MAX);
    assert_eq!(saturating_add_i32(i32::MIN, -1), i32::MIN);
    assert_eq!(saturating_add_i32(-7, 3), -4);
}

#[test]
fn switching_motion_mode_flushes_the_held_move() {
    let cmds = [InputCommand::MouseRel(1, 1), InputCommand::MouseSetAbs(7, 8), InputCommand::MouseRel(2, 2)];
    let (calls, _) = process_batch(&cmds, &ALL);
    assert_eq!(
        calls,
        vec![ProxyCall::RelMotion(1, 1), ProxyCall::SetAbsPosition(7, 8), ProxyCall::RelMotion(2, 2)]
    );
}

#[test]
fn key_and_touch_events_keep_their_order() {
    let touch = InputCommand::Touch { kind: Kind::Begin, num_slot: 3, x_bits: 1.5f64.to_bits(), y_bits: 2.5f64.to_bits() };
    let cmds = [
        InputCommand::KbdPress(Qnum(30)),
        InputCommand::MouseRel(1, 0),
        touch,
        InputCommand::MouseRel(1, 0),
        InputCommand::KbdRelease(Qnum(30)),
    ];
    let (calls, _) = process_batch(&cmds, &ALL);
    assert_eq!(
        calls,
        vec![
            ProxyCall::KbdPress(Qnum(30)),
            ProxyCall::Touch { kind: Kind::Begin, num_slot: 3, x_bits: 1.5f64.to_bits(), y_bits: 2.5f64.to_bits() },
            ProxyCall::KbdRelease(Qnum(30)),
            ProxyCall::RelMotion(2, 0),
        ]
    );
    assert!(calls.len() <= cmds.len());
}

#[test]
fn shutdown_flushes_and_stops_the_batch() {
    let cmds = [InputCommand::MouseSetAbs(9, 9), InputCommand::Shutdown, InputCommand::KbdPress(Qnum(1))];
    let (calls, shutdown) = process_batch(&cmds, &ALL);
    assert!(shutdown);
    assert_eq!(calls, vec![ProxyCall::SetAbsPosition(9, 9)]);
}

#[test]
fn missing_proxies_drop_commands() {
    let none = ProxySet { keyboard: false, mouse: false, touch: false };
    let cmds = [InputCommand::KbdPress(Qnum(1)), InputCommand::MouseSetAbs(1, 1), InputCommand::MousePress(Button::Left)];
    let (calls, shutdown) = process_batch(&cmds, &none);
    assert!(!shutdown);
    assert!(calls.is_empty());
}

#[test]
fn handle_cmd_and_flush_step_by_step() {
    let mut pending = PendingMove::Idle;
    let mut calls = Vec::new();
    assert!(!handle_cmd(InputCommand::MouseRel(2, 3), &ALL, &mut pending, &mut calls));
    assert_eq!(pending, PendingMove::Rel { dx: 2, dy: 3 });
    assert!(calls.is_empty());
    flush_mouse_move(&mut pending, &mut calls);
    assert_eq!(pending, PendingMove::Idle);
    assert_eq!(calls, vec![ProxyCall::RelMotion(2, 3)]);
    assert!(handle_cmd(InputCommand::Shutdown, &ALL, &mut pending, &mut calls));
}

#[test]
fn watcher_reconciliation() {
    assert_eq!(watcher_action(true, false, true), WatcherAction::Start);
    assert_eq!(watcher_action(true, false, false), WatcherAction::Unavailable);
    assert_eq!(watcher_action(true, true, false), WatcherAction::Keep);
    assert_eq!(watcher_action(false, true, true), WatcherAction::Stop);
    assert_eq!(watcher_action(false, false, true), WatcherAction::Keep);

    let desired = Capability { keyboard: true, mouse: false, multitouch: true };
    let running = RunningWatchers { keyboard: false, mouse: true, touch: false };
    let proxies = ProxySet { keyboard: true, mouse: true, touch: false };
    let plan = plan_watchers(desired, running, proxies);
    assert_eq!(
        plan,
        WatcherPlan { keyboard: WatcherAction::Start, mouse: WatcherAction::Stop, touch: WatcherAction::Unavailable }
    );
    let after = RunningWatchers { keyboard: true, mouse: false, touch: false };
    let again = plan_watchers(desired, after, proxies);
    assert_eq!(
        again,
        WatcherPlan { keyboard: WatcherAction::Keep, mouse: WatcherAction::Keep, touch: WatcherAction::Unavailable }
    );
}

#[test]
fn scroll_plan_picks_direction_and_count() {
    assert_eq!(scroll_plan(3), (Button::WheelDown, 3));
    assert_eq!(scroll_plan(-2), (Button::WheelUp, 2));
    assert_eq!(scroll_plan(0), (Button::WheelUp, 0));
    assert_eq!(scroll_plan(i64::MIN + 1), (Button::WheelUp, (1u64 << 63) - 1));
}

#[test]
fn send_outcomes_are_classified() {
    let (tx, rx) = kanal::bounded::<u8>(1);
    assert_eq!(outcome_of(tx.try_send(1)), SendOutcome::Sent);
    assert_eq!(outcome_of(tx.try_send(2)), SendOutcome::Full);
    drop(rx);
    assert_eq!(outcome_of(tx.try_send(3)), SendOutcome::Closed);
}

#[test]
fn handler_tracks_held_keys_and_releases_them() {
    let (tx, rx) = kanal::bounded::<InputCommand>(16);
    let mut handler = InputHandler::new(Some(tx), None, Capability::default());
    assert_eq!(handler.press_keyboard(38, PressAction::Press), Some((InputCommand::KbdPress(Qnum(30)), SendOutcome::Sent)));
    assert_eq!(handler.press_keyboard(50, PressAction::Press), Some((InputCommand::KbdPress(Qnum(42)), SendOutcome::Sent)));
    assert_eq!(handler.press_keyboard(38, PressAction::Release), Some((InputCommand::KbdRelease(Qnum(30)), SendOutcome::Sent)));
    assert_eq!(handler.held_keys.len(), 1);
    assert!(handler.held_keys.contains(&42));
    assert_eq!(rx.try_recv().unwrap(), Some(InputCommand::KbdPress(Qnum(30))));
    assert_eq!(rx.try_recv().unwrap(), Some(InputCommand::KbdPress(Qnum(42))));
    assert_eq!(rx.try_recv().unwrap(), Some(InputCommand::KbdRelease(Qnum(30))));

    assert_eq!(handler.release_all_keys(), vec![(InputCommand::KbdRelease(Qnum(42)), SendOutcome::Sent)]);
    assert!(handler.held_keys.is_empty());
    assert_eq!(rx.try_recv().unwrap(), Some(InputCommand::KbdRelease(Qnum(42))));
    assert_eq!(rx.try_recv().unwrap(), None);
}

#[test]
fn release_all_keys_releases_each_held_key_once() {
    let (tx, rx) = kanal::bounded::<InputCommand>(16);
    let mut handler = InputHandler::new(Some(tx), None, Capability::default());
    for keycode in [37, 50, 64, 110] {
        assert!(handler.press_keyboard(keycode, PressAction::Press).is_some());
    }
    for _ in 0..4 {
        assert!(rx.try_recv().unwrap().is_some());
    }
    let mut released: Vec<u32> = handler
        .release_all_keys()
        .into_iter()
        .map(|(command, outcome)| {
            assert_eq!(outcome, SendOutcome::Sent);
            match command {
                InputCommand::KbdRelease(q) => q.0,
                other => panic!("unexpected command {other:?}"),
            }
        })
        .collect();
    released.sort();
    assert_eq!(released, vec![29, 42, 56, 0xc7]);
    assert!(handler.held_keys.is_empty());
    let mut received = Vec::new();
    while let Some(command) = rx.try_recv().unwrap() {
        received.push(command);
    }
    assert_eq!(received.len(), 4);

    // Without the keyboard the keys are forgotten and nothing is sent.
    let (tx, rx) = kanal::bounded::<InputCommand>(4);
    let mut handler = InputHandler::new(Some(tx), None, Capability::default());
    assert!(handler.press_keyboard(38, PressAction::Press).is_some());
    assert!(rx.try_recv().unwrap().is_some());
    handler.capability.keyboard = false;
    assert!(handler.release_all_keys().is_empty());
    assert!(handler.held_keys.is_empty());
    assert_eq!(rx.try_recv().unwrap(), None);
}

#[test]
fn handler_drops_events_for_missing_devices_and_full_channels() {
    let (tx, rx) = kanal::bounded::<InputCommand>(1);
    let cap = Capability { keyboard: true, mouse: false, multitouch: false };
    let mut handler = InputHandler::new(Some(tx), None, cap);
    assert_eq!(handler.set_abs_position(1, 2), None);
    assert_eq!(handler.rel_motion(1, 2), None);
    assert_eq!(handler.press_mouse_button(1, PressAction::Press), None);
    assert_eq!(handler.touch(Kind::Begin, 0, 0, 0), None);
    assert!(handler.scroll_mouse(4).is_empty());

    assert_eq!(handler.press_keyboard(13, PressAction::Press), Some((InputCommand::KbdPress(Qnum(5)), SendOutcome::Sent)));
    assert_eq!(handler.press_keyboard(14, PressAction::Press), Some((InputCommand::KbdPress(Qnum(6)), SendOutcome::Full)));
    assert_eq!(handler.held_keys.len(), 1);
    drop(rx);
    assert_eq!(handler.press_keyboard(15, PressAction::Press), Some((InputCommand::KbdPress(Qnum(7)), SendOutcome::Closed)));
    assert_eq!(handler.held_keys.len(), 1);

    let mut no_channel = InputHandler::new(None, None, Capability::default());
    assert_eq!(no_channel.press_keyboard(13, PressAction::Press), None);
    assert!(no_channel.release_all_keys().is_empty());
    assert!(no_channel.input_cmd_tx().is_none());
}

#[test]
fn handler_mouse_commands_reach_the_channel() {
    let (tx, rx) = kanal::bounded::<InputCommand>(16);
    let (wtx, wrx) = kanal::bounded_async::<WatchCommand>(2);
    let mut handler = InputHandler::new(Some(tx), Some(wtx), Capability::default());
    assert_eq!(handler.set_abs_position(10, 20), Some((InputCommand::MouseSetAbs(10, 20), SendOutcome::Sent)));
    assert_eq!(handler.rel_motion(-1, 2), Some((InputCommand::MouseRel(-1, 2), SendOutcome::Sent)));
    assert_eq!(handler.press_mouse_button(3, PressAction::Release), Some((InputCommand::MouseRelease(Button::Right), SendOutcome::Sent)));
    assert_eq!(handler.press_mouse_button(6, PressAction::Press), None);
    assert_eq!(
        handler.scroll_mouse(-1),
        vec![(InputCommand::MousePress(Button::WheelUp), SendOutcome::Sent), (InputCommand::MouseRelease(Button::WheelUp), SendOutcome::Sent)]
    );
    assert_eq!(rx.try_recv().unwrap(), Some(InputCommand::MouseSetAbs(10, 20)));
    assert_eq!(rx.try_recv().unwrap(), Some(InputCommand::MouseRel(-1, 2)));
    assert_eq!(rx.try_recv().unwrap(), Some(InputCommand::MouseRelease(Button::Right)));
    assert_eq!(rx.try_recv().unwrap(), Some(InputCommand::MousePress(Button::WheelUp)));
    assert_eq!(rx.try_recv().unwrap(), Some(InputCommand::MouseRelease(Button::WheelUp)));

    let touch = InputCommand::Touch { kind: Kind::Begin, num_slot: 1, x_bits: 2, y_bits: 3 };
    assert_eq!(handler.touch(Kind::Begin, 1, 2, 3), Some((touch, SendOutcome::Sent)));
    assert_eq!(rx.try_recv().unwrap(), Some(touch));

    let cap = Capability { keyboard: false, mouse: true, multitouch: true };
    assert_eq!(handler.update_capabilities(cap), Some((WatchCommand::Update(cap), SendOutcome::Sent)));
    assert_eq!(handler.capability, cap);
    assert_eq!(wrx.as_sync().try_recv().unwrap(), Some(WatchCommand::Update(cap)));
    handler.set_mouse_mode(true);
    assert!(handler.is_absolute);
}

#[test]
fn scroll_sends_press_release_pairs_of_one_wheel_button() {
    let (tx, rx) = kanal::bounded::<InputCommand>(16);
    let mut handler = InputHandler::new(Some(tx), None, Capability::default());
    let sent = handler.scroll_mouse(3);
    let commands: Vec<InputCommand> = sent.iter().map(|s| s.0).collect();
    let pair = [InputCommand::MousePress(Button::WheelDown), InputCommand::MouseRelease(Button::WheelDown)];
    assert_eq!(commands, [pair, pair, pair].concat());
    for command in commands {
        assert_eq!(rx.try_recv().unwrap(), Some(command));
    }
    assert!(handler.scroll_mouse(0).is_empty());
    assert_eq!(rx.try_recv().unwrap(), None);
}

#[test]
fn keycodes_translate_to_qemu_numbers() {
    assert_eq!(Qnum::from_xorg_keycode(9), Qnum(1));
    assert_eq!(Qnum::from_xorg_keycode(38), Qnum(30));
    assert_eq!(Qnum::from_xorg_keycode(96), Qnum(88));
    assert_eq!(Qnum::from_xorg_keycode(104), Qnum(0x9c));
    assert_eq!(Qnum::from_xorg_keycode(105), Qnum(0x9d));
    assert_eq!(Qnum::from_xorg_keycode(108), Qnum(0xb8));
    assert_eq!(Qnum::from_xorg_keycode(110), Qnum(0xc7));
    assert_eq!(Qnum::from_xorg_keycode(111), Qnum(0xc8));
    assert_eq!(Qnum::from_xorg_keycode(113), Qnum(0xcb));
    assert_eq!(Qnum::from_xorg_keycode(114), Qnum(0xcd));
    assert_eq!(Qnum::from_xorg_keycode(115), Qnum(0xcf));
    assert_eq!(Qnum::from_xorg_keycode(116), Qnum(0xd0));
    assert_eq!(Qnum::from_xorg_keycode(119), Qnum(0xd3));
    assert_eq!(Qnum::from_xorg_keycode(133), Qnum(0xdb));
    for unmapped in [0, 8, 92, 93, 97, 109, 120, 126, 255] {
        assert!(Qnum::from_xorg_keycode(unmapped).is_unmapped());
    }
    let (tx, rx) = kanal::bounded::<InputCommand>(4);
    let mut handler = InputHandler::new(Some(tx), None, Capability::default());
    assert_eq!(handler.press_keyboard(200, PressAction::Press), None);
    assert_eq!(rx.try_recv().unwrap(), None);
}

#[test]
fn event_commands_follow_the_transition() {
    assert_eq!(key_command(Qnum(30), PressAction::Press), InputCommand::KbdPress(Qnum(30)));
    assert_eq!(key_command(Qnum(30), PressAction::Release), InputCommand::KbdRelease(Qnum(30)));
    assert_eq!(button_command(Button::Left, PressAction::Press), InputCommand::MousePress(Button::Left));
    assert_eq!(button_command(Button::Left, PressAction::Release), InputCommand::MouseRelease(Button::Left));
}
