use libmks_rs::dbus::keyboard::{LockState, PressAction, CAPS, NUM, SCROLL};
use libmks_rs::dbus::listener::{
    Blob, Event, Listener, Options, IFACE_DISPLAY_LISTENER, IFACE_SCANOUT_DMABUF2, IFACE_SCANOUT_MAP,
};
use libmks_rs::dbus::mouse::Button;
use libmks_rs::dbus::multitouch::Kind;

#[test]
fn xorg_buttons_map_to_qemu_buttons() {
    assert_eq!(Button::from_xorg(1), Some(Button::Left));
    assert_eq!(Button::from_xorg(2), Some(Button::Middle));
    assert_eq!(Button::from_xorg(3), Some(Button::Right));
    assert_eq!(Button::from_xorg(4), Some(Button::WheelUp));
    assert_eq!(Button::from_xorg(5), Some(Button::WheelDown));
    assert_eq!(Button::from_xorg(8), Some(Button::Side));
    assert_eq!(Button::from_xorg(9), Some(Button::Extra));
    for code in [0, 6, 7, 10, u32::MAX] {
        assert_eq!(Button::from_xorg(code), None);
    }
}

#[test]
fn wire_codes() {
    assert_eq!(Button::Left.wire_code(), 0);
    assert_eq!(Button::WheelDown.wire_code(), 4);
    assert_eq!(Button::Extra.wire_code(), 6);
    assert_eq!(Kind::Begin.wire_code(), 0);
    assert_eq!(Kind::Cancel.wire_code(), 3);
}

#[test]
fn press_action_names() {
    assert_eq!(PressAction::Press.as_str(), "press");
    assert_eq!(PressAction::Release.as_str(), "release");
}

#[test]
fn lock_state_bits() {
    let s = LockState::from_bits_retain(NUM | CAPS | 0x80);
    assert_eq!(s.bits(), 0x86);
    assert!(s.contains(NUM));
    assert!(s.contains(NUM | CAPS));
    assert!(!s.contains(SCROLL));
}

#[test]
fn listener_interfaces_follow_options() {
    let (tx, _rx) = kanal::bounded_async::<Event>(4);
    let l = Listener::from_opts(Options::new(), tx.clone());
    assert_eq!(l.ifaces, vec![IFACE_DISPLAY_LISTENER, IFACE_SCANOUT_DMABUF2]);
    let l = Listener::from_opts(Options::default().with_dmabuf2(false).with_map(true), tx.clone());
    assert_eq!(l.ifaces, vec![IFACE_DISPLAY_LISTENER, IFACE_SCANOUT_MAP]);
    let l = Listener::from_opts(Options::new().with_map(true), tx);
    assert_eq!(l.ifaces, vec![IFACE_DISPLAY_LISTENER, IFACE_SCANOUT_DMABUF2, IFACE_SCANOUT_MAP]);
    assert_eq!(IFACE_DISPLAY_LISTENER, "org.qemu.Display1.Listener");
}

#[test]
fn blob_conversions() {
    let b = Blob::from(vec![1u8, 2, 3]);
    assert_eq!(b.len(), 3);
    assert_eq!(b.as_slice(), &[1, 2, 3]);
    let v: Vec<u8> = b.into();
    assert_eq!(v, vec![1, 2, 3]);
}
