use vstd::prelude::*;

verus! {

/// A QEMU key number (`qnum`), the keyboard code the `org.qemu.Display1.Keyboard`
/// interface takes on the wire. The number 0 names no key.
#[derive(Debug, Clone, Copy, PartialEq, Eq, Hash, Structural)]
pub struct Qnum(pub u32);

/// The QEMU key number of an X11 keycode, 0 when it has none here.
///
/// X11 keycodes are Linux evdev codes plus 8, and QEMU numbers are PC scancodes (set 1),
/// with `0x80` added for the keys that take the `0xE0` prefix. For the main key block
/// (evdev 1 to 83) and for evdev 86 to 88 (the extra ISO key, F11, F12) the QEMU number
/// is the evdev code itself. The keys outside the main block that a PC keyboard has (the
/// keypad Enter and slash, the right-hand modifiers, the navigation and arrow keys, the
/// system keys and the media keys) have their scancodes. Every other keycode is reported
/// as unmapped.
pub open spec fn spec_qnum_of_xorg(keycode: u32) -> u32 {
    if 9 <= keycode <= 91 || 94 <= keycode <= 96 {
        (keycode - 8) as u32
    } else {
        spec_qnum_of_xorg_extended(keycode)
    }
}

/// The QEMU number of an X11 keycode outside the main key block; see
/// [`spec_qnum_of_xorg`].
pub open spec fn spec_qnum_of_xorg_extended(keycode: u32) -> u32 {
    match keycode {
        104 => 0x9c,  // keypad Enter
        105 => 0x9d,  // right Ctrl
        106 => 0xb5,  // keypad slash
        107 => 0x54,  // SysRq
        108 => 0xb8,  // right Alt
        110 => 0xc7,  // Home
        111 => 0xc8,  // Up
        112 => 0xc9,  // Page Up
        113 => 0xcb,  // Left
        114 => 0xcd,  // Right
        115 => 0xcf,  // End
        116 => 0xd0,  // Down
        117 => 0xd1,  // Page Down
        118 => 0xd2,  // Insert
        119 => 0xd3,  // Delete
        121 => 0xa0,  // Mute
        122 => 0xae,  // Volume Down
        123 => 0xb0,  // Volume Up
        124 => 0xde,  // Power
        125 => 0x59,  // keypad equals
        127 => 0xc6,  // Pause
        133 => 0xdb,  // left Meta
        134 => 0xdc,  // right Meta
        135 => 0xdd,  // Compose (menu)
        _ => 0,
    }
}

impl Qnum {
    /// Translates an X11 keycode to a QEMU key number; see [`spec_qnum_of_xorg`].
    pub fn from_xorg_keycode(keycode: u32) -> (r: Qnum)
        ensures
            r.0 == spec_qnum_of_xorg(keycode),
    {
        if (9 <= keycode && keycode <= 91) || (94 <= keycode && keycode <= 96) {
            return Qnum(keycode - 8);
        }
        let qnum: u32 = match keycode {
            104 => 0x9c,
            105 => 0x9d,
            106 => 0xb5,
            107 => 0x54,
            108 => 0xb8,
            110 => 0xc7,
            111 => 0xc8,
            112 => 0xc9,
            113 => 0xcb,
            114 => 0xcd,
            115 => 0xcf,
            116 => 0xd0,
            117 => 0xd1,
            118 => 0xd2,
            119 => 0xd3,
            121 => 0xa0,
            122 => 0xae,
            123 => 0xb0,
            124 => 0xde,
            125 => 0x59,
            127 => 0xc6,
            133 => 0xdb,
            134 => 0xdc,
            135 => 0xdd,
            _ => 0,
        };
        Qnum(qnum)
    }

    /// Whether the number names no key.
    pub fn is_unmapped(&self) -> (r: bool)
        ensures
            r == (self.0 == 0),
    {
        self.0 == 0
    }
}

} // verus!
