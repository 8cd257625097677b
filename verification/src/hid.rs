//! HID (Human Interface Device) Keyboard Support
//!
//! Implements the USB HID boot protocol for keyboards. The boot protocol is a
//! simplified 8-byte report format that does not require parsing HID report
//! descriptors, making it ideal for early-boot keyboard support.
//!
//! Boot protocol keyboard report (8 bytes):
//! - Byte 0: Modifier keys (bitmap)
//! - Byte 1: Reserved (always 0)
//! - Bytes 2-7: Up to 6 simultaneous keycodes (USB HID Usage IDs)
use vstd::prelude::*;
use std::collections::VecDeque;
use crate::fields::{field, get_field32};

verus! {

// ---------------------------------------------------------------------------
// HID Class-specific requests
// ---------------------------------------------------------------------------

/// HID class request: GET_REPORT
pub const HID_REQ_GET_REPORT: u8 = 0x01;
/// HID class request: GET_IDLE
pub const HID_REQ_GET_IDLE: u8 = 0x02;
/// HID class request: GET_PROTOCOL
pub const HID_REQ_GET_PROTOCOL: u8 = 0x03;
/// HID class request: SET_REPORT
pub const HID_REQ_SET_REPORT: u8 = 0x09;
/// HID class request: SET_IDLE
pub const HID_REQ_SET_IDLE: u8 = 0x0A;
/// HID class request: SET_PROTOCOL
pub const HID_REQ_SET_PROTOCOL: u8 = 0x0B;

/// Protocol values for SET_PROTOCOL
pub const HID_PROTOCOL_BOOT: u16 = 0;
pub const HID_PROTOCOL_REPORT: u16 = 1;

/// bmRequestType of a HID class request to an interface, host to device
/// (direction OUT, type class, recipient interface).
pub const HID_CLASS_INTERFACE_OUT: u8 = 0x21;

// ---------------------------------------------------------------------------
// Modifier key bits (byte 0 of boot protocol report)
// ---------------------------------------------------------------------------

pub const MOD_LEFT_CTRL: u8 = 0x01;
pub const MOD_LEFT_SHIFT: u8 = 0x02;
pub const MOD_LEFT_ALT: u8 = 0x04;
pub const MOD_LEFT_GUI: u8 = 0x08;
pub const MOD_RIGHT_CTRL: u8 = 0x10;
pub const MOD_RIGHT_SHIFT: u8 = 0x20;
pub const MOD_RIGHT_ALT: u8 = 0x40;
pub const MOD_RIGHT_GUI: u8 = 0x80;

// ---------------------------------------------------------------------------
// USB HID Usage ID to PS/2-style scancode mapping
// ---------------------------------------------------------------------------

/// A keyboard event produced by parsing a HID boot protocol report.
#[derive(Debug, Clone, Copy, PartialEq, Eq, Structural)]
pub struct KeyEvent {
    /// The USB HID Usage ID (keycode)
    pub usage_id: u8,
    /// PS/2 scancode equivalent (for compatibility with pc-keyboard crate)
    pub scancode: u8,
    /// true = key pressed, false = key released
    pub pressed: bool,
    /// Modifier state at the time of the event
    pub modifiers: u8,
}

/// USB HID Usage ID to PS/2 Set 1 scancode lookup table.
/// Index = USB HID Usage ID, Value = PS/2 Make code (0 = unmapped).
///
/// Based on USB HID Usage Tables 1.4, Section 10 "Keyboard/Keypad Page (0x07)"
/// and PS/2 Scan Code Set 1.
pub const HID_TO_SCANCODE: [u8; 128] = [
    // 0x00-0x03: No Event, Error Roll Over, POST Fail, Error Undefined
    0x00, 0x00, 0x00, 0x00,
    // 0x04: A, 0x05: B, 0x06: C, 0x07: D
    0x1E, 0x30, 0x2E, 0x20,
    // 0x08: E, 0x09: F, 0x0A: G, 0x0B: H
    0x12, 0x21, 0x22, 0x23,
    // 0x0C: I, 0x0D: J, 0x0E: K, 0x0F: L
    0x17, 0x24, 0x25, 0x26,
    // 0x10: M, 0x11: N, 0x12: O, 0x13: P
    0x32, 0x31, 0x18, 0x19,
    // 0x14: Q, 0x15: R, 0x16: S, 0x17: T
    0x10, 0x13, 0x1F, 0x14,
    // 0x18: U, 0x19: V, 0x1A: W, 0x1B: X
    0x16, 0x2F, 0x11, 0x2D,
    // 0x1C: Y, 0x1D: Z, 0x1E: 1, 0x1F: 2
    0x15, 0x2C, 0x02, 0x03,
    // 0x20: 3, 0x21: 4, 0x22: 5, 0x23: 6
    0x04, 0x05, 0x06, 0x07,
    // 0x24: 7, 0x25: 8, 0x26: 9, 0x27: 0
    0x08, 0x09, 0x0A, 0x0B,
    // 0x28: Enter, 0x29: Escape, 0x2A: Backspace, 0x2B: Tab
    0x1C, 0x01, 0x0E, 0x0F,
    // 0x2C: Space, 0x2D: Minus, 0x2E: Equal, 0x2F: Left Bracket
    0x39, 0x0C, 0x0D, 0x1A,
    // 0x30: Right Bracket, 0x31: Backslash, 0x32: Non-US #, 0x33: Semicolon
    0x1B, 0x2B, 0x2B, 0x27,
    // 0x34: Apostrophe, 0x35: Grave Accent, 0x36: Comma, 0x37: Period
    0x28, 0x29, 0x33, 0x34,
    // 0x38: Slash, 0x39: Caps Lock, 0x3A: F1, 0x3B: F2
    0x35, 0x3A, 0x3B, 0x3C,
    // 0x3C: F3, 0x3D: F4, 0x3E: F5, 0x3F: F6
    0x3D, 0x3E, 0x3F, 0x40,
    // 0x40: F7, 0x41: F8, 0x42: F9, 0x43: F10
    0x41, 0x42, 0x43, 0x44,
    // 0x44: F11, 0x45: F12, 0x46: Print Screen, 0x47: Scroll Lock
    0x57, 0x58, 0x00, 0x46,
    // 0x48: Pause, 0x49: Insert, 0x4A: Home, 0x4B: Page Up
    0x00, 0x52, 0x47, 0x49,
    // 0x4C: Delete, 0x4D: End, 0x4E: Page Down, 0x4F: Right Arrow
    0x53, 0x4F, 0x51, 0x4D,
    // 0x50: Left Arrow, 0x51: Down Arrow, 0x52: Up Arrow, 0x53: Num Lock
    0x4B, 0x50, 0x48, 0x45,
    // 0x54: KP /, 0x55: KP *, 0x56: KP -, 0x57: KP +
    0x35, 0x37, 0x4A, 0x4E,
    // 0x58: KP Enter, 0x59: KP 1, 0x5A: KP 2, 0x5B: KP 3
    0x1C, 0x4F, 0x50, 0x51,
    // 0x5C: KP 4, 0x5D: KP 5, 0x5E: KP 6, 0x5F: KP 7
    0x4B, 0x4C, 0x4D, 0x47,
    // 0x60: KP 8, 0x61: KP 9, 0x62: KP 0, 0x63: KP .
    0x48, 0x49, 0x52, 0x53,
    // 0x64: Non-US \, 0x65: Application, 0x66: Power, 0x67: KP =
    0x56, 0x00, 0x00, 0x00,
    // 0x68-0x6B: F13-F16
    0x00, 0x00, 0x00, 0x00,
    // 0x6C-0x6F: F17-F20
    0x00, 0x00, 0x00, 0x00,
    // 0x70-0x73: F21-F24
    0x00, 0x00, 0x00, 0x00,
    // 0x74-0x77: Execute, Help, Menu, Select
    0x00, 0x00, 0x00, 0x00,
    // 0x78-0x7B: Stop, Again, Undo, Cut
    0x00, 0x00, 0x00, 0x00,
    // 0x7C-0x7F: Copy, Paste, Find, Mute
    0x00, 0x00, 0x00, 0x00,
];

/// The PS/2 scancode of a USB HID Usage ID: the table entry, or 0 beyond the table.
pub open spec fn scancode_of(usage_id: u8) -> u8 {
    if usage_id < 128 {
        HID_TO_SCANCODE@[usage_id as int]
    } else {
        0
    }
}

/// Convert a USB HID Usage ID to a PS/2 scancode.
pub fn hid_usage_to_scancode(usage_id: u8) -> (r: u8)
    ensures
        r == scancode_of(usage_id),
{
    if (usage_id as usize) < HID_TO_SCANCODE.len() {
        HID_TO_SCANCODE[usage_id as usize]
    } else {
        0
    }
}

// ---------------------------------------------------------------------------
// Boot protocol report parser
// ---------------------------------------------------------------------------

/// Boot protocol keyboard report: 8 bytes.
#[derive(Debug, Clone, Copy, PartialEq, Eq)]
pub struct BootKeyboardReport {
    /// Modifier keys bitmap
    pub modifiers: u8,
    /// Reserved byte (should be 0)
    pub reserved: u8,
    /// Up to 6 keycodes currently pressed
    pub keycodes: [u8; 6],
}

/// The report held by the first 8 bytes of `buf`.
pub open spec fn report_of(buf: Seq<u8>) -> BootKeyboardReport {
    BootKeyboardReport {
        modifiers: buf[0],
        reserved: buf[1],
        keycodes: [buf[2], buf[3], buf[4], buf[5], buf[6], buf[7]],
    }
}

impl BootKeyboardReport {
    /// All six keycodes are 0x01 (ErrorRollOver): the keyboard reports a phantom state.
    pub open spec fn spec_is_rollover(self) -> bool {
        forall|i: int| 0 <= i < 6 ==> self.keycodes@[i] == 1
    }

    /// Parse from an 8-byte buffer.
    pub fn parse(buf: &[u8]) -> (r: Option<Self>)
        ensures
            r is None <==> buf@.len() < 8,
            r matches Some(rep) ==> {
                &&& rep == report_of(buf@)
                &&& rep.modifiers == buf@[0]
                &&& rep.reserved == buf@[1]
                &&& rep.keycodes@ == buf@.subrange(2, 8)
            },
    {
        if buf.len() < 8 {
            return None;
        }
        let rep = Self {
            modifiers: buf[0],
            reserved: buf[1],
            keycodes: [buf[2], buf[3], buf[4], buf[5], buf[6], buf[7]],
        };
        assert(rep.keycodes@ =~= buf@.subrange(2, 8));
        Some(rep)
    }

    /// Check for phantom/rollover condition (all keycodes = 0x01)
    pub fn is_rollover(&self) -> (r: bool)
        ensures
            r == self.spec_is_rollover(),
    {
        let mut i: usize = 0;
        while i < 6
            invariant
                i <= 6,
                forall|j: int| 0 <= j < i ==> self.keycodes@[j] == 1,
            decreases 6 - i,
        {
            if self.keycodes[i] != 0x01 {
                return false;
            }
            i = i + 1;
        }
        true
    }

    /// Check if a specific keycode is present in this report
    pub fn has_keycode(&self, code: u8) -> (r: bool)
        ensures
            r == self.keycodes@.contains(code),
    {
        let mut i: usize = 0;
        while i < 6
            invariant
                i <= 6,
                forall|j: int| 0 <= j < i ==> self.keycodes@[j] != code,
            decreases 6 - i,
        {
            if self.keycodes[i] == code {
                assert(self.keycodes@[i as int] == code);
                return true;
            }
            i = i + 1;
        }
        false
    }
}

// ---------------------------------------------------------------------------
// Key event generation
// ---------------------------------------------------------------------------

/// Modifier bit `i` of the modifier byte (Left Ctrl, Left Shift, Left Alt,
/// Left GUI, Right Ctrl, Right Shift, Right Alt, Right GUI).
pub open spec fn modifier_bit(i: int) -> u8 {
    seq![
        MOD_LEFT_CTRL,
        MOD_LEFT_SHIFT,
        MOD_LEFT_ALT,
        MOD_LEFT_GUI,
        MOD_RIGHT_CTRL,
        MOD_RIGHT_SHIFT,
        MOD_RIGHT_ALT,
        MOD_RIGHT_GUI,
    ][i]
}

/// USB HID Usage ID of modifier `i`: 0xE0 (Left Ctrl) through 0xE7 (Right GUI).
pub open spec fn modifier_usage(i: int) -> u8 {
    (0xE0 + i) as u8
}

/// PS/2 scancode of modifier `i` (0 where set 1 has no base equivalent).
pub open spec fn modifier_scancode(i: int) -> u8 {
    seq![0x1Du8, 0x2A, 0x38, 0x00, 0x1D, 0x36, 0x38, 0x00][i]
}

/// Whether modifier `i` is held in the modifier byte `mods`.
pub open spec fn modifier_held(mods: u8, i: int) -> bool {
    field(mods as int, modifier_bit(i) as int, 2) == 1
}

/// The events for modifiers 0..n whose state differs between `old_mods` and
/// `new_mods`, in modifier order: pressed if held in `new_mods`, else released.
pub open spec fn modifier_events(old_mods: u8, new_mods: u8, n: int) -> Seq<KeyEvent>
    decreases n,
{
    if n <= 0 {
        seq![]
    } else {
        let prev = modifier_events(old_mods, new_mods, n - 1);
        let i = n - 1;
        if modifier_held(old_mods, i) != modifier_held(new_mods, i) {
            prev.push(
                KeyEvent {
                    usage_id: modifier_usage(i),
                    scancode: modifier_scancode(i),
                    pressed: modifier_held(new_mods, i),
                    modifiers: new_mods,
                },
            )
        } else {
            prev
        }
    }
}

/// A key event for usage `key`.
pub open spec fn key_event(key: u8, pressed: bool, mods: u8) -> KeyEvent {
    KeyEvent { usage_id: key, scancode: scancode_of(key), pressed, modifiers: mods }
}

/// Release events for the first `n` keycodes of `prev` that are nonzero and
/// absent from `cur`, in keycode order.
pub open spec fn released_keys(prev: Seq<u8>, cur: Seq<u8>, mods: u8, n: int) -> Seq<KeyEvent>
    decreases n,
{
    if n <= 0 {
        seq![]
    } else {
        let before = released_keys(prev, cur, mods, n - 1);
        let k = prev[n - 1];
        if k != 0 && !cur.contains(k) {
            before.push(key_event(k, false, mods))
        } else {
            before
        }
    }
}

/// Press events for the first `n` keycodes of `cur` that are nonzero and absent
/// from `prev`, in keycode order.
pub open spec fn pressed_keys(prev: Seq<u8>, cur: Seq<u8>, mods: u8, n: int) -> Seq<KeyEvent>
    decreases n,
{
    if n <= 0 {
        seq![]
    } else {
        let before = pressed_keys(prev, cur, mods, n - 1);
        let k = cur[n - 1];
        if k != 0 && !prev.contains(k) {
            before.push(key_event(k, true, mods))
        } else {
            before
        }
    }
}

/// The events that a report produces after `prev`: modifier changes, then
/// released keys, then pressed keys; each carries the new report's modifiers.
pub open spec fn report_events(prev: BootKeyboardReport, report: BootKeyboardReport) -> Seq<
    KeyEvent,
> {
    modifier_events(prev.modifiers, report.modifiers, 8) + released_keys(
        prev.keycodes@,
        report.keycodes@,
        report.modifiers,
        6,
    ) + pressed_keys(prev.keycodes@, report.keycodes@, report.modifiers, 6)
}

/// The report before any key is pressed.
pub open spec fn empty_report() -> BootKeyboardReport {
    BootKeyboardReport { modifiers: 0, reserved: 0, keycodes: [0u8, 0, 0, 0, 0, 0] }
}

proof fn lemma_modifier_events_same(mods: u8, n: int)
    ensures
        modifier_events(mods, mods, n) == Seq::<KeyEvent>::empty(),
    decreases n,
{
    if n > 0 {
        lemma_modifier_events_same(mods, n - 1);
    }
}

proof fn lemma_key_events_same(keys: Seq<u8>, mods: u8, n: int)
    requires
        n <= keys.len(),
    ensures
        released_keys(keys, keys, mods, n) == Seq::<KeyEvent>::empty(),
        pressed_keys(keys, keys, mods, n) == Seq::<KeyEvent>::empty(),
    decreases n,
{
    if n > 0 {
        lemma_key_events_same(keys, mods, n - 1);
        assert(keys.contains(keys[n - 1]));
    }
}

/// A report that repeats the previous one produces no event.
pub proof fn lemma_repeated_report_no_events(report: BootKeyboardReport)
    ensures
        report_events(report, report) == Seq::<KeyEvent>::empty(),
{
    lemma_modifier_events_same(report.modifiers, 8);
    lemma_key_events_same(report.keycodes@, report.modifiers, 6);
    assert(report_events(report, report) =~= Seq::<KeyEvent>::empty());
}

proof fn lemma_modifier_events_carry(old_mods: u8, new_mods: u8, n: int)
    ensures
        forall|i: int|
            0 <= i < modifier_events(old_mods, new_mods, n).len() ==> (#[trigger] modifier_events(
                old_mods,
                new_mods,
                n,
            )[i]).modifiers == new_mods,
    decreases n,
{
    if n > 0 {
        lemma_modifier_events_carry(old_mods, new_mods, n - 1);
        let prev = modifier_events(old_mods, new_mods, n - 1);
        let cur = modifier_events(old_mods, new_mods, n);
        assert forall|i: int| 0 <= i < cur.len() implies (#[trigger] cur[i]).modifiers == new_mods by {
            if i < prev.len() {
                assert(cur[i] == prev[i]);
            }
        }
    }
}

proof fn lemma_key_events_carry(prev: Seq<u8>, cur: Seq<u8>, mods: u8, n: int)
    ensures
        forall|i: int|
            0 <= i < released_keys(prev, cur, mods, n).len() ==> {
                &&& (#[trigger] released_keys(prev, cur, mods, n)[i]).modifiers == mods
                &&& !released_keys(prev, cur, mods, n)[i].pressed
                &&& released_keys(prev, cur, mods, n)[i].usage_id != 0
                &&& !cur.contains(released_keys(prev, cur, mods, n)[i].usage_id)
            },
        forall|i: int|
            0 <= i < pressed_keys(prev, cur, mods, n).len() ==> {
                &&& (#[trigger] pressed_keys(prev, cur, mods, n)[i]).modifiers == mods
                &&& pressed_keys(prev, cur, mods, n)[i].pressed
                &&& pressed_keys(prev, cur, mods, n)[i].usage_id != 0
                &&& !prev.contains(pressed_keys(prev, cur, mods, n)[i].usage_id)
            },
    decreases n,
{
    if n > 0 {
        lemma_key_events_carry(prev, cur, mods, n - 1);
        let r0 = released_keys(prev, cur, mods, n - 1);
        let r1 = released_keys(prev, cur, mods, n);
        assert forall|i: int| 0 <= i < r1.len() implies {
            &&& (#[trigger] r1[i]).modifiers == mods
            &&& !r1[i].pressed
            &&& r1[i].usage_id != 0
            &&& !cur.contains(r1[i].usage_id)
        } by {
            if i < r0.len() {
                assert(r1[i] == r0[i]);
            }
        }
        let p0 = pressed_keys(prev, cur, mods, n - 1);
        let p1 = pressed_keys(prev, cur, mods, n);
        assert forall|i: int| 0 <= i < p1.len() implies {
            &&& (#[trigger] p1[i]).modifiers == mods
            &&& p1[i].pressed
            &&& p1[i].usage_id != 0
            &&& !prev.contains(p1[i].usage_id)
        } by {
            if i < p0.len() {
                assert(p1[i] == p0[i]);
            }
        }
    }
}

/// Every event a report produces carries that report's modifier byte; a key
/// event releases a nonzero key that the report no longer holds, or presses a
/// nonzero key that the previous report did not hold.
pub proof fn lemma_report_events_shape(prev: BootKeyboardReport, report: BootKeyboardReport)
    ensures
        forall|i: int|
            0 <= i < report_events(prev, report).len() ==> (#[trigger] report_events(
                prev,
                report,
            )[i]).modifiers == report.modifiers,
        forall|i: int|
            0 <= i < report_events(prev, report).len() && (#[trigger] report_events(
                prev,
                report,
            )[i]).usage_id < 0xE0 ==> {
                let e = report_events(prev, report)[i];
                &&& e.usage_id != 0
                &&& e.scancode == scancode_of(e.usage_id)
                &&& e.pressed ==> report.keycodes@.contains(e.usage_id) && !prev.keycodes@.contains(
                    e.usage_id,
                )
                &&& !e.pressed ==> prev.keycodes@.contains(e.usage_id)
                    && !report.keycodes@.contains(e.usage_id)
            },
{
    let m = modifier_events(prev.modifiers, report.modifiers, 8);
    let r = released_keys(prev.keycodes@, report.keycodes@, report.modifiers, 6);
    let p = pressed_keys(prev.keycodes@, report.keycodes@, report.modifiers, 6);
    lemma_modifier_events_carry(prev.modifiers, report.modifiers, 8);
    lemma_key_events_carry(prev.keycodes@, report.keycodes@, report.modifiers, 6);
    lemma_key_events_members(prev.keycodes@, report.keycodes@, report.modifiers, 6);
    lemma_modifier_events_usage(prev.modifiers, report.modifiers, 8);
    assert(report_events(prev, report) == m + r + p);
}

proof fn lemma_modifier_events_usage(old_mods: u8, new_mods: u8, n: int)
    requires
        n <= 8,
    ensures
        forall|i: int|
            0 <= i < modifier_events(old_mods, new_mods, n).len() ==> (#[trigger] modifier_events(
                old_mods,
                new_mods,
                n,
            )[i]).usage_id >= 0xE0,
    decreases n,
{
    if n > 0 {
        lemma_modifier_events_usage(old_mods, new_mods, n - 1);
        let prev = modifier_events(old_mods, new_mods, n - 1);
        let cur = modifier_events(old_mods, new_mods, n);
        assert forall|i: int| 0 <= i < cur.len() implies (#[trigger] cur[i]).usage_id >= 0xE0 by {
            if i < prev.len() {
                assert(cur[i] == prev[i]);
            } else {
                assert(cur[i].usage_id == modifier_usage(n - 1));
            }
        }
    }
}

proof fn lemma_key_events_members(prev: Seq<u8>, cur: Seq<u8>, mods: u8, n: int)
    requires
        n <= prev.len(),
        n <= cur.len(),
    ensures
        forall|i: int|
            0 <= i < released_keys(prev, cur, mods, n).len() ==> {
                &&& prev.contains((#[trigger] released_keys(prev, cur, mods, n)[i]).usage_id)
                &&& released_keys(prev, cur, mods, n)[i].scancode == scancode_of(
                    released_keys(prev, cur, mods, n)[i].usage_id,
                )
            },
        forall|i: int|
            0 <= i < pressed_keys(prev, cur, mods, n).len() ==> {
                &&& cur.contains((#[trigger] pressed_keys(prev, cur, mods, n)[i]).usage_id)
                &&& pressed_keys(prev, cur, mods, n)[i].scancode == scancode_of(
                    pressed_keys(prev, cur, mods, n)[i].usage_id,
                )
            },
    decreases n,
{
    if n > 0 {
        lemma_key_events_members(prev, cur, mods, n - 1);
        assert(prev.contains(prev[n - 1]));
        assert(cur.contains(cur[n - 1]));
        let r0 = released_keys(prev, cur, mods, n - 1);
        let r1 = released_keys(prev, cur, mods, n);
        assert forall|i: int| 0 <= i < r1.len() implies prev.contains((#[trigger] r1[i]).usage_id)
            && r1[i].scancode == scancode_of(r1[i].usage_id) by {
            if i < r0.len() {
                assert(r1[i] == r0[i]);
            }
        }
        let p0 = pressed_keys(prev, cur, mods, n - 1);
        let p1 = pressed_keys(prev, cur, mods, n);
        assert forall|i: int| 0 <= i < p1.len() implies cur.contains((#[trigger] p1[i]).usage_id)
            && p1[i].scancode == scancode_of(p1[i].usage_id) by {
            if i < p0.len() {
                assert(p1[i] == p0[i]);
            }
        }
    }
}

// ---------------------------------------------------------------------------
// Keyboard state tracker
// ---------------------------------------------------------------------------

/// Tracks keyboard state across reports and generates press/release events
/// by diffing consecutive reports.
pub struct KeyboardState {
    /// Previous report (for diffing)
    prev_report: BootKeyboardReport,
    /// Queue of events to be consumed by the kernel
    event_queue: VecDeque<KeyEvent>,
}

impl KeyboardState {
    /// The last report taken into account.
    pub closed spec fn spec_prev_report(self) -> BootKeyboardReport {
        self.prev_report
    }

    /// The events not yet consumed, oldest first.
    pub closed spec fn spec_events(self) -> Seq<KeyEvent> {
        self.event_queue@
    }

    /// Create a new keyboard state tracker.
    pub fn new() -> (r: Self)
        ensures
            r.spec_prev_report() == empty_report(),
            r.spec_events() == Seq::<KeyEvent>::empty(),
    {
        Self {
            prev_report: BootKeyboardReport { modifiers: 0, reserved: 0, keycodes: [0u8, 0, 0, 0, 0, 0] },
            event_queue: VecDeque::new(),
        }
    }

    /// Process a new HID boot protocol report and generate key events.
    /// A rollover report is ignored.
    pub fn process_report(&mut self, report: &BootKeyboardReport)
        ensures
            report.spec_is_rollover() ==> {
                &&& final(self).spec_prev_report() == old(self).spec_prev_report()
                &&& final(self).spec_events() == old(self).spec_events()
            },
            !report.spec_is_rollover() ==> {
                &&& final(self).spec_prev_report() == *report
                &&& final(self).spec_events() == old(self).spec_events() + report_events(
                    old(self).spec_prev_report(),
                    *report,
                )
            },
    {
        if report.is_rollover() {
            return;
        }
        let ghost q0 = self.event_queue@;
        let ghost prev0 = self.prev_report;

        // Detect modifier changes
        self.process_modifier_changes(report.modifiers);
        let ghost q1 = self.event_queue@;

        // Detect released keys (in prev but not in new)
        let mut j: usize = 0;
        while j < 6
            invariant
                j <= 6,
                self.prev_report == prev0,
                self.event_queue@ == q1 + released_keys(
                    prev0.keycodes@,
                    report.keycodes@,
                    report.modifiers,
                    j as int,
                ),
            decreases 6 - j,
        {
            let prev_key = self.prev_report.keycodes[j];
            if prev_key != 0 && !report.has_keycode(prev_key) {
                let scancode = hid_usage_to_scancode(prev_key);
                self.event_queue.push_back(
                    KeyEvent {
                        usage_id: prev_key,
                        scancode,
                        pressed: false,
                        modifiers: report.modifiers,
                    },
                );
            }
            j = j + 1;
        }
        let ghost q2 = self.event_queue@;

        // Detect pressed keys (in new but not in prev)
        let mut j: usize = 0;
        while j < 6
            invariant
                j <= 6,
                self.prev_report == prev0,
                self.event_queue@ == q2 + pressed_keys(
                    prev0.keycodes@,
                    report.keycodes@,
                    report.modifiers,
                    j as int,
                ),
            decreases 6 - j,
        {
            let new_key = report.keycodes[j];
            if new_key != 0 && !self.prev_report.has_keycode(new_key) {
                let scancode = hid_usage_to_scancode(new_key);
                self.event_queue.push_back(
                    KeyEvent { usage_id: new_key, scancode, pressed: true, modifiers: report.modifiers },
                );
            }
            j = j + 1;
        }
        self.prev_report = *report;
        assert(self.event_queue@ =~= q0 + report_events(prev0, *report));
    }

    /// Process modifier key changes as individual events.
    fn process_modifier_changes(&mut self, new_mods: u8)
        ensures
            final(self).spec_prev_report() == old(self).spec_prev_report(),
            final(self).spec_events() == old(self).spec_events() + modifier_events(
                old(self).spec_prev_report().modifiers,
                new_mods,
                8,
            ),
    {
        let old_mods = self.prev_report.modifiers;
        let ghost q0 = self.event_queue@;
        let ghost prev0 = self.prev_report;

        // Map each modifier bit to a USB HID usage ID
        // Left Ctrl=0xE0, Left Shift=0xE1, Left Alt=0xE2, Left GUI=0xE3
        // Right Ctrl=0xE4, Right Shift=0xE5, Right Alt=0xE6, Right GUI=0xE7
        let mod_bits: [u8; 8] = [
            MOD_LEFT_CTRL,
            MOD_LEFT_SHIFT,
            MOD_LEFT_ALT,
            MOD_LEFT_GUI,
            MOD_RIGHT_CTRL,
            MOD_RIGHT_SHIFT,
            MOD_RIGHT_ALT,
            MOD_RIGHT_GUI,
        ];

        // PS/2 scancodes for modifier keys
        let mod_scancodes: [u8; 8] = [
            0x1D,  // Left Ctrl
            0x2A,  // Left Shift
            0x38,  // Left Alt
            0x00,  // Left GUI (no PS/2 equivalent in set 1 base)
            0x1D,  // Right Ctrl (extended)
            0x36,  // Right Shift
            0x38,  // Right Alt (extended)
            0x00,  // Right GUI
        ];

        let mut i: usize = 0;
        while i < 8
            invariant
                i <= 8,
                old_mods == self.prev_report.modifiers,
                self.prev_report == prev0,
                mod_bits@ == seq![
                    MOD_LEFT_CTRL,
                    MOD_LEFT_SHIFT,
                    MOD_LEFT_ALT,
                    MOD_LEFT_GUI,
                    MOD_RIGHT_CTRL,
                    MOD_RIGHT_SHIFT,
                    MOD_RIGHT_ALT,
                    MOD_RIGHT_GUI,
                ],
                mod_scancodes@ == seq![0x1Du8, 0x2A, 0x38, 0x00, 0x1D, 0x36, 0x38, 0x00],
                self.event_queue@ == q0 + modifier_events(old_mods, new_mods, i as int),
            decreases 8 - i,
        {
            let bit = mod_bits[i];
            let old_held = get_field32(old_mods as u32, bit as u32, 2) != 0;
            let new_held = get_field32(new_mods as u32, bit as u32, 2) != 0;
            if old_held != new_held {
                let scancode = mod_scancodes[i];
                self.event_queue.push_back(
                    KeyEvent {
                        usage_id: 0xE0 + i as u8,
                        scancode,
                        pressed: new_held,
                        modifiers: new_mods,
                    },
                );
            }
            i = i + 1;
        }
    }

    /// Dequeue the next key event, if any.
    pub fn next_event(&mut self) -> (r: Option<KeyEvent>)
        ensures
            final(self).spec_prev_report() == old(self).spec_prev_report(),
            old(self).spec_events().len() == 0 ==> r is None && final(self).spec_events()
                == old(self).spec_events(),
            old(self).spec_events().len() > 0 ==> r == Some(old(self).spec_events()[0])
                && final(self).spec_events() == old(self).spec_events().drop_first(),
    {
        self.event_queue.pop_front()
    }

    /// Check if there are pending key events.
    pub fn has_events(&self) -> (r: bool)
        ensures
            r == (self.spec_events().len() > 0),
    {
        self.event_queue.len() != 0
    }

    /// Get the current modifier state.
    pub fn modifiers(&self) -> (r: u8)
        ensures
            r == self.spec_prev_report().modifiers,
    {
        self.prev_report.modifiers
    }
}


/// The previous report a keyboard state keeps after one call: `Some(report)` for
/// `process_report` (a rollover report is ignored), `None` for any other call.
pub open spec fn prev_after_step(before: BootKeyboardReport, step: Option<BootKeyboardReport>) -> BootKeyboardReport {
    match step {
        Some(report) => if report.spec_is_rollover() {
            before
        } else {
            report
        },
        None => before,
    }
}

/// The modifier byte of the last report among `steps` that is not a rollover
/// report, or 0 when there is none.
pub open spec fn last_kept_modifiers(steps: Seq<Option<BootKeyboardReport>>) -> u8
    decreases steps.len(),
{
    if steps.len() == 0 {
        0
    } else {
        match steps.last() {
            Some(report) => if report.spec_is_rollover() {
                last_kept_modifiers(steps.drop_last())
            } else {
                report.modifiers
            },
            None => last_kept_modifiers(steps.drop_last()),
        }
    }
}

/// The modifiers of a keyboard state are those of the last report it took: for
/// states `states[0]` (as `KeyboardState::new` leaves it) through `states.last()`,
/// each `states[i + 1]` made from `states[i]` by the call `steps[i]` as in
/// `prev_after_step`, `modifiers` of the last state is `last_kept_modifiers(steps)`.
pub proof fn lemma_modifiers_follow_last_report(
    states: Seq<KeyboardState>,
    steps: Seq<Option<BootKeyboardReport>>,
)
    requires
        states.len() == steps.len() + 1,
        states[0].spec_prev_report() == empty_report(),
        forall|i: int|
            0 <= i < steps.len() ==> #[trigger] states[i + 1].spec_prev_report() == prev_after_step(
                states[i].spec_prev_report(),
                steps[i],
            ),
    ensures
        states.last().spec_prev_report().modifiers == last_kept_modifiers(steps),
    decreases steps.len(),
{
    if steps.len() > 0 {
        let n = steps.len() - 1;
        let s2 = states.drop_last();
        let t2 = steps.drop_last();
        assert forall|i: int| 0 <= i < t2.len() implies #[trigger] s2[i + 1].spec_prev_report()
            == prev_after_step(s2[i].spec_prev_report(), t2[i]) by {
            assert(s2[i + 1] == states[i + 1]);
        }
        lemma_modifiers_follow_last_report(s2, t2);
        assert(states[n + 1].spec_prev_report() == prev_after_step(
            states[n as int].spec_prev_report(),
            steps[n as int],
        ));
        assert(steps[n as int] == steps.last());
    } else {
        assert(empty_report().modifiers == 0);
    }
}

} // verus!
