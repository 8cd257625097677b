use xhci_nostd::hid::{
    hid_usage_to_scancode, BootKeyboardReport, KeyEvent, KeyboardState, MOD_LEFT_CTRL,
    MOD_LEFT_SHIFT, MOD_RIGHT_GUI,
};

fn report(modifiers: u8, keys: [u8; 6]) -> BootKeyboardReport {
    BootKeyboardReport { modifiers, reserved: 0, keycodes: keys }
}

fn drain(state: &mut KeyboardState) -> Vec<KeyEvent> {
    let mut v = Vec::new();
    while let Some(e) = state.next_event() {
        v.push(e);
    }
    v
}

#[test]
fn scancode_table_lookups() {
    assert_eq!(hid_usage_to_scancode(0x04), 0x1E); // A
    assert_eq!(hid_usage_to_scancode(0x1D), 0x2C); // Z
    assert_eq!(hid_usage_to_scancode(0x28), 0x1C); // Enter
    assert_eq!(hid_usage_to_scancode(0x45), 0x58); // F12
    assert_eq!(hid_usage_to_scancode(0x46), 0x00); // Print Screen (unmapped)
    assert_eq!(hid_usage_to_scancode(0x64), 0x56); // Non-US backslash
    assert_eq!(hid_usage_to_scancode(0x7F), 0x00);
    assert_eq!(hid_usage_to_scancode(0x80), 0x00); // beyond the table
    assert_eq!(hid_usage_to_scancode(0xE0), 0x00);
}

#[test]
fn parse_boot_report() {
    let buf = [0x02u8, 0x00, 0x04, 0x05, 0, 0, 0, 0, 0xFF];
    let r = BootKeyboardReport::parse(&buf).expect("8 bytes or more");
    assert_eq!(r.modifiers, 0x02);
    assert_eq!(r.reserved, 0);
    assert_eq!(r.keycodes, [0x04, 0x05, 0, 0, 0, 0]);
    assert!(BootKeyboardReport::parse(&buf[..7]).is_none());
    assert!(BootKeyboardReport::parse(&[]).is_none());
}

#[test]
fn report_rollover_and_membership() {
    let r = report(0, [1, 1, 1, 1, 1, 1]);
    assert!(r.is_rollover());
    let r2 = report(0, [1, 1, 1, 1, 1, 0]);
    assert!(!r2.is_rollover());
    assert!(r2.has_keycode(0));
    assert!(r2.has_keycode(1));
    assert!(!r2.has_keycode(4));
}

#[test]
fn key_press_and_release_events() {
    let mut st = KeyboardState::new();
    assert!(!st.has_events());
    assert_eq!(st.modifiers(), 0);
    st.process_report(&report(0, [0x04, 0, 0, 0, 0, 0]));
    assert!(st.has_events());
    assert_eq!(
        drain(&mut st),
        vec![KeyEvent { usage_id: 0x04, scancode: 0x1E, pressed: true, modifiers: 0 }]
    );
    // B pressed while A still held, then A released
    st.process_report(&report(0, [0x04, 0x05, 0, 0, 0, 0]));
    st.process_report(&report(0, [0x05, 0, 0, 0, 0, 0]));
    assert_eq!(
        drain(&mut st),
        vec![
            KeyEvent { usage_id: 0x05, scancode: 0x30, pressed: true, modifiers: 0 },
            KeyEvent { usage_id: 0x04, scancode: 0x1E, pressed: false, modifiers: 0 },
        ]
    );
    assert!(st.next_event().is_none());
}

#[test]
fn modifier_events_in_bit_order() {
    let mut st = KeyboardState::new();
    st.process_report(&report(MOD_LEFT_SHIFT | MOD_LEFT_CTRL, [0; 6]));
    assert_eq!(st.modifiers(), MOD_LEFT_SHIFT | MOD_LEFT_CTRL);
    assert_eq!(
        drain(&mut st),
        vec![
            KeyEvent { usage_id: 0xE0, scancode: 0x1D, pressed: true, modifiers: 0x03 },
            KeyEvent { usage_id: 0xE1, scancode: 0x2A, pressed: true, modifiers: 0x03 },
        ]
    );
    // Left Ctrl released, Right GUI pressed, and a key in the same report
    st.process_report(&report(MOD_LEFT_SHIFT | MOD_RIGHT_GUI, [0x1E, 0, 0, 0, 0, 0]));
    assert_eq!(
        drain(&mut st),
        vec![
            KeyEvent { usage_id: 0xE0, scancode: 0x1D, pressed: false, modifiers: 0x82 },
            KeyEvent { usage_id: 0xE7, scancode: 0x00, pressed: true, modifiers: 0x82 },
            KeyEvent { usage_id: 0x1E, scancode: 0x02, pressed: true, modifiers: 0x82 },
        ]
    );
}

#[test]
fn rollover_report_is_ignored() {
    let mut st = KeyboardState::new();
    st.process_report(&report(0, [0x04, 0, 0, 0, 0, 0]));
    drain(&mut st);
    st.process_report(&report(MOD_LEFT_CTRL, [1, 1, 1, 1, 1, 1]));
    assert!(!st.has_events());
    assert_eq!(st.modifiers(), 0);
    // The next real report is diffed against the report before the rollover.
    st.process_report(&report(0, [0x04, 0, 0, 0, 0, 0]));
    assert!(!st.has_events());
}

#[test]
fn repeated_report_yields_nothing() {
    let mut st = KeyboardState::new();
    let r = report(MOD_LEFT_SHIFT, [0x04, 0x05, 0x06, 0, 0, 0]);
    st.process_report(&r);
    assert_eq!(drain(&mut st).len(), 4);
    st.process_report(&r);
    assert!(!st.has_events());
}

#[test]
fn events_queue_in_order_across_reports() {
    let mut st = KeyboardState::new();
    st.process_report(&report(0, [0x04, 0, 0, 0, 0, 0]));
    st.process_report(&report(0, [0, 0, 0, 0, 0, 0]));
    let first = st.next_event().unwrap();
    assert_eq!(first, KeyEvent { usage_id: 0x04, scancode: 0x1E, pressed: true, modifiers: 0 });
    let second = st.next_event().unwrap();
    assert_eq!(second, KeyEvent { usage_id: 0x04, scancode: 0x1E, pressed: false, modifiers: 0 });
    assert!(st.next_event().is_none());
}
