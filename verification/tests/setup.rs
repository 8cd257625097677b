use xhci_nostd::context::{Dcbaa, EP_TYPE_INTERRUPT_IN};
use xhci_nostd::driver::{
    DeviceSetupAction, DeviceSetupFailure, DeviceSetupPhase, KeyboardPollAction, KeyboardPollPhase,
    PollStep, MAX_EVENT_POLL_RETRIES, PORT_RESET_POLLS,
};
use xhci_nostd::hid::{BootKeyboardReport, KeyboardState, HID_CLASS_INTERFACE_OUT};
use xhci_nostd::registers::{CapabilityRegs, PORTSC_CCS, PORTSC_PRC};
use xhci_nostd::ring::{CommandRing, Trb};
use xhci_nostd::usb::{
    config_total_length, default_max_packet_size0, parse_configuration, parse_device_descriptor,
};
use xhci_nostd::XhciController;

fn controller() -> XhciController {
    let cap = CapabilityRegs::new(
        0x4000_0000,
        [0x0100_0020, (4 << 24) | (1 << 8) | 8, 0, 0, 0, 0x3000, 0x2000, 0],
    );
    XhciController::new(cap, 0x10_0000, 0x20_0000, 0x30_0000, 0x31_0000)
}

fn event(ty: u32, code: u32) -> Trb {
    Trb { parameter_lo: 0, parameter_hi: 0, status: code << 24, control: (2 << 24) | (ty << 10) | 1 }
}

/// A HID boot keyboard's configuration descriptor set: configuration 1,
/// interface 0 (HID, boot, keyboard) with a HID descriptor and interrupt IN
/// endpoint 1 (8 bytes, interval 10).
const KEYBOARD_CONFIG: [u8; 34] = [
    9, 2, 34, 0, 1, 1, 0, 0xA0, 50, // configuration
    9, 4, 0, 0, 1, 3, 1, 1, 0, // interface
    9, 0x21, 0x11, 0x01, 0, 1, 0x22, 63, 0, // HID
    7, 5, 0x81, 3, 8, 0, 10, // endpoint 1 IN, interrupt
];

/// A device descriptor: USB 2.0, EP0 packet size 8, vendor 0x046D, product 0xC31C.
const DEVICE_DESCRIPTOR: [u8; 18] =
    [18, 1, 0x00, 0x02, 0, 0, 0, 8, 0x6D, 0x04, 0x1C, 0xC3, 0x00, 0x01, 1, 2, 0, 1];

#[test]
fn config_header_total_length() {
    assert_eq!(config_total_length(&[9, 2, 0x22, 0x00, 1, 1, 0, 0xA0, 50]), Some(0x22));
    assert_eq!(config_total_length(&[9, 2, 0x3B, 0x01]), Some(0x13B));
    assert_eq!(config_total_length(&[9, 2, 0x22]), None);
    assert_eq!(config_total_length(&[]), None);
}

#[test]
fn default_ep0_packet_sizes() {
    assert_eq!(default_max_packet_size0(1), 64);
    assert_eq!(default_max_packet_size0(2), 8);
    assert_eq!(default_max_packet_size0(3), 64);
    assert_eq!(default_max_packet_size0(4), 512);
    assert_eq!(default_max_packet_size0(0), 8);
}

#[test]
fn device_descriptor_parse() {
    let d = parse_device_descriptor(&DEVICE_DESCRIPTOR).expect("valid descriptor");
    assert_eq!(d.bcd_usb, 0x0200);
    assert_eq!(d.b_max_packet_size0, 8);
    assert_eq!(d.id_vendor, 0x046D);
    assert_eq!(d.id_product, 0xC31C);
    assert_eq!(d.b_num_configurations, 1);
    assert!(parse_device_descriptor(&DEVICE_DESCRIPTOR[..17]).is_none());
    let mut wrong = DEVICE_DESCRIPTOR;
    wrong[1] = 2;
    assert!(parse_device_descriptor(&wrong).is_none());
}

#[test]
fn configuration_parse_finds_keyboard() {
    let c = parse_configuration(&KEYBOARD_CONFIG).expect("valid configuration");
    assert_eq!(c.config_value, 1);
    assert_eq!(c.endpoints.len(), 1);
    let ep = c.endpoints[0];
    assert_eq!(ep.dci, 3);
    assert_eq!(ep.ep_type, EP_TYPE_INTERRUPT_IN);
    assert_eq!(ep.max_packet_size, 8);
    assert_eq!(ep.interval, 10);
    assert!(ep.is_interrupt);
    assert_eq!(c.keyboard, Some((0, 3)));
}

#[test]
fn configuration_parse_other_devices() {
    // A mass-storage interface with bulk OUT 2 and bulk IN 1: no keyboard.
    let storage = [
        9, 2, 32, 0, 1, 2, 0, 0x80, 50, // configuration 2
        9, 4, 0, 0, 2, 8, 6, 0x50, 0, // interface
        7, 5, 0x02, 2, 0x00, 0x02, 0, // endpoint 2 OUT, bulk, 512
        7, 5, 0x81, 2, 0x00, 0x02, 0, // endpoint 1 IN, bulk
    ];
    let c = parse_configuration(&storage).expect("valid configuration");
    assert_eq!(c.config_value, 2);
    assert_eq!(c.endpoints.len(), 2);
    assert_eq!((c.endpoints[0].dci, c.endpoints[0].ep_type, c.endpoints[0].max_packet_size), (4, 2, 512));
    assert_eq!((c.endpoints[1].dci, c.endpoints[1].ep_type), (3, 6));
    assert_eq!(c.keyboard, None);
    // A descriptor running past the end ends the walk.
    let truncated = &KEYBOARD_CONFIG[..30];
    let t = parse_configuration(truncated).expect("configuration header present");
    assert!(t.endpoints.is_empty());
    assert_eq!(t.keyboard, None);
    // Not a configuration descriptor.
    assert!(parse_configuration(&DEVICE_DESCRIPTOR).is_none());
    assert!(parse_configuration(&KEYBOARD_CONFIG[..8]).is_none());
}

fn request(request_type: u8, request: u8, value: u16, index: u16, length: u16) -> DeviceSetupAction {
    DeviceSetupAction::ControlRequest { slot_id: 2, request_type, request, value, index, length }
}

#[test]
fn keyboard_bring_up_sequence() {
    let mut c = controller();
    c.register_slot(2, 0x50_0000);
    let (p, a) = c.device_setup_start(2, 1, 3);
    assert_eq!((p, a), (DeviceSetupPhase::AddressSent, DeviceSetupAction::AddressDevice { slot_id: 2 }));
    let (p, a) = c.device_setup_step(2, p, 1, &[]);
    assert_eq!(a, request(0x80, 6, 0x0100, 0, 18));
    let (p, a) = c.device_setup_step(2, p, 13, &DEVICE_DESCRIPTOR);
    assert_eq!(a, request(0x80, 6, 0x0200, 0, 9));
    let (p, a) = c.device_setup_step(2, p, 1, &KEYBOARD_CONFIG[..9]);
    assert_eq!(a, request(0x80, 6, 0x0200, 0, 34));
    let (p, a) = c.device_setup_step(2, p, 1, &KEYBOARD_CONFIG);
    assert_eq!(a, request(0x00, 9, 1, 0, 0));
    let cfg = c.device_configuration(2).expect("configuration recorded");
    assert_eq!(cfg.keyboard, Some((0, 3)));
    let (p, a) = c.device_setup_step(2, p, 1, &[]);
    assert_eq!(a, DeviceSetupAction::SetUpEndpointRings { slot_id: 2 });
    let (p, a) = c.device_setup_step(2, p, 0, &[]);
    assert_eq!(a, DeviceSetupAction::ConfigureEndpoint { slot_id: 2 });
    let (p, a) = c.device_setup_step(2, p, 1, &[]);
    assert_eq!(a, request(HID_CLASS_INTERFACE_OUT, 0x0B, 0, 0, 0));
    // A stalled HID request does not stop the keyboard's set-up.
    let (p, a) = c.device_setup_step(2, p, 6, &[]);
    assert_eq!(a, request(HID_CLASS_INTERFACE_OUT, 0x0A, 0, 0, 0));
    let (p, a) = c.device_setup_step(2, p, 6, &[]);
    assert_eq!(a, DeviceSetupAction::SetUpKeyboard { slot_id: 2, dci: 3 });
    let (p, a) = c.device_setup_step(2, p, 0, &[]);
    assert_eq!((p, a), (DeviceSetupPhase::Finished, DeviceSetupAction::Done));

    let status = c.dump_status(0x1, 0x0, &[0, 0, 0, 0]);
    assert_eq!(status.slots.len(), 1);
    let dev = status.slots[0].device.expect("device recorded");
    assert_eq!((dev.port, dev.speed, dev.configured), (1, 3, true));
    assert_eq!(dev.ids, Some((0x046D, 0xC31C)));
}

#[test]
fn device_without_keyboard_is_done_after_configure() {
    let mut c = controller();
    c.device_setup_start(2, 1, 3);
    let storage = [9, 2, 9, 0, 0, 2, 0, 0x80, 50];
    c.device_setup_step(2, DeviceSetupPhase::ConfigurationRequested, 1, &storage);
    let r = c.device_setup_step(2, DeviceSetupPhase::ConfigureEndpointSent, 1, &[]);
    assert_eq!(r, (DeviceSetupPhase::Finished, DeviceSetupAction::Done));
}

#[test]
fn bring_up_stops_at_first_failure() {
    let mut c = controller();
    c.device_setup_start(2, 1, 3);
    let cases: [(DeviceSetupPhase, u8, &[u8], DeviceSetupFailure); 9] = [
        (DeviceSetupPhase::AddressSent, 13, &[], DeviceSetupFailure::AddressDevice),
        (DeviceSetupPhase::DeviceDescriptorRequested, 6, &DEVICE_DESCRIPTOR, DeviceSetupFailure::DeviceDescriptor),
        (DeviceSetupPhase::DeviceDescriptorRequested, 1, &DEVICE_DESCRIPTOR[..10], DeviceSetupFailure::DeviceDescriptor),
        (DeviceSetupPhase::ConfigHeaderRequested, 4, &KEYBOARD_CONFIG[..9], DeviceSetupFailure::ConfigurationHeader),
        (DeviceSetupPhase::ConfigHeaderRequested, 1, &KEYBOARD_CONFIG[..3], DeviceSetupFailure::ConfigurationHeader),
        (DeviceSetupPhase::ConfigurationRequested, 0, &KEYBOARD_CONFIG, DeviceSetupFailure::Configuration),
        (DeviceSetupPhase::ConfigurationRequested, 1, &DEVICE_DESCRIPTOR, DeviceSetupFailure::Configuration),
        (DeviceSetupPhase::SetConfigurationSent, 13, &[], DeviceSetupFailure::SetConfiguration),
        (DeviceSetupPhase::ConfigureEndpointSent, 5, &[], DeviceSetupFailure::ConfigureEndpoint),
    ];
    for (phase, code, data, failure) in cases {
        let (p, a) = c.device_setup_step(2, phase, code, data);
        assert_eq!((p, a), (DeviceSetupPhase::Finished, DeviceSetupAction::Failed(failure)));
        assert_eq!(c.device_setup_step(2, p, 1, data).1, DeviceSetupAction::Done);
    }
    // None of the failures recorded a configuration.
    assert!(c.device_configuration(2).is_none());
}

#[test]
fn bounded_polls() {
    assert_eq!(XhciController::port_reset_poll(PORTSC_CCS, 2), PollStep::Continue { polls_left: 1 });
    assert_eq!(XhciController::port_reset_poll(PORTSC_CCS, 1), PollStep::TimedOut);
    assert_eq!(
        XhciController::port_reset_poll(PORTSC_CCS | PORTSC_PRC, PORT_RESET_POLLS),
        PollStep::Finished(PORTSC_CCS | PORTSC_PRC)
    );
    let completion = event(33, 1);
    let transfer = event(32, 1);
    assert!(matches!(
        XhciController::command_wait_poll(Some(completion), 1),
        PollStep::Finished(e) if e.trb_type() == 33
    ));
    assert!(matches!(
        XhciController::command_wait_poll(Some(transfer), MAX_EVENT_POLL_RETRIES),
        PollStep::Continue { polls_left } if polls_left == MAX_EVENT_POLL_RETRIES - 1
    ));
    assert!(matches!(XhciController::command_wait_poll(None, 1), PollStep::TimedOut));
    assert!(matches!(
        XhciController::transfer_wait_poll(Some(transfer), 5),
        PollStep::Finished(e) if e.trb_type() == 32
    ));
    assert!(matches!(
        XhciController::transfer_wait_poll(Some(completion), 5),
        PollStep::Continue { polls_left: 4 }
    ));
}

#[test]
fn modifiers_follow_last_kept_report() {
    let mut ks = KeyboardState::new();
    assert_eq!(ks.modifiers(), 0);
    let shift = BootKeyboardReport { modifiers: 0x02, reserved: 0, keycodes: [0x04, 0, 0, 0, 0, 0] };
    let rollover = BootKeyboardReport { modifiers: 0x01, reserved: 0, keycodes: [1; 6] };
    let ctrl = BootKeyboardReport { modifiers: 0x11, reserved: 0, keycodes: [0; 6] };
    ks.process_report(&shift);
    assert_eq!(ks.modifiers(), 0x02);
    ks.process_report(&rollover);
    while ks.next_event().is_some() {}
    assert_eq!(ks.modifiers(), 0x02);
    ks.process_report(&ctrl);
    assert_eq!(ks.modifiers(), 0x11);
}

#[test]
fn command_ring_after_a_lap() {
    let mut ring = CommandRing::new(0x20_0000);
    let base = ring.phys_addr_with_cycle() & !1;
    for k in 0..300u64 {
        let w = ring.enqueue(Trb::zeroed());
        assert_eq!(w.phys, base + 16 * (k % 255));
        assert_eq!(w.trb.cycle_bit(), (k / 255) % 2 == 0);
        if k % 255 == 254 {
            let link = w.link.expect("link at the end of a lap");
            assert!(link.cycle_bit());
            assert_eq!(w.link_phys, base + 4080);
        } else {
            assert!(w.link.is_none());
        }
    }
}

#[test]
fn dcbaa_last_registration_wins() {
    let mut d = Dcbaa::new(0x10_0000, 4);
    d.register_device_context(2, 0x50_0000);
    d.register_device_context(3, 0x51_0000);
    d.register_device_context(2, 0x52_0000);
    assert_eq!(d.device_context_phys(2), Some(0x52_0000));
    assert_eq!(d.device_context_phys(3), Some(0x51_0000));
    assert_eq!(d.device_context_phys(1), None);
    assert_eq!(d.device_context_phys(0), None);
    assert_eq!(d.device_context_phys(9), None);
}

#[test]
fn keyboard_stays_found_and_slots_are_listed() {
    let mut c = controller();
    assert!(!c.has_keyboard());
    c.register_slot(2, 0x50_0000);
    c.register_slot(5, 0x51_0000);
    c.install_transfer_ring(2, 3, 0x60_0000);
    c.setup_keyboard(2, 3, 0x90_0000);
    assert!(c.has_keyboard());
    c.send_command(Trb::enable_slot(false));
    c.take_event(event(33, 1));
    c.next_keyboard_event();
    c.requeue_keyboard_transfer();
    assert!(c.has_keyboard());
    let status = c.dump_status(0x1, 0x0, &[0, 0, 0, 0]);
    assert_eq!(status.slots.len(), 2);
    assert_eq!((status.slots[0].slot_id, status.slots[0].keyboard), (2, true));
    assert_eq!((status.slots[1].slot_id, status.slots[1].keyboard), (5, false));
}

#[test]
fn keyboard_poll_order() {
    let mut c = controller();
    c.register_slot(2, 0x50_0000);
    c.install_transfer_ring(2, 3, 0x60_0000);
    c.setup_keyboard(2, 3, 0x90_0000);
    let none: [u8; 0] = [];

    // Nothing buffered: read the event ring.
    let (p, a) = c.poll_keyboard_step(KeyboardPollPhase::Start, Trb::zeroed(), &none, 0);
    assert_eq!(p, KeyboardPollPhase::EventRead);
    assert!(matches!(a, KeyboardPollAction::ReadEvent { erdp: None, passed: None, queued: None, addr: 0x30_0000 }));

    // A port status change is passed over.
    let port_change = Trb { parameter_lo: 1 << 24, ..event(34, 1) };
    let (p, a) = c.poll_keyboard_step(p, port_change, &none, 0);
    assert_eq!(p, KeyboardPollPhase::EventRead);
    assert!(matches!(
        a,
        KeyboardPollAction::ReadEvent { erdp: Some((0x4000_2038, erdp)), passed: Some(_), queued: None, addr: 0x30_0010 }
            if erdp == 0x30_0010 | 0x8
    ));

    // The keyboard's transfer event: read its report.
    let transfer = Trb { control: (2 << 24) | (3 << 16) | (32 << 10) | 1, ..event(32, 1) };
    let (p, a) = c.poll_keyboard_step(p, transfer, &none, 0);
    assert_eq!(p, KeyboardPollPhase::ReportRead);
    assert!(matches!(a, KeyboardPollAction::ReadReport { erdp_addr: 0x4000_2038, buf: 0x90_0000, .. }));

    // The report is taken and the transfer queued again.
    let (p, a) = c.poll_keyboard_step(p, Trb::zeroed(), &[0, 0, 0x04, 0, 0, 0, 0, 0], 0);
    assert_eq!(p, KeyboardPollPhase::EventRead);
    assert!(matches!(a, KeyboardPollAction::ReadEvent { erdp: None, queued: Some((w, _)), addr: 0x30_0020, .. } if w.index == 1));

    // The ring is drained: acknowledge the interrupt, then return the key event.
    let (p, a) = c.poll_keyboard_step(p, Trb::zeroed(), &none, 0);
    assert_eq!(p, KeyboardPollPhase::ImanRead);
    assert!(matches!(a, KeyboardPollAction::ReadIman { addr: 0x4000_2020 }));
    let (p, a) = c.poll_keyboard_step(p, Trb::zeroed(), &none, 0x3);
    assert_eq!(p, KeyboardPollPhase::Finished);
    match a {
        KeyboardPollAction::Return { ack: Some(ack), event: Some(e) } => {
            assert_eq!((ack.addr, ack.value), (0x4000_2020, 0x3));
            assert_eq!((e.usage_id, e.pressed), (0x04, true));
        }
        _ => panic!("expected the key event"),
    }
}

#[test]
fn keyboard_poll_without_keyboard_returns_nothing() {
    let mut c = controller();
    let (p, a) = c.poll_keyboard_step(KeyboardPollPhase::Start, Trb::zeroed(), &[], 0);
    assert_eq!(p, KeyboardPollPhase::Finished);
    assert!(matches!(a, KeyboardPollAction::Return { ack: None, event: None }));
}
