use xhci_nostd::driver::{KeyboardTransfer, ERDP_EHB, InitAction, InitFailure, InitPhase, INIT_POLLS};
use xhci_nostd::usb::EndpointSetup;
use xhci_nostd::registers::{CapabilityRegs, PORTSC_CCS, PORTSC_PED, PORTSC_PP, PORTSC_PR, PORTSC_PRC, PORTSC_CSC};
use xhci_nostd::ring::Trb;
use xhci_nostd::context::EP_TYPE_INTERRUPT_IN;
use xhci_nostd::{KeyEvent, XhciController};

const DCBAA: u64 = 0x10_0000;
const CMD_RING: u64 = 0x20_0000;
const EVT_RING: u64 = 0x30_0000;
const ERST: u64 = 0x31_0000;

fn controller() -> XhciController {
    let cap = CapabilityRegs::new(
        0x4000_0000,
        [0x0100_0020, (4 << 24) | (1 << 8) | 8, 0, 0, 0, 0x3000, 0x2000, 0],
    );
    XhciController::new(cap, DCBAA, CMD_RING, EVT_RING, ERST)
}

fn event(ty: u32, slot: u32, ep: u32, code: u32, cycle: bool) -> Trb {
    Trb {
        parameter_lo: 0,
        parameter_hi: 0,
        status: code << 24,
        control: (slot << 24) | (ep << 16) | (ty << 10) | cycle as u32,
    }
}

#[test]
fn controller_state_from_capabilities() {
    let c = controller();
    assert_eq!(c.max_slots(), 8);
    assert_eq!(c.max_ports(), 4);
    assert_eq!(c.ctx_size(), 32);
    assert_eq!(c.op().base, 0x4000_0020);
    assert_eq!(c.rt().base, 0x4000_2000);
    assert_eq!(c.config_value(), 8);
    assert_eq!(c.dcbaa().phys_addr(), DCBAA);
    assert_eq!(c.cmd_ring().phys_addr_with_cycle(), CMD_RING | 1);
    assert_eq!(c.initial_erdp(), EVT_RING);
    assert!(!c.has_keyboard());
}

#[test]
fn usbcmd_values() {
    assert_eq!(XhciController::halt_command(0x5), 0x4);
    assert_eq!(XhciController::reset_command(0x4), 0x6);
    assert!(XhciController::reset_in_progress(0x2));
    assert!(!XhciController::reset_in_progress(0x1));
    assert_eq!(XhciController::run_command(0x0), 0x5);
    assert_eq!(XhciController::interrupter_enable_value(), 0x3);
}

#[test]
fn port_reset_values() {
    let portsc = PORTSC_CCS | PORTSC_PED | PORTSC_PP | PORTSC_CSC | (3 << 10);
    let v = XhciController::port_reset_value(portsc);
    assert_eq!(v, (portsc & !(0x00FE_0000 | PORTSC_PED)) | PORTSC_PR);
    assert_eq!(XhciController::port_reset_done(portsc), None);
    let done = portsc | PORTSC_PRC;
    assert_eq!(XhciController::port_reset_done(done), Some((done & !0x00FE_0000) | PORTSC_PRC));
}

#[test]
fn enumerate_connected_ports() {
    let c = controller();
    let portsc = [
        PORTSC_CCS | PORTSC_PED | (4 << 10),
        0,
        PORTSC_CCS | (2 << 10),
        PORTSC_PP,
    ];
    let ports = c.enumerate_ports(&portsc);
    assert_eq!(ports.len(), 2);
    assert_eq!(ports[0].port, 1);
    assert_eq!(ports[0].speed, 4);
    assert!(ports[0].enabled);
    assert!(!ports[0].needs_reset());
    assert_eq!(ports[1].port, 3);
    assert_eq!(ports[1].speed, 2);
    assert!(ports[1].needs_reset());
    let status = c.dump_status(0x5, 0x18, &portsc);
    assert!(status.running);
    assert!(!status.halted);
    assert!(status.event_interrupt);
    assert!(status.port_change);
    assert!(!status.not_ready);
    assert_eq!(status.ports.len(), 2);
}

#[test]
fn command_and_event_flow() {
    let mut c = controller();
    let (w, db) = c.send_command(Trb::enable_slot(false));
    assert_eq!(w.index, 0);
    assert_eq!(w.phys, CMD_RING);
    assert!(w.trb.cycle_bit());
    assert_eq!(db.addr, 0x4000_3000);
    assert_eq!(db.value, 0);

    // Nothing posted yet
    assert!(c.take_event(Trb::zeroed()).is_none());
    let completion = event(33, 3, 0, 1, true);
    let (evt, erdp) = c.take_event(completion).expect("new event");
    assert_eq!(erdp, (EVT_RING + 16) | ERDP_EHB);
    assert!(XhciController::ends_command_wait(&evt));
    assert!(!XhciController::ends_transfer_wait(&evt));
    assert!(XhciController::ends_transfer_wait(&event(32, 3, 1, 1, true)));
    assert!(!XhciController::ends_command_wait(&event(32, 3, 1, 1, true)));
    assert_eq!(XhciController::enable_slot_result(&evt), Some(3));
    let failed = event(33, 3, 0, 5, true);
    assert_eq!(XhciController::enable_slot_result(&failed), None);
    let port_change = Trb { parameter_lo: 2 << 24, ..event(34, 0, 0, 1, true) };
    assert!(!XhciController::ends_command_wait(&port_change));
    assert!(!XhciController::ends_transfer_wait(&port_change));
    assert_eq!(XhciController::port_status_change_port(&port_change), 2);
}

#[test]
fn slot_setup_and_address_device_input() {
    let mut c = controller();
    let entry = c.register_slot(3, 0x50_0000);
    assert_eq!(entry, DCBAA + 24);
    assert_eq!(c.dcbaa().device_context_phys(3), Some(0x50_0000));
    let (link, dequeue) = c.install_transfer_ring(3, 1, 0x60_0000);
    assert_eq!(link.parameter(), 0x60_0000);
    assert_eq!(link.trb_type(), 6);
    assert_eq!(dequeue, 0x60_0001);

    let input = c.address_device_input(2, 3, 64, dequeue);
    assert_eq!(input.add_flags, 0x3);
    assert_eq!(input.slot.raw.dw(0), (1 << 27) | (3 << 20));
    assert_eq!(input.slot.raw.dw(1), 2 << 16);
    assert_eq!(input.ep0.raw.dw(1), (64 << 16) | (4 << 3) | (3 << 1));
    assert_eq!(input.ep0.raw.qw(2), 0x60_0001);
    assert_eq!(input.ep0.raw.dw(4), 8);
}

#[test]
fn configure_endpoint_input_flags() {
    let c = controller();
    let eps = [
        EndpointSetup {
            dci: 3,
            ep_type: EP_TYPE_INTERRUPT_IN,
            max_packet_size: 8,
            interval: 10,
            is_interrupt: true,
            tr_dequeue: 0x70_0001,
        },
        EndpointSetup {
            dci: 4,
            ep_type: 2,
            max_packet_size: 512,
            interval: 0,
            is_interrupt: false,
            tr_dequeue: 0x80_0001,
        },
    ];
    let input = c.configure_endpoint_input(1, 4, &eps);
    assert_eq!(input.add_flags, 1 | (1 << 3) | (1 << 4));
    assert_eq!(input.max_dci, 4);
    assert_eq!(input.slot.raw.dw(0) >> 27, 4);
    assert_eq!(input.endpoints.len(), 2);
    assert_eq!(input.endpoints[0].0, 3);
    assert_eq!(input.endpoints[0].1.raw.dw(4), 8);
    assert_eq!((input.endpoints[0].1.raw.dw(0) >> 16) & 0xFF, 10);
    assert_eq!(input.endpoints[1].1.raw.dw(4), 1024);
    assert_eq!(input.endpoints[1].1.raw.qw(2), 0x80_0001);
    let none = c.configure_endpoint_input(1, 4, &[]);
    assert_eq!(none.add_flags, 1);
    assert_eq!(none.max_dci, 1);
}

#[test]
fn keyboard_polling_flow() {
    let mut c = controller();
    c.register_slot(2, 0x50_0000);
    c.install_transfer_ring(2, 3, 0x60_0000);
    let first = c.setup_keyboard(2, 3, 0x90_0000).expect("ring exists");
    assert!(c.has_keyboard());
    assert_eq!(c.keyboard_report_buffer(), Some(0x90_0000));
    assert_eq!(first.0.trb.trb_type(), 1);
    assert_eq!(first.0.trb.parameter(), 0x90_0000);
    assert_eq!(first.0.index, 0);
    assert_eq!(first.1.addr, 0x4000_3000 + 8);
    assert_eq!(first.1.value, 3);
    assert!(c.next_keyboard_event().is_none());

    let ok = event(32, 2, 3, 1, true);
    assert_eq!(c.keyboard_transfer(&ok), KeyboardTransfer::Report);
    assert_eq!(c.keyboard_transfer(&event(32, 2, 3, 13, true)), KeyboardTransfer::Report);
    assert_eq!(c.keyboard_transfer(&event(32, 2, 3, 6, true)), KeyboardTransfer::Failed);
    assert_eq!(c.keyboard_transfer(&event(32, 1, 3, 1, true)), KeyboardTransfer::NotKeyboard);
    assert_eq!(c.keyboard_transfer(&event(33, 2, 3, 1, true)), KeyboardTransfer::NotKeyboard);

    let requeue = c.keyboard_report(&[0, 0, 0x04, 0, 0, 0, 0, 0]).expect("ring exists");
    assert_eq!(requeue.0.index, 1);
    assert_eq!(
        c.next_keyboard_event(),
        Some(KeyEvent { usage_id: 0x04, scancode: 0x1E, pressed: true, modifiers: 0 })
    );
    assert!(c.next_keyboard_event().is_none());
    let again = c.requeue_keyboard_transfer().expect("ring exists");
    assert_eq!(again.0.index, 2);
    assert_eq!(XhciController::pending_interrupt_ack(0x3), Some(0x3));
    assert_eq!(XhciController::pending_interrupt_ack(0x2), None);
}

#[test]
fn keyboard_without_ring_is_still_recorded() {
    let mut c = controller();
    assert!(c.setup_keyboard(5, 3, 0xA0_0000).is_none());
    assert!(c.has_keyboard());
    assert!(c.requeue_keyboard_transfer().is_none());
}

const USBCMD: usize = 0x4000_0020;
const USBSTS: usize = 0x4000_0024;
const IR0: usize = 0x4000_2000 + 0x20;

/// A controller's USBCMD/USBSTS as start-up sees them: Host Controller Reset
/// completes at once, and the controller halts exactly when Run/Stop is clear
/// (or always, if it is broken).
struct Device {
    usbcmd: u32,
    halted: bool,
    broken: bool,
}

impl Device {
    fn answer(&mut self, action: InitAction) -> u32 {
        match action {
            InitAction::Read32 { addr: USBSTS } => self.halted as u32,
            InitAction::Read32 { addr: USBCMD } => self.usbcmd,
            InitAction::Write32 { addr: USBCMD, value } => {
                self.usbcmd = value & !0x2;
                self.halted = self.broken || value & 0x1 == 0;
                0
            }
            _ => 0,
        }
    }
}

/// Runs start-up against `dev`, returning every action taken.
fn run_init(c: &XhciController, dev: &mut Device) -> Vec<InitAction> {
    let (mut phase, mut action) = c.init_start();
    let mut actions = vec![action];
    while phase != InitPhase::Finished {
        let value = dev.answer(action);
        let (p, a) = c.init_step(phase, value);
        phase = p;
        action = a;
        actions.push(action);
        assert!(actions.len() < 100, "start-up does not finish");
    }
    actions
}

#[test]
fn init_programs_a_running_controller() {
    let c = controller();
    let mut dev = Device { usbcmd: 0x1, halted: false, broken: false };
    let actions = run_init(&c, &mut dev);
    let expected = vec![
        InitAction::Read32 { addr: USBSTS },
        InitAction::Read32 { addr: USBSTS },
        InitAction::Read32 { addr: USBCMD },
        InitAction::Write32 { addr: USBCMD, value: 0x0 },
        InitAction::Read32 { addr: USBSTS },
        InitAction::Read32 { addr: USBCMD },
        InitAction::Write32 { addr: USBCMD, value: 0x2 },
        InitAction::Read32 { addr: USBCMD },
        InitAction::Read32 { addr: USBSTS },
        InitAction::Write32 { addr: 0x4000_0020 + 0x38, value: 8 },
        InitAction::Write64 { addr: 0x4000_0020 + 0x30, value: DCBAA },
        InitAction::Write64 { addr: 0x4000_0020 + 0x18, value: CMD_RING | 1 },
        InitAction::Write32 { addr: IR0 + 0x08, value: 1 },
        InitAction::Write64 { addr: IR0 + 0x18, value: EVT_RING },
        InitAction::Write64 { addr: IR0 + 0x10, value: ERST },
        InitAction::Write32 { addr: IR0 + 0x04, value: 4000 },
        InitAction::Write32 { addr: IR0, value: 0x3 },
        InitAction::Read32 { addr: USBCMD },
        InitAction::Write32 { addr: USBCMD, value: 0x5 },
        InitAction::Read32 { addr: USBSTS },
        InitAction::Done,
    ];
    assert_eq!(actions, expected);
    assert_eq!(dev.usbcmd, 0x5);
}

#[test]
fn init_fails_when_controller_stays_halted() {
    let c = controller();
    let mut dev = Device { usbcmd: 0x0, halted: true, broken: true };
    let actions = run_init(&c, &mut dev);
    // Already halted: the reset is written right after USBCMD is read.
    assert_eq!(actions[2], InitAction::Read32 { addr: USBCMD });
    assert_eq!(actions[3], InitAction::Write32 { addr: USBCMD, value: 0x2 });
    assert_eq!(actions.len(), 18);
    assert_eq!(actions.last(), Some(&InitAction::Failed(InitFailure::StillHalted)));
}

#[test]
fn init_gives_up_when_never_ready() {
    let c = controller();
    let (phase, _) = c.init_start();
    assert_eq!(phase, InitPhase::WaitReady { polls_left: INIT_POLLS });
    let (p, a) = c.init_step(InitPhase::WaitReady { polls_left: 2 }, 0x800);
    assert_eq!(p, InitPhase::WaitReady { polls_left: 1 });
    assert_eq!(a, InitAction::Read32 { addr: USBSTS });
    let (p, a) = c.init_step(p, 0x800);
    assert_eq!(p, InitPhase::Finished);
    assert_eq!(a, InitAction::Failed(InitFailure::NotReady));
    assert_eq!(c.init_step(p, 0), (InitPhase::Finished, InitAction::Done));
}

#[test]
fn init_reports_each_stuck_wait() {
    let c = controller();
    let stuck = |phase: InitPhase, value: u32| c.init_step(phase, value);
    assert_eq!(
        stuck(InitPhase::WaitHalted { polls_left: 1 }, 0x0),
        (InitPhase::Finished, InitAction::Failed(InitFailure::NotHalted))
    );
    assert_eq!(
        stuck(InitPhase::WaitResetClear { polls_left: 1 }, 0x2),
        (InitPhase::Finished, InitAction::Failed(InitFailure::ResetStuck))
    );
    assert_eq!(
        stuck(InitPhase::WaitReadyAfterReset { polls_left: 1 }, 0x800),
        (InitPhase::Finished, InitAction::Failed(InitFailure::NotReadyAfterReset))
    );
    assert_eq!(
        stuck(InitPhase::WaitResetClear { polls_left: 5 }, 0x0),
        (InitPhase::WaitReadyAfterReset { polls_left: INIT_POLLS }, InitAction::Read32 { addr: USBSTS })
    );
}

#[test]
fn control_request_on_ep0() {
    let mut c = controller();
    // No ring for EP0 yet: nothing is queued.
    assert!(c.control_request(2, 0x21, 0x0B, 0, 1, 0, 0).is_none());
    c.register_slot(2, 0x50_0000);
    assert!(c.control_request(2, 0x21, 0x0B, 0, 1, 0, 0).is_none());
    c.install_transfer_ring(2, 1, 0x60_0000);

    // SET_PROTOCOL(Boot) on interface 1: Setup + Status.
    let (status, writes, db) = c.control_request(2, 0x21, 0x0B, 0, 1, 0, 0).expect("EP0 ring");
    assert_eq!(writes.len(), 2);
    assert_eq!(writes[0].index, 0);
    assert_eq!(writes[0].trb.trb_type(), 2);
    assert_eq!(writes[0].trb.parameter_lo, 0x0B21);
    assert_eq!(writes[0].trb.parameter_hi, 1);
    assert_eq!(writes[1].trb.trb_type(), 4);
    assert_eq!(status, 0x60_0000 + 16);
    assert_eq!(db.addr, 0x4000_3000 + 8);
    assert_eq!(db.value, 1);

    // GET_DESCRIPTOR(Device), 18 bytes IN: Setup + Data + Status.
    let (status, writes, _) =
        c.control_request(2, 0x80, 0x06, 0x0100, 0, 0xB0_0000, 18).expect("EP0 ring");
    assert_eq!(writes.len(), 3);
    assert_eq!(writes[0].index, 2);
    assert_eq!(writes[1].trb.trb_type(), 3);
    assert_eq!(writes[1].trb.parameter(), 0xB0_0000);
    assert_eq!(writes[1].trb.status, 18);
    assert_eq!(status, 0x60_0000 + 4 * 16);
}
