//! High-level xHCI Host Controller Driver
//!
//! `XhciController` holds the driver's state: register block locations, the
//! command and event rings, the device context array, per-endpoint transfer rings
//! and the HID keyboard. Every decision the driver takes lives here, as a step
//! that takes what was read from the controller and returns what to write to it;
//! the caller performs the memory-mapped and DMA accesses in between.
use vstd::prelude::*;
use crate::fields::{
    field, with_field, get_field32, set_field32, lemma_with_field, lemma_with_field_bound,
    lemma_with_field_keeps_other,
};
use vstd::arithmetic::power2::pow2;
use crate::registers::{
    CapabilityRegs, OperationalRegs, RuntimeRegs, DoorbellRegs, RegisterWrite32, USBCMD_RS,
    USBCMD_HCRST, USBCMD_INTE, IMAN_IP, IMAN_IE, PORTSC_CCS, PORTSC_PED, PORTSC_CSC, PORTSC_PR,
    PORTSC_PRC, RT_IR_BASE, IR_ERDP, USBSTS_HCH, USBSTS_EINT, USBSTS_PCD, USBSTS_CNR, USBSTS_HCE,
    OP_USBCMD, OP_USBSTS, OP_CONFIG, OP_DCBAAP, OP_CRCR, IR_ERSTSZ, IR_ERSTBA, IR_IMOD, IR_IMAN,
};
use crate::ring::{
    Trb, Enqueued, CommandRing, EventRing, TransferRing, producer_write, producer_slots,
    cursor_step, segment_fits, link_trb_for, RING_SEGMENT_TRBS, TRB_TYPE_COMMAND_COMPLETION,
    TRB_TYPE_TRANSFER_EVENT, TRB_COMPLETION_SUCCESS, TRB_COMPLETION_SHORT_PACKET, normal_trb,
    cycle_flag, cursor_steps, producer_writes, control_transfer_trbs,
};
use crate::context::{
    Dcbaa, SlotContext, EndpointContext, valid_ctx_size, dwords_with_field,
    MAX_DEVICE_CONTEXT_SIZE, EP_TYPE_CONTROL,
};
use crate::hid::{
    KeyboardState, KeyEvent, BootKeyboardReport, empty_report, report_of, report_events,
    HID_CLASS_INTERFACE_OUT, HID_REQ_SET_PROTOCOL, HID_REQ_SET_IDLE, HID_PROTOCOL_BOOT,
};
use crate::usb::{
    EndpointSetup, DeviceConfiguration, DeviceDescriptor, config_total_length, parse_configuration,
    parse_device_descriptor, configuration_of, device_descriptor_of, USB_DIR_IN, USB_DIR_OUT, USB_TYPE_STANDARD, USB_RECIP_DEVICE,
    USB_REQ_GET_DESCRIPTOR, USB_REQ_SET_CONFIGURATION, USB_DESC_DEVICE, USB_DESC_CONFIGURATION,
    DEVICE_DESCRIPTOR_SIZE, CONFIG_HEADER_SIZE,
};

verus! {

/// Maximum number of command completion retries before giving up.
pub const MAX_EVENT_POLL_RETRIES: u32 = 100_000;

/// Event Handler Busy (bit 3 of ERDP), written back to clear it when the
/// dequeue pointer is advanced.
pub const ERDP_EHB: u64 = 0x8;

/// Number of Device Context Indexes of a slot (0..31).
pub const DCI_COUNT: usize = 32;

/// Interrupter moderation interval for interrupter 0 (4000 * 250ns = ~1ms).
pub const IMOD_INTERVAL: u32 = 4000;

/// Bytes of a HID boot protocol keyboard report.
pub const KEYBOARD_REPORT_SIZE: u32 = 8;

/// Keyboard-specific state bundled together.
pub struct KeyboardInfo {
    /// Slot ID of the keyboard device
    pub slot_id: u8,
    /// Device Context Index of the interrupt IN endpoint
    pub dci: u8,
    /// DMA buffer for interrupt reports (identity-mapped)
    pub report_buf_phys: u64,
    /// Keyboard state tracker for event generation
    pub state: KeyboardState,
    /// Whether we have an outstanding interrupt transfer
    pub transfer_pending: bool,
}

/// The xHCI Host Controller driver.
pub struct XhciController {
    /// PCI BAR0 base address (MMIO)
    bar0: usize,
    /// Capability registers
    cap: CapabilityRegs,
    /// Operational registers
    op: OperationalRegs,
    /// Runtime registers
    rt: RuntimeRegs,
    /// Doorbell registers
    db: DoorbellRegs,
    /// Context size (32 or 64 bytes)
    ctx_size: usize,
    /// Maximum device slots
    max_slots: u8,
    /// Maximum ports
    max_ports: u8,
    /// Command ring
    cmd_ring: CommandRing,
    /// Event ring (interrupter 0)
    evt_ring: EventRing,
    /// Device Context Base Address Array
    dcbaa: Dcbaa,
    /// Transfer rings per slot/endpoint (slot_id -> dci -> ring); a slot's row is
    /// empty until the slot is enabled
    transfer_rings: Vec<Vec<Option<TransferRing>>>,
    /// HID keyboard state (if a keyboard is found)
    keyboard: Option<KeyboardInfo>,
    /// Tracked USB devices (indexed by slot ID, slot 0 unused)
    devices: Vec<Option<UsbDevice>>,
}

/// What the driver knows of the device on a slot.
pub struct UsbDevice {
    /// Root hub port (1-based)
    pub port: u8,
    /// Port speed ID
    pub speed: u32,
    /// Device descriptor, once read
    pub descriptor: Option<DeviceDescriptor>,
    /// Configuration descriptor set as read (empty until read)
    pub config_data: Vec<u8>,
    /// Whether SET_CONFIGURATION and Configure Endpoint succeeded
    pub configured: bool,
}

/// Whether the doorbell of every slot of a doorbell array at `base` can be addressed.
pub open spec fn doorbells_fit(base: usize) -> bool {
    base + 4 * 255 <= usize::MAX
}

/// Whether the registers of interrupter 0 of a runtime block at `base` can be addressed.
pub open spec fn interrupter0_fits(base: usize) -> bool {
    base + RT_IR_BASE + IR_ERDP <= usize::MAX
}

/// Whether the operational registers the driver uses at `base` can be addressed.
pub open spec fn operational_fits(base: usize) -> bool {
    base + OP_CONFIG <= usize::MAX
}

/// The addresses of the operational, runtime and doorbell blocks of the
/// capability registers `cap` can be formed, and so can every register the
/// driver uses in them.
pub open spec fn capability_layout_fits(cap: CapabilityRegs) -> bool {
    let caplength = field(cap.raw@[0] as int, 0x1, 0x100);
    let rtsoff = cap.raw@[6] - cap.raw@[6] % 32;
    let dboff = cap.raw@[5] - cap.raw@[5] % 4;
    &&& cap.base + caplength + OP_CONFIG <= usize::MAX
    &&& cap.base + rtsoff + RT_IR_BASE + IR_ERDP <= usize::MAX
    &&& cap.base + dboff + 4 * 255 <= usize::MAX
}

/// ERDP value that advances the dequeue pointer to `dequeue_phys` and clears
/// Event Handler Busy.
pub open spec fn erdp_with_ehb(dequeue_phys: int) -> int {
    dequeue_phys + ERDP_EHB
}

impl XhciController {
    /// The state is consistent: valid context size, a DCBAA and a transfer ring
    /// table with an entry per slot, where each enabled slot has a row per DCI, and
    /// a keyboard (if any) on an enabled slot's endpoint.
    pub closed spec fn wf(self) -> bool {
        &&& valid_ctx_size(self.ctx_size)
        &&& self.dcbaa.wf()
        &&& self.dcbaa.spec_max_slots() == self.max_slots
        &&& self.transfer_rings@.len() == self.max_slots + 1
        &&& self.devices@.len() == self.max_slots + 1
        &&& forall|s: int|
            0 <= s < self.transfer_rings@.len() ==> #[trigger] self.transfer_rings@[s]@.len() == 0
                || self.transfer_rings@[s]@.len() == DCI_COUNT
        &&& doorbells_fit(self.db.base)
        &&& interrupter0_fits(self.rt.base)
        &&& operational_fits(self.op.base)
        &&& self.keyboard matches Some(kb) ==> {
            &&& kb.slot_id <= self.max_slots
            &&& kb.dci < DCI_COUNT
        }
    }

    /// The capability registers.
    pub closed spec fn spec_cap(self) -> CapabilityRegs {
        self.cap
    }

    /// Context size (32 or 64 bytes).
    pub closed spec fn spec_ctx_size(self) -> usize {
        self.ctx_size
    }

    /// Maximum device slots.
    pub closed spec fn spec_max_slots(self) -> u8 {
        self.max_slots
    }

    /// Maximum ports.
    pub closed spec fn spec_max_ports(self) -> u8 {
        self.max_ports
    }

    /// The command ring.
    pub closed spec fn spec_cmd_ring(self) -> CommandRing {
        self.cmd_ring
    }

    /// The event ring of interrupter 0.
    pub closed spec fn spec_evt_ring(self) -> EventRing {
        self.evt_ring
    }

    /// The Device Context Base Address Array.
    pub closed spec fn spec_dcbaa(self) -> Dcbaa {
        self.dcbaa
    }

    /// The transfer rings, by slot and DCI.
    pub closed spec fn spec_transfer_rings(self) -> Seq<Seq<Option<TransferRing>>> {
        self.transfer_rings@.map_values(|row: Vec<Option<TransferRing>>| row@)
    }

    /// The keyboard, if one was set up.
    pub closed spec fn spec_keyboard(self) -> Option<KeyboardInfo> {
        self.keyboard
    }

    /// Base address of the doorbell array.
    pub closed spec fn spec_doorbell_base(self) -> usize {
        self.db.base
    }

    /// Base address of the runtime registers.
    pub closed spec fn spec_runtime_base(self) -> usize {
        self.rt.base
    }

    /// Base address of the operational registers.
    pub closed spec fn spec_operational_base(self) -> usize {
        self.op.base
    }

    /// The device records, by slot ID.
    pub closed spec fn spec_devices(self) -> Seq<Option<UsbDevice>> {
        self.devices@
    }

    /// The register layout and sizes of `self` and `other` agree.
    pub closed spec fn same_layout(self, other: Self) -> bool {
        &&& self.bar0 == other.bar0
        &&& self.cap == other.cap
        &&& self.op == other.op
        &&& self.rt == other.rt
        &&& self.db == other.db
        &&& self.ctx_size == other.ctx_size
        &&& self.max_slots == other.max_slots
        &&& self.max_ports == other.max_ports
    }

    /// Driver state for the controller whose BAR0 holds the capability registers
    /// `cap`, with the DCBAA at `dcbaa_phys`, the command ring segment at
    /// `cmd_ring_phys`, and the event ring segment at `evt_ring_phys` described by
    /// the segment table at `erst_phys`: no slot enabled, no keyboard.
    pub fn new(
        cap: CapabilityRegs,
        dcbaa_phys: u64,
        cmd_ring_phys: u64,
        evt_ring_phys: u64,
        erst_phys: u64,
    ) -> (r: Self)
        requires
            capability_layout_fits(cap),
            dcbaa_phys + 8 * (field(cap.raw@[1] as int, 0x1, 0x100) + 1) <= u64::MAX,
            segment_fits(cmd_ring_phys),
            segment_fits(evt_ring_phys),
        ensures
            r.wf(),
            r.spec_cap() == cap,
            r.spec_max_slots() == field(cap.raw@[1] as int, 0x1, 0x100),
            r.spec_max_ports() == field(cap.raw@[1] as int, 0x100_0000, 0x100),
            r.spec_ctx_size() == (if field(cap.raw@[4] as int, 0x4, 0x2) == 1 {
                64usize
            } else {
                32usize
            }),
            r.spec_operational_base() == cap.base + field(cap.raw@[0] as int, 0x1, 0x100),
            r.spec_runtime_base() == cap.base + (cap.raw@[6] - cap.raw@[6] % 32),
            r.spec_doorbell_base() == cap.base + (cap.raw@[5] - cap.raw@[5] % 4),
            r.spec_dcbaa().spec_phys() == dcbaa_phys,
            r.spec_dcbaa().spec_device_contexts() == Seq::new(
                (r.spec_max_slots() + 1) as nat,
                |i: int| None::<u64>,
            ),
            r.spec_cmd_ring().spec_ring_phys() == cmd_ring_phys,
            r.spec_cmd_ring().spec_enqueue_idx() == 0,
            r.spec_cmd_ring().spec_cycle(),
            r.spec_evt_ring().spec_ring_phys() == evt_ring_phys,
            r.spec_evt_ring().spec_erst_phys() == erst_phys,
            r.spec_evt_ring().spec_dequeue_idx() == 0,
            r.spec_evt_ring().spec_cycle(),
            r.spec_transfer_rings() == Seq::new(
                (r.spec_max_slots() + 1) as nat,
                |i: int| Seq::<Option<TransferRing>>::empty(),
            ),
            r.spec_keyboard() is None,
            r.spec_devices().len() == r.spec_max_slots() + 1,
            forall|s: int| 0 <= s < r.spec_devices().len() ==> #[trigger] r.spec_devices()[s] is None,
    {
        let max_slots = cap.max_slots();
        let max_ports = cap.max_ports();
        let ctx_size = cap.context_size();
        let op = OperationalRegs::new(cap.operational_base());
        let rt = RuntimeRegs::new(cap.runtime_base());
        let db = DoorbellRegs::new(cap.doorbell_base());
        let dcbaa = Dcbaa::new(dcbaa_phys, max_slots);
        let cmd_ring = CommandRing::new(cmd_ring_phys);
        let evt_ring = EventRing::new(evt_ring_phys, erst_phys);

        // Initialize transfer ring tracking: one (empty) row per slot
        let mut transfer_rings: Vec<Vec<Option<TransferRing>>> = Vec::new();
        let mut i: usize = 0;
        while i <= max_slots as usize
            invariant
                i <= max_slots + 1,
                transfer_rings@.len() == i,
                forall|s: int| 0 <= s < i ==> #[trigger] transfer_rings@[s]@.len() == 0,
            decreases max_slots + 1 - i,
        {
            transfer_rings.push(Vec::new());
            i = i + 1;
        }
        let mut devices: Vec<Option<UsbDevice>> = Vec::new();
        let mut i: usize = 0;
        while i <= max_slots as usize
            invariant
                i <= max_slots + 1,
                devices@.len() == i,
                forall|s: int| 0 <= s < i ==> #[trigger] devices@[s] is None,
            decreases max_slots + 1 - i,
        {
            devices.push(None);
            i = i + 1;
        }
        let r = Self {
            bar0: cap.base,
            cap,
            op,
            rt,
            db,
            ctx_size,
            max_slots,
            max_ports,
            cmd_ring,
            evt_ring,
            dcbaa,
            transfer_rings,
            keyboard: None,
            devices,
        };
        assert forall|s: int| 0 <= s < r.transfer_rings@.len() implies #[trigger] r.transfer_rings@[s]@
            =~= Seq::<Option<TransferRing>>::empty() by {}
        assert(r.spec_transfer_rings() =~= Seq::new(
            (max_slots + 1) as nat,
            |i: int| Seq::<Option<TransferRing>>::empty(),
        ));
        r
    }

    /// Context size (32 or 64 bytes).
    pub fn ctx_size(&self) -> (r: usize)
        ensures
            r == self.spec_ctx_size(),
    {
        self.ctx_size
    }

    /// Maximum device slots.
    pub fn max_slots(&self) -> (r: u8)
        ensures
            r == self.spec_max_slots(),
    {
        self.max_slots
    }

    /// Maximum ports.
    pub fn max_ports(&self) -> (r: u8)
        ensures
            r == self.spec_max_ports(),
    {
        self.max_ports
    }

    /// Capability registers.
    pub fn cap(&self) -> (r: CapabilityRegs)
        ensures
            r == self.spec_cap(),
    {
        self.cap
    }

    /// Operational registers.
    pub fn op(&self) -> (r: OperationalRegs)
        ensures
            r.base == self.spec_operational_base(),
    {
        self.op
    }

    /// Runtime registers.
    pub fn rt(&self) -> (r: RuntimeRegs)
        ensures
            r.base == self.spec_runtime_base(),
    {
        self.rt
    }

    /// Command ring.
    pub fn cmd_ring(&self) -> (r: &CommandRing)
        ensures
            *r == self.spec_cmd_ring(),
    {
        &self.cmd_ring
    }

    /// Event ring of interrupter 0.
    pub fn evt_ring(&self) -> (r: &EventRing)
        ensures
            *r == self.spec_evt_ring(),
    {
        &self.evt_ring
    }

    /// Device Context Base Address Array.
    pub fn dcbaa(&self) -> (r: &Dcbaa)
        ensures
            *r == self.spec_dcbaa(),
    {
        &self.dcbaa
    }

    // -----------------------------------------------------------------------
    // Controller start-up values
    // -----------------------------------------------------------------------

    /// USBCMD with Run/Stop cleared: stops the controller.
    pub fn halt_command(usbcmd: u32) -> (r: u32)
        ensures
            r == with_field(usbcmd as int, USBCMD_RS as int, 2, 0),
    {
        set_field32(usbcmd, USBCMD_RS, 2, 0)
    }

    /// USBCMD with Host Controller Reset set.
    pub fn reset_command(usbcmd: u32) -> (r: u32)
        ensures
            r == with_field(usbcmd as int, USBCMD_HCRST as int, 2, 1),
    {
        set_field32(usbcmd, USBCMD_HCRST, 2, 1)
    }

    /// Whether a USBCMD value shows the Host Controller Reset still in progress.
    pub fn reset_in_progress(usbcmd: u32) -> (r: bool)
        ensures
            r == (field(usbcmd as int, USBCMD_HCRST as int, 2) == 1),
    {
        get_field32(usbcmd, USBCMD_HCRST, 2) != 0
    }

    /// USBCMD with Run/Stop and Interrupter Enable set: starts the controller.
    pub fn run_command(usbcmd: u32) -> (r: u32)
        ensures
            r == with_field(
                with_field(usbcmd as int, USBCMD_RS as int, 2, 1),
                USBCMD_INTE as int,
                2,
                1,
            ),
    {
        let v = set_field32(usbcmd, USBCMD_RS, 2, 1);
        set_field32(v, USBCMD_INTE, 2, 1)
    }

    /// IMAN value that enables interrupter 0 and clears a pending interrupt.
    pub fn interrupter_enable_value() -> (r: u32)
        ensures
            r == IMAN_IP + IMAN_IE,
    {
        IMAN_IP + IMAN_IE
    }

    /// CONFIG value: MaxSlotsEn (bits 7:0) = every slot the controller has.
    pub fn config_value(&self) -> (r: u32)
        ensures
            r == self.spec_max_slots(),
    {
        self.max_slots as u32
    }

    /// Initial ERDP value: the dequeue pointer of the event ring.
    pub fn initial_erdp(&self) -> (r: u64)
        ensures
            r == self.spec_evt_ring().spec_ring_phys() + self.spec_evt_ring().spec_dequeue_idx()
                * Trb::SIZE,
    {
        self.evt_ring.dequeue_phys()
    }

    // -----------------------------------------------------------------------
    // Controller start-up (xHCI spec 4.2)
    // -----------------------------------------------------------------------

    /// The first step of start-up: read USBSTS to see whether the controller is ready.
    pub fn init_start(&self) -> (r: (InitPhase, InitAction))
        requires
            self.wf(),
        ensures
            r == (
                InitPhase::WaitReady { polls_left: INIT_POLLS },
                InitAction::Read32 { addr: (self.spec_operational_base() + OP_USBSTS) as usize },
            ),
    {
        (InitPhase::WaitReady { polls_left: INIT_POLLS }, InitAction::Read32 { addr: self.op.register_addr(OP_USBSTS) })
    }

    /// One step of start-up: given the phase and the value of the register the
    /// previous action read (ignored after a write), the next phase and action.
    ///
    /// The controller must first become ready; it is halted if it runs, reset,
    /// and ready again; then MaxSlotsEn, DCBAAP, CRCR, and interrupter 0 (ERSTSZ,
    /// ERDP, then ERSTBA; IMOD; IMAN) are programmed; finally Run/Stop and
    /// Interrupter Enable are set and the controller must no longer be halted.
    /// Each wait gives up after `INIT_POLLS` reads.
    pub fn init_step(&self, phase: InitPhase, value: u32) -> (r: (InitPhase, InitAction))
        requires
            self.wf(),
        ensures
            r == self.init_transition(phase, value),
    {
        let usbsts = self.op.register_addr(OP_USBSTS);
        let usbcmd = self.op.register_addr(OP_USBCMD);
        match phase {
            InitPhase::WaitReady { polls_left } => {
                if OperationalRegs::is_ready(value) {
                    (InitPhase::CheckHalted, InitAction::Read32 { addr: usbsts })
                } else if polls_left <= 1 {
                    (InitPhase::Finished, InitAction::Failed(InitFailure::NotReady))
                } else {
                    (InitPhase::WaitReady { polls_left: polls_left - 1 }, InitAction::Read32 { addr: usbsts })
                }
            },
            InitPhase::CheckHalted => {
                if OperationalRegs::is_halted(value) {
                    (InitPhase::Reset, InitAction::Read32 { addr: usbcmd })
                } else {
                    (InitPhase::Halt, InitAction::Read32 { addr: usbcmd })
                }
            },
            InitPhase::Halt => (
                InitPhase::HaltSent,
                InitAction::Write32 { addr: usbcmd, value: Self::halt_command(value) },
            ),
            InitPhase::HaltSent => (
                InitPhase::WaitHalted { polls_left: INIT_POLLS },
                InitAction::Read32 { addr: usbsts },
            ),
            InitPhase::WaitHalted { polls_left } => {
                if OperationalRegs::is_halted(value) {
                    (InitPhase::Reset, InitAction::Read32 { addr: usbcmd })
                } else if polls_left <= 1 {
                    (InitPhase::Finished, InitAction::Failed(InitFailure::NotHalted))
                } else {
                    (InitPhase::WaitHalted { polls_left: polls_left - 1 }, InitAction::Read32 { addr: usbsts })
                }
            },
            InitPhase::Reset => (
                InitPhase::ResetSent,
                InitAction::Write32 { addr: usbcmd, value: Self::reset_command(value) },
            ),
            InitPhase::ResetSent => (
                InitPhase::WaitResetClear { polls_left: INIT_POLLS },
                InitAction::Read32 { addr: usbcmd },
            ),
            InitPhase::WaitResetClear { polls_left } => {
                if !Self::reset_in_progress(value) {
                    (InitPhase::WaitReadyAfterReset { polls_left: INIT_POLLS }, InitAction::Read32 { addr: usbsts })
                } else if polls_left <= 1 {
                    (InitPhase::Finished, InitAction::Failed(InitFailure::ResetStuck))
                } else {
                    (InitPhase::WaitResetClear { polls_left: polls_left - 1 }, InitAction::Read32 { addr: usbcmd })
                }
            },
            InitPhase::WaitReadyAfterReset { polls_left } => {
                if OperationalRegs::is_ready(value) {
                    (
                        InitPhase::ConfigSent,
                        InitAction::Write32 { addr: self.op.register_addr(OP_CONFIG), value: self.config_value() },
                    )
                } else if polls_left <= 1 {
                    (InitPhase::Finished, InitAction::Failed(InitFailure::NotReadyAfterReset))
                } else {
                    (
                        InitPhase::WaitReadyAfterReset { polls_left: polls_left - 1 },
                        InitAction::Read32 { addr: usbsts },
                    )
                }
            },
            InitPhase::ConfigSent => (
                InitPhase::DcbaapSent,
                InitAction::Write64 { addr: self.op.register_addr(OP_DCBAAP), value: self.dcbaa.phys_addr() },
            ),
            InitPhase::DcbaapSent => (
                InitPhase::CrcrSent,
                InitAction::Write64 {
                    addr: self.op.register_addr(OP_CRCR),
                    value: self.cmd_ring.phys_addr_with_cycle(),
                },
            ),
            InitPhase::CrcrSent => (
                InitPhase::ErstszSent,
                InitAction::Write32 {
                    addr: self.rt.interrupter_register_addr(0, IR_ERSTSZ),
                    value: self.evt_ring.erst_size(),
                },
            ),
            InitPhase::ErstszSent => (
                InitPhase::ErdpSent,
                InitAction::Write64 {
                    addr: self.rt.interrupter_register_addr(0, IR_ERDP),
                    value: self.evt_ring.dequeue_phys(),
                },
            ),
            InitPhase::ErdpSent => (
                InitPhase::ErstbaSent,
                InitAction::Write64 {
                    addr: self.rt.interrupter_register_addr(0, IR_ERSTBA),
                    value: self.evt_ring.erst_phys(),
                },
            ),
            InitPhase::ErstbaSent => (
                InitPhase::ImodSent,
                InitAction::Write32 {
                    addr: self.rt.interrupter_register_addr(0, IR_IMOD),
                    value: IMOD_INTERVAL,
                },
            ),
            InitPhase::ImodSent => (
                InitPhase::ImanSent,
                InitAction::Write32 {
                    addr: self.rt.interrupter_register_addr(0, IR_IMAN),
                    value: Self::interrupter_enable_value(),
                },
            ),
            InitPhase::ImanSent => (InitPhase::Run, InitAction::Read32 { addr: usbcmd }),
            InitPhase::Run => (
                InitPhase::RunSent,
                InitAction::Write32 { addr: usbcmd, value: Self::run_command(value) },
            ),
            InitPhase::RunSent => (InitPhase::CheckRunning, InitAction::Read32 { addr: usbsts }),
            InitPhase::CheckRunning => {
                if OperationalRegs::is_halted(value) {
                    (InitPhase::Finished, InitAction::Failed(InitFailure::StillHalted))
                } else {
                    (InitPhase::Finished, InitAction::Done)
                }
            },
            InitPhase::Finished => (InitPhase::Finished, InitAction::Done),
        }
    }

    /// The start-up transition function (see `init_step`).
    pub open spec fn init_transition(self, phase: InitPhase, value: u32) -> (InitPhase, InitAction) {
        let op = self.spec_operational_base();
        let rt_ir = self.spec_runtime_base() + RT_IR_BASE;
        let usbsts = (op + OP_USBSTS) as usize;
        let usbcmd = (op + OP_USBCMD) as usize;
        let ready = field(value as int, USBSTS_CNR as int, 2) == 0;
        let halted = field(value as int, USBSTS_HCH as int, 2) == 1;
        let resetting = field(value as int, USBCMD_HCRST as int, 2) == 1;
        match phase {
            InitPhase::WaitReady { polls_left } => if ready {
                (InitPhase::CheckHalted, InitAction::Read32 { addr: usbsts })
            } else if polls_left <= 1 {
                (InitPhase::Finished, InitAction::Failed(InitFailure::NotReady))
            } else {
                (InitPhase::WaitReady { polls_left: (polls_left - 1) as u32 }, InitAction::Read32 { addr: usbsts })
            },
            InitPhase::CheckHalted => if halted {
                (InitPhase::Reset, InitAction::Read32 { addr: usbcmd })
            } else {
                (InitPhase::Halt, InitAction::Read32 { addr: usbcmd })
            },
            InitPhase::Halt => (
                InitPhase::HaltSent,
                InitAction::Write32 {
                    addr: usbcmd,
                    value: with_field(value as int, USBCMD_RS as int, 2, 0) as u32,
                },
            ),
            InitPhase::HaltSent => (
                InitPhase::WaitHalted { polls_left: INIT_POLLS },
                InitAction::Read32 { addr: usbsts },
            ),
            InitPhase::WaitHalted { polls_left } => if halted {
                (InitPhase::Reset, InitAction::Read32 { addr: usbcmd })
            } else if polls_left <= 1 {
                (InitPhase::Finished, InitAction::Failed(InitFailure::NotHalted))
            } else {
                (InitPhase::WaitHalted { polls_left: (polls_left - 1) as u32 }, InitAction::Read32 { addr: usbsts })
            },
            InitPhase::Reset => (
                InitPhase::ResetSent,
                InitAction::Write32 {
                    addr: usbcmd,
                    value: with_field(value as int, USBCMD_HCRST as int, 2, 1) as u32,
                },
            ),
            InitPhase::ResetSent => (
                InitPhase::WaitResetClear { polls_left: INIT_POLLS },
                InitAction::Read32 { addr: usbcmd },
            ),
            InitPhase::WaitResetClear { polls_left } => if !resetting {
                (InitPhase::WaitReadyAfterReset { polls_left: INIT_POLLS }, InitAction::Read32 { addr: usbsts })
            } else if polls_left <= 1 {
                (InitPhase::Finished, InitAction::Failed(InitFailure::ResetStuck))
            } else {
                (
                    InitPhase::WaitResetClear { polls_left: (polls_left - 1) as u32 },
                    InitAction::Read32 { addr: usbcmd },
                )
            },
            InitPhase::WaitReadyAfterReset { polls_left } => if ready {
                (
                    InitPhase::ConfigSent,
                    InitAction::Write32 {
                        addr: (op + OP_CONFIG) as usize,
                        value: self.spec_max_slots() as u32,
                    },
                )
            } else if polls_left <= 1 {
                (InitPhase::Finished, InitAction::Failed(InitFailure::NotReadyAfterReset))
            } else {
                (
                    InitPhase::WaitReadyAfterReset { polls_left: (polls_left - 1) as u32 },
                    InitAction::Read32 { addr: usbsts },
                )
            },
            InitPhase::ConfigSent => (
                InitPhase::DcbaapSent,
                InitAction::Write64 { addr: (op + OP_DCBAAP) as usize, value: self.spec_dcbaa().spec_phys() },
            ),
            InitPhase::DcbaapSent => (
                InitPhase::CrcrSent,
                InitAction::Write64 {
                    addr: (op + OP_CRCR) as usize,
                    value: (self.spec_cmd_ring().spec_ring_phys() + cycle_flag(
                        self.spec_cmd_ring().spec_cycle(),
                    )) as u64,
                },
            ),
            InitPhase::CrcrSent => (
                InitPhase::ErstszSent,
                InitAction::Write32 { addr: (rt_ir + IR_ERSTSZ) as usize, value: 1 },
            ),
            InitPhase::ErstszSent => (
                InitPhase::ErdpSent,
                InitAction::Write64 {
                    addr: (rt_ir + IR_ERDP) as usize,
                    value: (self.spec_evt_ring().spec_ring_phys() + self.spec_evt_ring().spec_dequeue_idx()
                        * Trb::SIZE) as u64,
                },
            ),
            InitPhase::ErdpSent => (
                InitPhase::ErstbaSent,
                InitAction::Write64 {
                    addr: (rt_ir + IR_ERSTBA) as usize,
                    value: self.spec_evt_ring().spec_erst_phys(),
                },
            ),
            InitPhase::ErstbaSent => (
                InitPhase::ImodSent,
                InitAction::Write32 { addr: (rt_ir + IR_IMOD) as usize, value: IMOD_INTERVAL },
            ),
            InitPhase::ImodSent => (
                InitPhase::ImanSent,
                InitAction::Write32 { addr: (rt_ir + IR_IMAN) as usize, value: (IMAN_IP + IMAN_IE) as u32 },
            ),
            InitPhase::ImanSent => (InitPhase::Run, InitAction::Read32 { addr: usbcmd }),
            InitPhase::Run => (
                InitPhase::RunSent,
                InitAction::Write32 {
                    addr: usbcmd,
                    value: with_field(
                        with_field(value as int, USBCMD_RS as int, 2, 1),
                        USBCMD_INTE as int,
                        2,
                        1,
                    ) as u32,
                },
            ),
            InitPhase::RunSent => (InitPhase::CheckRunning, InitAction::Read32 { addr: usbsts }),
            InitPhase::CheckRunning => if halted {
                (InitPhase::Finished, InitAction::Failed(InitFailure::StillHalted))
            } else {
                (InitPhase::Finished, InitAction::Done)
            },
            InitPhase::Finished => (InitPhase::Finished, InitAction::Done),
        }
    }

    /// The actions start-up takes from `phase` when the reads it asks for give
    /// `values` in turn (a value after a write is ignored).
    pub open spec fn init_actions(self, phase: InitPhase, values: Seq<u32>) -> Seq<InitAction>
        decreases values.len(),
    {
        if values.len() == 0 {
            seq![]
        } else {
            let (next, action) = self.init_transition(phase, values[0]);
            seq![action] + self.init_actions(next, values.drop_first())
        }
    }

    /// Once the controller is ready after its reset and MaxSlotsEn is written,
    /// the next seven actions program DCBAAP, CRCR, and then interrupter 0:
    /// ERSTSZ, ERDP, ERSTBA (in this order), IMOD and IMAN, whatever is read in
    /// between.
    pub proof fn lemma_init_programs_in_order(self, values: Seq<u32>)
        requires
            values.len() == 7,
        ensures
            ({
                let op = self.spec_operational_base();
                let rt_ir = self.spec_runtime_base() + RT_IR_BASE;
                self.init_actions(InitPhase::ConfigSent, values) == seq![
                    InitAction::Write64 {
                        addr: (op + OP_DCBAAP) as usize,
                        value: self.spec_dcbaa().spec_phys(),
                    },
                    InitAction::Write64 {
                        addr: (op + OP_CRCR) as usize,
                        value: (self.spec_cmd_ring().spec_ring_phys() + cycle_flag(
                            self.spec_cmd_ring().spec_cycle(),
                        )) as u64,
                    },
                    InitAction::Write32 { addr: (rt_ir + IR_ERSTSZ) as usize, value: 1 },
                    InitAction::Write64 {
                        addr: (rt_ir + IR_ERDP) as usize,
                        value: (self.spec_evt_ring().spec_ring_phys()
                            + self.spec_evt_ring().spec_dequeue_idx() * Trb::SIZE) as u64,
                    },
                    InitAction::Write64 {
                        addr: (rt_ir + IR_ERSTBA) as usize,
                        value: self.spec_evt_ring().spec_erst_phys(),
                    },
                    InitAction::Write32 { addr: (rt_ir + IR_IMOD) as usize, value: IMOD_INTERVAL },
                    InitAction::Write32 {
                        addr: (rt_ir + IR_IMAN) as usize,
                        value: (IMAN_IP + IMAN_IE) as u32,
                    },
                ]
            }),
    {
        reveal_with_fuel(XhciController::init_actions, 8);
        assert(values.drop_first().drop_first().drop_first().drop_first().drop_first().drop_first().drop_first().len() == 0);
    }

    /// Start-up always ends: from any phase but `Finished` whose wait counter is
    /// within `INIT_POLLS`, a step leads to such a phase lower in `init_measure`.
    pub proof fn lemma_init_step_progresses(self, phase: InitPhase, value: u32)
        requires
            init_phase_valid(phase),
            phase != InitPhase::Finished,
        ensures
            init_phase_valid(self.init_transition(phase, value).0),
            init_measure(self.init_transition(phase, value).0) < init_measure(phase),
    {
    }

    /// A start-up wait keeps polling while it has polls left: from any wait phase
    /// with `p > 1` polls left, a read that does not show what the wait waits for
    /// (Controller Not Ready cleared, HC Halted set, Host Controller Reset cleared)
    /// leads to the same wait with `p - 1` polls left and the same register read
    /// again; the wait fails only once its last poll shows nothing.
    pub proof fn lemma_init_waits_keep_polling(self, p: u32, value: u32)
        ensures
            ({
                let usbsts = (self.spec_operational_base() + OP_USBSTS) as usize;
                let usbcmd = (self.spec_operational_base() + OP_USBCMD) as usize;
                let not_ready = field(value as int, USBSTS_CNR as int, 2) == 1;
                let running = field(value as int, USBSTS_HCH as int, 2) == 0;
                let resetting = field(value as int, USBCMD_HCRST as int, 2) == 1;
                &&& (p > 1 && not_ready) ==> self.init_transition(InitPhase::WaitReady { polls_left: p }, value)
                    == (InitPhase::WaitReady { polls_left: (p - 1) as u32 }, InitAction::Read32 { addr: usbsts })
                &&& (p > 1 && running) ==> self.init_transition(InitPhase::WaitHalted { polls_left: p }, value)
                    == (InitPhase::WaitHalted { polls_left: (p - 1) as u32 }, InitAction::Read32 { addr: usbsts })
                &&& (p > 1 && resetting) ==> self.init_transition(
                    InitPhase::WaitResetClear { polls_left: p },
                    value,
                ) == (InitPhase::WaitResetClear { polls_left: (p - 1) as u32 }, InitAction::Read32 { addr: usbcmd })
                &&& (p > 1 && not_ready) ==> self.init_transition(
                    InitPhase::WaitReadyAfterReset { polls_left: p },
                    value,
                ) == (
                    InitPhase::WaitReadyAfterReset { polls_left: (p - 1) as u32 },
                    InitAction::Read32 { addr: usbsts },
                )
                &&& (p <= 1 && not_ready) ==> self.init_transition(
                    InitPhase::WaitReadyAfterReset { polls_left: p },
                    value,
                ) == (InitPhase::Finished, InitAction::Failed(InitFailure::NotReadyAfterReset))
                &&& !not_ready ==> self.init_transition(InitPhase::WaitReadyAfterReset { polls_left: p }, value).0
                    == InitPhase::ConfigSent
            }),
    {
    }

    // -----------------------------------------------------------------------
    // Port handling
    // -----------------------------------------------------------------------

    /// PORTSC value that starts a port reset: keeps power and the other control
    /// bits, sets Port Reset, and writes 0 to the RW1C change bits and to Port
    /// Enabled (which a 1 would disable).
    pub fn port_reset_value(portsc: u32) -> (r: u32)
        ensures
            r == with_field(
                with_field(with_field(portsc as int, PORTSC_PED as int, 2, 0), PORTSC_CSC as int, 0x80, 0),
                PORTSC_PR as int,
                2,
                1,
            ),
    {
        let v = set_field32(portsc, PORTSC_PED, 2, 0);
        let v = set_field32(v, PORTSC_CSC, 0x80, 0);
        set_field32(v, PORTSC_PR, 2, 1)
    }

    /// When a PORTSC value shows Port Reset Change, the value that acknowledges it
    /// (writes 1 to PRC only among the change bits); `None` while the reset runs.
    pub fn port_reset_done(portsc: u32) -> (r: Option<u32>)
        ensures
            field(portsc as int, PORTSC_PRC as int, 2) == 0 ==> r is None,
            field(portsc as int, PORTSC_PRC as int, 2) == 1 ==> r == Some(
                with_field(
                    with_field(portsc as int, PORTSC_CSC as int, 0x80, 0),
                    PORTSC_PRC as int,
                    2,
                    1,
                ) as u32,
            ),
    {
        if get_field32(portsc, PORTSC_PRC, 2) != 0 {
            let v = set_field32(portsc, PORTSC_CSC, 0x80, 0);
            Some(set_field32(v, PORTSC_PRC, 2, 1))
        } else {
            None
        }
    }

    /// One poll of a port reset: given PORTSC as read and the polls left (start
    /// with `PORT_RESET_POLLS`), the acknowledging PORTSC value once Port Reset
    /// Change is set, another poll, or the timeout after the last poll.
    pub fn port_reset_poll(portsc: u32, polls_left: u32) -> (r: PollStep<u32>)
        ensures
            r == (match port_reset_done_spec(portsc) {
                Some(ack) => PollStep::Finished(ack),
                None => if polls_left <= 1 {
                    PollStep::TimedOut
                } else {
                    PollStep::Continue { polls_left: (polls_left - 1) as u32 }
                },
            }),
    {
        match Self::port_reset_done(portsc) {
            Some(ack) => PollStep::Finished(ack),
            None => if polls_left <= 1 {
                PollStep::TimedOut
            } else {
                PollStep::Continue { polls_left: polls_left - 1 }
            },
        }
    }

    /// One poll of a wait for a command completion: given what the event ring
    /// gave (`take_event`) and the polls left (start with `MAX_EVENT_POLL_RETRIES`),
    /// the completion event, another poll (any other event is passed over), or
    /// the timeout after the last poll.
    pub fn command_wait_poll(evt: Option<Trb>, polls_left: u32) -> (r: PollStep<Trb>)
        ensures
            r == wait_poll(evt, TRB_TYPE_COMMAND_COMPLETION, polls_left),
    {
        match evt {
            Some(e) if Self::ends_command_wait(&e) => PollStep::Finished(e),
            _ => if polls_left <= 1 {
                PollStep::TimedOut
            } else {
                PollStep::Continue { polls_left: polls_left - 1 }
            },
        }
    }

    /// One poll of a wait for a transfer event: as `command_wait_poll`, ended by a
    /// Transfer Event of any slot and endpoint.
    pub fn transfer_wait_poll(evt: Option<Trb>, polls_left: u32) -> (r: PollStep<Trb>)
        ensures
            r == wait_poll(evt, TRB_TYPE_TRANSFER_EVENT, polls_left),
    {
        match evt {
            Some(e) if Self::ends_transfer_wait(&e) => PollStep::Finished(e),
            _ => if polls_left <= 1 {
                PollStep::TimedOut
            } else {
                PollStep::Continue { polls_left: polls_left - 1 }
            },
        }
    }

    // -----------------------------------------------------------------------
    // Command ring helpers
    // -----------------------------------------------------------------------

    /// Put a command TRB on the command ring: returns the ring write and the
    /// doorbell write that hands it to the controller.
    pub fn send_command(&mut self, trb: Trb) -> (r: (Enqueued, RegisterWrite32))
        requires
            old(self).wf(),
        ensures
            final(self).wf(),
            final(self).same_layout(*old(self)),
            final(self).spec_devices() == old(self).spec_devices(),
            r.0 == producer_write(
                old(self).spec_cmd_ring().spec_ring_phys(),
                old(self).spec_cmd_ring().spec_enqueue_idx(),
                old(self).spec_cmd_ring().spec_cycle(),
                trb,
            ),
            final(self).spec_cmd_ring().spec_ring_phys() == old(self).spec_cmd_ring().spec_ring_phys(),
            (final(self).spec_cmd_ring().spec_enqueue_idx(), final(self).spec_cmd_ring().spec_cycle())
                == cursor_step(
                old(self).spec_cmd_ring().spec_enqueue_idx(),
                old(self).spec_cmd_ring().spec_cycle(),
                producer_slots(),
            ),
            r.1.addr == old(self).spec_doorbell_base(),
            r.1.value == 0,
            final(self).spec_evt_ring() == old(self).spec_evt_ring(),
            final(self).spec_dcbaa() == old(self).spec_dcbaa(),
            final(self).spec_transfer_rings() == old(self).spec_transfer_rings(),
            final(self).spec_keyboard() == old(self).spec_keyboard(),
    {
        let w = self.cmd_ring.enqueue(trb);
        (w, self.db.ring_command())
    }

    /// Consume the event found at the event ring's dequeue slot, if it is a new
    /// one: returns it and the ERDP value to write.
    pub fn take_event(&mut self, found: Trb) -> (r: Option<(Trb, u64)>)
        requires
            old(self).wf(),
        ensures
            final(self).wf(),
            final(self).same_layout(*old(self)),
            final(self).spec_devices() == old(self).spec_devices(),
            final(self).spec_cmd_ring() == old(self).spec_cmd_ring(),
            final(self).spec_dcbaa() == old(self).spec_dcbaa(),
            final(self).spec_transfer_rings() == old(self).spec_transfer_rings(),
            final(self).spec_keyboard() == old(self).spec_keyboard(),
            final(self).spec_evt_ring().spec_ring_phys() == old(self).spec_evt_ring().spec_ring_phys(),
            final(self).spec_evt_ring().spec_erst_phys() == old(self).spec_evt_ring().spec_erst_phys(),
            found.spec_cycle_bit() != old(self).spec_evt_ring().spec_cycle() ==> {
                &&& r is None
                &&& final(self).spec_evt_ring() == old(self).spec_evt_ring()
            },
            found.spec_cycle_bit() == old(self).spec_evt_ring().spec_cycle() ==> {
                &&& (
                    final(self).spec_evt_ring().spec_dequeue_idx(),
                    final(self).spec_evt_ring().spec_cycle(),
                ) == cursor_step(
                    old(self).spec_evt_ring().spec_dequeue_idx(),
                    old(self).spec_evt_ring().spec_cycle(),
                    RING_SEGMENT_TRBS as int,
                )
                &&& r == Some(
                    (
                        found,
                        erdp_with_ehb(
                            final(self).spec_evt_ring().spec_ring_phys()
                                + final(self).spec_evt_ring().spec_dequeue_idx() * Trb::SIZE,
                        ) as u64,
                    ),
                )
            },
    {
        match self.evt_ring.dequeue(found) {
            Some(evt) => {
                let erdp = self.evt_ring.dequeue_phys();
                Some((evt, erdp + ERDP_EHB))
            },
            None => None,
        }
    }

    /// Whether an event ends the wait for a command: a Command Completion Event.
    pub fn ends_command_wait(evt: &Trb) -> (r: bool)
        ensures
            r == (evt.spec_trb_type() == TRB_TYPE_COMMAND_COMPLETION),
    {
        evt.trb_type() == TRB_TYPE_COMMAND_COMPLETION
    }

    /// Whether an event ends the wait for a transfer: a Transfer Event (any slot
    /// and endpoint); every other event is passed over.
    pub fn ends_transfer_wait(evt: &Trb) -> (r: bool)
        ensures
            r == (evt.spec_trb_type() == TRB_TYPE_TRANSFER_EVENT),
    {
        evt.trb_type() == TRB_TYPE_TRANSFER_EVENT
    }

    /// Port ID (bits 31:24 of the parameter) of a Port Status Change Event.
    pub fn port_status_change_port(evt: &Trb) -> (r: u8)
        ensures
            r == field(evt.spec_parameter(), 0x100_0000, 0x100),
    {
        get_field32(evt.parameter_lo, 0x100_0000, 0x100) as u8
    }

    // -----------------------------------------------------------------------
    // Port enumeration
    // -----------------------------------------------------------------------

    /// The connected ports, in port order, given the PORTSC value of each port
    /// (`portsc[i]` for port `i + 1`). A connected port that is not enabled gets
    /// a port reset before its device is enumerated.
    pub fn enumerate_ports(&self, portsc: &[u32]) -> (r: Vec<ConnectedPort>)
        requires
            portsc@.len() == self.spec_max_ports(),
        ensures
            r@ == connected_ports(portsc@, portsc@.len() as int),
    {
        let mut r: Vec<ConnectedPort> = Vec::new();
        let mut i: usize = 0;
        while i < portsc.len()
            invariant
                i <= portsc@.len(),
                portsc@.len() <= 255,
                r@ == connected_ports(portsc@, i as int),
            decreases portsc@.len() - i,
        {
            let v = portsc[i];
            let connected = get_field32(v, PORTSC_CCS, 2) != 0;
            let enabled = get_field32(v, PORTSC_PED, 2) != 0;
            let speed = OperationalRegs::port_speed(v);
            if connected {
                r.push(ConnectedPort { port: (i + 1) as u8, speed, enabled });
            }
            i = i + 1;
        }
        r
    }

    /// Controller status: the USBCMD and USBSTS flags worth reporting, and the
    /// connected ports with their speed and enable state, given the values of
    /// USBCMD, USBSTS and each port's PORTSC.
    pub fn dump_status(&self, usbcmd: u32, usbsts: u32, portsc: &[u32]) -> (r: ControllerStatus)
        requires
            portsc@.len() == self.spec_max_ports(),
        ensures
            r.usbcmd == usbcmd,
            r.usbsts == usbsts,
            r.running == (field(usbcmd as int, USBCMD_RS as int, 2) == 1),
            r.halted == (field(usbsts as int, USBSTS_HCH as int, 2) == 1),
            r.event_interrupt == (field(usbsts as int, USBSTS_EINT as int, 2) == 1),
            r.port_change == (field(usbsts as int, USBSTS_PCD as int, 2) == 1),
            r.not_ready == (field(usbsts as int, USBSTS_CNR as int, 2) == 1),
            r.host_error == (field(usbsts as int, USBSTS_HCE as int, 2) == 1),
            r.ports@ == connected_ports(portsc@, portsc@.len() as int),
            r.slots@ == enabled_slots(
                self.spec_transfer_rings(),
                self.spec_devices(),
                self.spec_keyboard(),
                self.spec_transfer_rings().len() as int,
            ),
    {
        let slots = self.slot_status();
        ControllerStatus {
            usbcmd,
            usbsts,
            running: get_field32(usbcmd, USBCMD_RS, 2) != 0,
            halted: get_field32(usbsts, USBSTS_HCH, 2) != 0,
            event_interrupt: get_field32(usbsts, USBSTS_EINT, 2) != 0,
            port_change: get_field32(usbsts, USBSTS_PCD, 2) != 0,
            not_ready: get_field32(usbsts, USBSTS_CNR, 2) != 0,
            host_error: get_field32(usbsts, USBSTS_HCE, 2) != 0,
            ports: self.enumerate_ports(portsc),
            slots,
        }
    }

    /// The enabled slots in slot order, each marked when it holds the keyboard.
    fn slot_status(&self) -> (r: Vec<SlotStatus>)
        ensures
            r@ == enabled_slots(
                self.spec_transfer_rings(),
                self.spec_devices(),
                self.spec_keyboard(),
                self.spec_transfer_rings().len() as int,
            ),
    {
        let mut r: Vec<SlotStatus> = Vec::new();
        let mut s: usize = 1;
        let n = self.transfer_rings.len();
        while s < n
            invariant
                1 <= s,
                s <= n || (n == 0 && s == 1),
                n == self.transfer_rings@.len(),
                r@ == enabled_slots(self.spec_transfer_rings(), self.spec_devices(), self.spec_keyboard(), s as int),
            decreases n - s,
        {
            let keyboard = match &self.keyboard {
                Some(kb) => kb.slot_id as usize == s,
                None => false,
            };
            if self.transfer_rings[s].len() > 0 {
                let device = if s < self.devices.len() {
                    match &self.devices[s] {
                        Some(d) => Some(
                            DeviceStatus {
                                port: d.port,
                                speed: d.speed,
                                configured: d.configured,
                                ids: match d.descriptor {
                                    Some(desc) => Some((desc.id_vendor, desc.id_product)),
                                    None => None,
                                },
                            },
                        ),
                        None => None,
                    }
                } else {
                    None
                };
                r.push(SlotStatus { slot_id: s as u8, keyboard, device });
            }
            s = s + 1;
        }
        assert(self.spec_transfer_rings().len() == n);
        if n == 0 {
            assert(enabled_slots(self.spec_transfer_rings(), self.spec_devices(), self.spec_keyboard(), 1) =~= seq![]);
        } else {
            assert(s == n);
        }
        r
    }

    // -----------------------------------------------------------------------
    // Device slot management
    // -----------------------------------------------------------------------

    /// The slot a completed Enable Slot command allocated, if it succeeded.
    pub fn enable_slot_result(evt: &Trb) -> (r: Option<u8>)
        ensures
            evt.spec_completion_code() != TRB_COMPLETION_SUCCESS ==> r is None,
            evt.spec_completion_code() == TRB_COMPLETION_SUCCESS ==> r == Some(
                evt.spec_slot_id() as u8,
            ),
    {
        if evt.completion_code() != TRB_COMPLETION_SUCCESS {
            return None;
        }
        Some(evt.slot_id())
    }

    /// Record that slot `slot_id` is enabled with its Device Context at `dc_phys`:
    /// the DCBAA entry of the slot, whose address is returned, is to hold `dc_phys`,
    /// and the slot gets a fresh row of transfer rings (one per DCI, none set up).
    pub fn register_slot(&mut self, slot_id: u8, dc_phys: u64) -> (r: u64)
        requires
            old(self).wf(),
            1 <= slot_id <= old(self).spec_max_slots(),
            dc_phys + MAX_DEVICE_CONTEXT_SIZE <= u64::MAX,
        ensures
            final(self).wf(),
            final(self).same_layout(*old(self)),
            final(self).spec_devices() == old(self).spec_devices(),
            r == old(self).spec_dcbaa().spec_phys() + 8 * slot_id,
            final(self).spec_dcbaa().spec_phys() == old(self).spec_dcbaa().spec_phys(),
            final(self).spec_dcbaa().spec_max_slots() == old(self).spec_dcbaa().spec_max_slots(),
            final(self).spec_dcbaa().spec_device_contexts() == old(self).spec_dcbaa().spec_device_contexts().update(slot_id as int, Some(dc_phys)),
            final(self).spec_transfer_rings() == old(self).spec_transfer_rings().update(
                slot_id as int,
                Seq::new(DCI_COUNT as nat, |i: int| None::<TransferRing>),
            ),
            final(self).spec_cmd_ring() == old(self).spec_cmd_ring(),
            final(self).spec_evt_ring() == old(self).spec_evt_ring(),
            final(self).spec_keyboard() == old(self).spec_keyboard(),
    {
        let entry = self.dcbaa.register_device_context(slot_id, dc_phys);
        // Initialize transfer ring storage for this slot (32 possible DCIs: 0..31)
        let mut row: Vec<Option<TransferRing>> = Vec::new();
        let mut i: usize = 0;
        while i < DCI_COUNT
            invariant
                i <= DCI_COUNT,
                row@ == Seq::new(i as nat, |j: int| None::<TransferRing>),
            decreases DCI_COUNT - i,
        {
            row.push(None);
            i = i + 1;
            assert(row@ =~= Seq::new(i as nat, |j: int| None::<TransferRing>));
        }
        let ghost old_rows = self.transfer_rings@;
        self.transfer_rings.set(slot_id as usize, row);
        proof {
            assert forall|s: int| 0 <= s < self.transfer_rings@.len() implies #[trigger] self.transfer_rings@[s]@.len()
                == 0 || self.transfer_rings@[s]@.len() == DCI_COUNT by {
                if s != slot_id {
                    assert(self.transfer_rings@[s] == old_rows[s]);
                }
            }
            assert(self.spec_transfer_rings() =~= old(self).spec_transfer_rings().update(
                slot_id as int,
                Seq::new(DCI_COUNT as nat, |i: int| None::<TransferRing>),
            ));
        }
        entry
    }

    /// Set up a transfer ring for endpoint `dci` of enabled slot `slot_id` over the
    /// zeroed segment at `ring_phys`. Returns the Link TRB to write in the last
    /// slot of the segment, and the TR Dequeue Pointer (with DCS) for the
    /// endpoint's context.
    pub fn install_transfer_ring(&mut self, slot_id: u8, dci: u8, ring_phys: u64) -> (r: (
        Trb,
        u64,
    ))
        requires
            old(self).wf(),
            slot_id <= old(self).spec_max_slots(),
            old(self).spec_transfer_rings()[slot_id as int].len() == DCI_COUNT,
            dci < DCI_COUNT,
            segment_fits(ring_phys),
        ensures
            final(self).wf(),
            final(self).same_layout(*old(self)),
            final(self).spec_devices() == old(self).spec_devices(),
            final(self).spec_transfer_rings().len() == old(self).spec_transfer_rings().len(),
            forall|s: int|
                0 <= s < final(self).spec_transfer_rings().len() && s != slot_id ==> #[trigger] final(self).spec_transfer_rings()[s] == old(self).spec_transfer_rings()[s],
            final(self).spec_transfer_rings()[slot_id as int].len() == DCI_COUNT,
            forall|d: int|
                0 <= d < DCI_COUNT && d != dci ==> #[trigger] final(self).spec_transfer_rings()[slot_id as int][d] == old(self).spec_transfer_rings()[slot_id as int][d],
            final(self).spec_transfer_rings()[slot_id as int][dci as int] matches Some(tr) && {
                &&& tr.spec_ring_phys() == ring_phys
                &&& tr.spec_enqueue_idx() == 0
                &&& tr.spec_cycle()
            },
            r.0 == link_trb_for(ring_phys, true),
            r.1 == ring_phys + 1,
            final(self).spec_cmd_ring() == old(self).spec_cmd_ring(),
            final(self).spec_evt_ring() == old(self).spec_evt_ring(),
            final(self).spec_dcbaa() == old(self).spec_dcbaa(),
            final(self).spec_keyboard() == old(self).spec_keyboard(),
    {
        let tr = TransferRing::new(ring_phys);
        let link = tr.link_trb();
        let dequeue = tr.phys_addr_with_dcs();
        let ghost old_rows = self.transfer_rings@;
        let mut row: Vec<Option<TransferRing>> = Vec::new();
        std::mem::swap(&mut row, &mut self.transfer_rings[slot_id as usize]);
        row.set(dci as usize, Some(tr));
        self.transfer_rings.set(slot_id as usize, row);
        proof {
            assert forall|s: int| 0 <= s < self.transfer_rings@.len() implies #[trigger] self.transfer_rings@[s]@.len()
                == 0 || self.transfer_rings@[s]@.len() == DCI_COUNT by {
                if s != slot_id {
                    assert(self.transfer_rings@[s] == old_rows[s]);
                }
            }
            assert forall|s: int|
                0 <= s < self.spec_transfer_rings().len() && s != slot_id implies #[trigger] self.spec_transfer_rings()[s]
                == old(self).spec_transfer_rings()[s] by {
                assert(self.transfer_rings@[s] == old_rows[s]);
            }
        }
        (link, dequeue)
    }

    // -----------------------------------------------------------------------
    // Input Contexts for Address Device and Configure Endpoint
    // -----------------------------------------------------------------------

    /// The Input Context contents of an Address Device command for a device on
    /// root hub port `port` at `slot_speed`, whose default control endpoint has
    /// maximum packet size `max_packet_size` and its transfer ring's dequeue
    /// pointer (with DCS) at `ep0_dequeue`: adds the Slot Context (route string 0,
    /// one context entry) and the EP0 context (control endpoint, CErr 3, average
    /// TRB length 8).
    pub fn address_device_input(
        &self,
        port: u8,
        slot_speed: u32,
        max_packet_size: u16,
        ep0_dequeue: u64,
    ) -> (r: AddressDeviceInput)
        requires
            self.wf(),
        ensures
            r.add_flags == 0x3,
            r.slot.raw.ctx_size == self.spec_ctx_size(),
            r.slot.raw.dwords@ == dwords_with_field(
                dwords_with_field(
                    dwords_with_field(
                        dwords_with_field(zero_dwords(), 0, 0x1, 0x10_0000, 0),
                        0,
                        0x10_0000,
                        0x10,
                        slot_speed as int,
                    ),
                    0,
                    0x800_0000,
                    0x20,
                    1,
                ),
                1,
                0x1_0000,
                0x100,
                port as int,
            ),
            r.ep0.raw.ctx_size == self.spec_ctx_size(),
            r.ep0.raw.dwords@ == dwords_with_field(
                dwords_with_field(
                    dwords_with_field(
                        dwords_with_field(zero_dwords(), 1, 0x8, 0x8, EP_TYPE_CONTROL as int),
                        1,
                        0x1_0000,
                        0x1_0000,
                        max_packet_size as int,
                    ),
                    1,
                    0x2,
                    0x4,
                    3,
                ),
                4,
                0x1,
                0x1_0000,
                8,
            ).update(2, (ep0_dequeue % 0x1_0000_0000) as u32).update(
                3,
                (ep0_dequeue / 0x1_0000_0000) as u32,
            ),
    {
        let mut slot = SlotContext::new(self.ctx_size);
        slot.set_route_string(0).set_speed(slot_speed).set_context_entries(1)  // Only EP0
        .set_root_hub_port(port);

        let mut ep0 = EndpointContext::new(self.ctx_size);
        ep0.set_ep_type(EP_TYPE_CONTROL).set_max_packet_size(max_packet_size).set_cerr(3);
        ep0.set_tr_dequeue_pointer(ep0_dequeue);
        ep0.set_average_trb_length(8);  // Control transfers average ~8 bytes
        proof {
            assert(ep0.raw.dwords@ =~= dwords_with_field(
                dwords_with_field(
                    dwords_with_field(
                        dwords_with_field(zero_dwords(), 1, 0x8, 0x8, EP_TYPE_CONTROL as int),
                        1,
                        0x1_0000,
                        0x1_0000,
                        max_packet_size as int,
                    ),
                    1,
                    0x2,
                    0x4,
                    3,
                ),
                4,
                0x1,
                0x1_0000,
                8,
            ).update(2, (ep0_dequeue % 0x1_0000_0000) as u32).update(
                3,
                (ep0_dequeue / 0x1_0000_0000) as u32,
            ));
        }
        // Add flags: Slot Context (bit 0) + EP0 Context (bit 1)
        AddressDeviceInput { add_flags: 0x3, slot, ep0 }
    }

    /// The Input Context contents of a Configure Endpoint command that adds the
    /// endpoints `endpoints` of a device on root hub port `port` at `slot_speed`:
    /// add flags for the Slot Context and each endpoint's DCI, a Slot Context whose
    /// Context Entries is the highest DCI (at least 1), and one Endpoint Context
    /// per endpoint (CErr 3, average TRB length 8 for interrupt endpoints, else
    /// 1024), in the order given, each to be written at its DCI.
    pub fn configure_endpoint_input(
        &self,
        port: u8,
        slot_speed: u32,
        endpoints: &[EndpointSetup],
    ) -> (r: ConfigureEndpointInput)
        requires
            self.wf(),
            forall|i: int| 0 <= i < endpoints@.len() ==> #[trigger] endpoints@[i].dci < DCI_COUNT,
        ensures
            forall|b: int|
                0 <= b < 32 ==> (field(r.add_flags as int, #[trigger] pow2(b as nat) as int, 2) == 1
                    <==> adds_context(endpoints@, b)),
            r.max_dci == max_dci_of(endpoints@, endpoints@.len() as int),
            r.slot.raw.ctx_size == self.spec_ctx_size(),
            r.slot.raw.dwords@ == dwords_with_field(
                dwords_with_field(
                    dwords_with_field(
                        dwords_with_field(zero_dwords(), 0, 0x1, 0x10_0000, 0),
                        0,
                        0x10_0000,
                        0x10,
                        slot_speed as int,
                    ),
                    0,
                    0x800_0000,
                    0x20,
                    r.max_dci as int,
                ),
                1,
                0x1_0000,
                0x100,
                port as int,
            ),
            r.endpoints@.len() == endpoints@.len(),
            forall|i: int|
                0 <= i < endpoints@.len() ==> {
                    &&& (#[trigger] r.endpoints@[i]).0 == endpoints@[i].dci
                    &&& r.endpoints@[i].1.raw.ctx_size == self.spec_ctx_size()
                    &&& r.endpoints@[i].1.raw.dwords@ == endpoint_context_dwords(endpoints@[i])
                },
    {
        // Calculate the highest DCI we need
        let mut max_dci: u8 = 1;  // At least EP0
        // Add flags start with Slot Context (bit 0)
        let mut add_flags: u32 = 1;
        let mut contexts: Vec<(u8, EndpointContext)> = Vec::new();
        proof {
            lemma_bit0_flag();
        }
        let mut i: usize = 0;
        while i < endpoints.len()
            invariant
                i <= endpoints@.len(),
                forall|j: int| 0 <= j < endpoints@.len() ==> #[trigger] endpoints@[j].dci < DCI_COUNT,
                valid_ctx_size(self.ctx_size),
                max_dci == max_dci_of(endpoints@, i as int),
                forall|b: int|
                    0 <= b < 32 ==> (field(add_flags as int, #[trigger] pow2(b as nat) as int, 2) == 1
                        <==> adds_context(endpoints@.take(i as int), b)),
                contexts@.len() == i,
                forall|j: int|
                    0 <= j < i ==> {
                        &&& (#[trigger] contexts@[j]).0 == endpoints@[j].dci
                        &&& contexts@[j].1.raw.ctx_size == self.ctx_size
                        &&& contexts@[j].1.raw.dwords@ == endpoint_context_dwords(endpoints@[j])
                    },
            decreases endpoints@.len() - i,
        {
            let ep = &endpoints[i];
            let dci = ep.dci;
            if dci > max_dci {
                max_dci = dci;
            }
            let ghost flags0 = add_flags;
            add_flags = add_flags | (1u32 << dci as u32);
            proof {
                assert forall|b: int| 0 <= b < 32 implies (field(add_flags as int, #[trigger] pow2(b as nat) as int, 2)
                    == 1 <==> adds_context(endpoints@.take(i + 1), b)) by {
                    lemma_set_flag_bit(flags0, dci as u32, b as u32);
                    assert(endpoints@.take(i + 1) =~= endpoints@.take(i as int).push(endpoints@[i as int]));
                    if adds_context(endpoints@.take(i as int), b) && b != 0 {
                        let k = choose|k: int| 0 <= k < i && (#[trigger] endpoints@.take(i as int)[k]).dci == b;
                        assert(endpoints@.take(i + 1)[k] == endpoints@.take(i as int)[k]);
                    }
                    if adds_context(endpoints@.take(i + 1), b) && b != 0 && b != dci {
                        let k = choose|k: int| 0 <= k < i + 1 && (#[trigger] endpoints@.take(i + 1)[k]).dci == b;
                        assert(endpoints@.take(i as int)[k] == endpoints@.take(i + 1)[k]);
                    }
                    if b == dci {
                        assert(endpoints@.take(i + 1)[i as int] == endpoints@[i as int]);
                    }
                }
            }

            // Build endpoint context
            let mut ep_ctx = EndpointContext::new(self.ctx_size);
            ep_ctx.set_ep_type(ep.ep_type).set_max_packet_size(ep.max_packet_size).set_cerr(3).set_interval(
                ep.interval,
            );
            ep_ctx.set_tr_dequeue_pointer(ep.tr_dequeue);
            ep_ctx.set_average_trb_length(
                if ep.is_interrupt {
                    8
                } else {
                    1024
                },
            );
            proof {
                assert(ep_ctx.raw.dwords@ =~= endpoint_context_dwords(endpoints@[i as int]));
            }
            contexts.push((dci, ep_ctx));
            i = i + 1;
        }
        proof {
            assert(endpoints@.take(endpoints@.len() as int) =~= endpoints@);
        }

        let mut slot = SlotContext::new(self.ctx_size);
        slot.set_route_string(0).set_speed(slot_speed).set_context_entries(max_dci).set_root_hub_port(
            port,
        );
        ConfigureEndpointInput { add_flags, max_dci, slot, endpoints: contexts }
    }

    // -----------------------------------------------------------------------
    // Device bring-up
    // -----------------------------------------------------------------------

    /// The first step of bringing up the device on enabled slot `slot_id` at root
    /// hub port `port` (port speed ID `speed`): records the device and asks for the
    /// Address Device command (BSR = 0), whose Input Context `address_device_input`
    /// builds over the device's EP0 transfer ring.
    pub fn device_setup_start(&mut self, slot_id: u8, port: u8, speed: u32) -> (r: (
        DeviceSetupPhase,
        DeviceSetupAction,
    ))
        requires
            old(self).wf(),
            slot_id <= old(self).spec_max_slots(),
        ensures
            r == (DeviceSetupPhase::AddressSent, DeviceSetupAction::AddressDevice { slot_id }),
            final(self).wf(),
            final(self).same_layout(*old(self)),
            final(self).spec_cmd_ring() == old(self).spec_cmd_ring(),
            final(self).spec_evt_ring() == old(self).spec_evt_ring(),
            final(self).spec_dcbaa() == old(self).spec_dcbaa(),
            final(self).spec_transfer_rings() == old(self).spec_transfer_rings(),
            final(self).spec_keyboard() == old(self).spec_keyboard(),
            final(self).spec_devices().len() == old(self).spec_devices().len(),
            forall|s: int|
                0 <= s < old(self).spec_devices().len() && s != slot_id ==> #[trigger] final(self).spec_devices()[s]
                    == old(self).spec_devices()[s],
            final(self).spec_devices()[slot_id as int] matches Some(d) && {
                &&& d.port == port
                &&& d.speed == speed
                &&& d.descriptor is None
                &&& d.config_data@ == Seq::<u8>::empty()
                &&& !d.configured
            },
    {
        let dev = UsbDevice { port, speed, descriptor: None, config_data: Vec::new(), configured: false };
        self.devices.set(slot_id as usize, Some(dev));
        (DeviceSetupPhase::AddressSent, DeviceSetupAction::AddressDevice { slot_id })
    }

    /// The HID boot keyboard (interface, interrupt IN DCI) of the configuration
    /// recorded for slot `slot_id`, if any.
    fn recorded_keyboard(&self, slot_id: u8) -> (r: Option<(u8, u8)>)
        requires
            self.wf(),
            slot_id <= self.spec_max_slots(),
        ensures
            r == record_keyboard(self.spec_devices()[slot_id as int]),
    {
        match &self.devices[slot_id as usize] {
            Some(d) => match parse_configuration(d.config_data.as_slice()) {
                Some(c) => c.keyboard,
                None => None,
            },
            None => None,
        }
    }

    /// The configuration recorded for the device on slot `slot_id`, parsed from
    /// its configuration descriptor set: its endpoints are those the bring-up sets
    /// up transfer rings for and configures.
    pub fn device_configuration(&self, slot_id: u8) -> (r: Option<DeviceConfiguration>)
        requires
            self.wf(),
            slot_id <= self.spec_max_slots(),
        ensures
            r is Some <==> record_configuration(self.spec_devices()[slot_id as int]) is Some,
            r matches Some(c) ==> record_configuration(self.spec_devices()[slot_id as int]) == Some(
                (c.config_value, c.endpoints@, c.keyboard),
            ),
            r matches Some(c) ==> forall|i: int| 0 <= i < c.endpoints@.len() ==> #[trigger] c.endpoints@[i].dci < 32,
    {
        match &self.devices[slot_id as usize] {
            Some(d) => parse_configuration(d.config_data.as_slice()),
            None => None,
        }
    }

    /// One step of bringing up the device on slot `slot_id`: given the phase, the
    /// completion code of the command or transfer the previous action started (0,
    /// Invalid, when no event came) and the bytes that transfer delivered, the
    /// next phase and action; the device's record takes its device descriptor,
    /// its configuration descriptor set and its configured state as they come.
    ///
    /// Address Device, then GET_DESCRIPTOR(Device), GET_DESCRIPTOR(Configuration)
    /// for its 9-byte header and then for wTotalLength bytes, SET_CONFIGURATION
    /// with the configuration's value, transfer rings for its endpoints, Configure
    /// Endpoint, and for a HID boot keyboard SET_PROTOCOL(Boot), SET_IDLE(0) and
    /// its first interrupt transfer. A command or SET_CONFIGURATION that does not
    /// end in Success, a descriptor read that ends neither in Success nor in Short
    /// Packet, or a descriptor that does not parse stops the bring-up with no
    /// further request; the HID requests may fail without stopping it.
    pub fn device_setup_step(&mut self, slot_id: u8, phase: DeviceSetupPhase, completion_code: u8, data: &[u8]) -> (r: (
        DeviceSetupPhase,
        DeviceSetupAction,
    ))
        requires
            old(self).wf(),
            slot_id <= old(self).spec_max_slots(),
        ensures
            r == device_setup_transition(
                slot_id,
                phase,
                completion_code,
                data@,
                old(self).spec_devices()[slot_id as int],
            ),
            final(self).wf(),
            final(self).same_layout(*old(self)),
            final(self).spec_cmd_ring() == old(self).spec_cmd_ring(),
            final(self).spec_evt_ring() == old(self).spec_evt_ring(),
            final(self).spec_dcbaa() == old(self).spec_dcbaa(),
            final(self).spec_transfer_rings() == old(self).spec_transfer_rings(),
            final(self).spec_keyboard() == old(self).spec_keyboard(),
            final(self).spec_devices().len() == old(self).spec_devices().len(),
            forall|s: int|
                0 <= s < old(self).spec_devices().len() && s != slot_id ==> #[trigger] final(self).spec_devices()[s]
                    == old(self).spec_devices()[s],
            device_record_after(
                old(self).spec_devices()[slot_id as int],
                final(self).spec_devices()[slot_id as int],
                phase,
                completion_code,
                data@,
            ),
    {
        let ok = completion_code == TRB_COMPLETION_SUCCESS;
        let delivered = ok || completion_code == TRB_COMPLETION_SHORT_PACKET;
        let keyboard = self.recorded_keyboard(slot_id);
        let get_descriptor = USB_DIR_IN | USB_TYPE_STANDARD | USB_RECIP_DEVICE;
        let descriptor = if phase == DeviceSetupPhase::DeviceDescriptorRequested && delivered {
            parse_device_descriptor(data)
        } else {
            None
        };
        let config = if phase == DeviceSetupPhase::ConfigurationRequested && delivered {
            parse_configuration(data)
        } else {
            None
        };
        // Record what this step learnt of the device.
        let ghost old_devices = self.devices@;
        let mut rec: Option<UsbDevice> = None;
        std::mem::swap(&mut rec, &mut self.devices[slot_id as usize]);
        let rec = match rec {
            Some(mut d) => {
                if descriptor.is_some() {
                    d.descriptor = descriptor;
                }
                if config.is_some() {
                    d.config_data = vstd::slice::slice_to_vec(data);
                }
                if phase == DeviceSetupPhase::ConfigureEndpointSent && ok {
                    d.configured = true;
                }
                Some(d)
            },
            None => None,
        };
        self.devices.set(slot_id as usize, rec);
        proof {
            assert forall|s: int|
                0 <= s < old_devices.len() && s != slot_id implies #[trigger] self.devices@[s] == old_devices[s] by {}
        }
        let r = match phase {
            DeviceSetupPhase::AddressSent => {
                if ok {
                    (
                        DeviceSetupPhase::DeviceDescriptorRequested,
                        DeviceSetupAction::ControlRequest {
                            slot_id,
                            request_type: get_descriptor,
                            request: USB_REQ_GET_DESCRIPTOR,
                            value: (USB_DESC_DEVICE as u16) * 0x100,
                            index: 0,
                            length: DEVICE_DESCRIPTOR_SIZE,
                        },
                    )
                } else {
                    (DeviceSetupPhase::Finished, DeviceSetupAction::Failed(DeviceSetupFailure::AddressDevice))
                }
            },
            DeviceSetupPhase::DeviceDescriptorRequested => {
                if descriptor.is_some() {
                    (
                        DeviceSetupPhase::ConfigHeaderRequested,
                        DeviceSetupAction::ControlRequest {
                            slot_id,
                            request_type: get_descriptor,
                            request: USB_REQ_GET_DESCRIPTOR,
                            value: (USB_DESC_CONFIGURATION as u16) * 0x100,
                            index: 0,
                            length: CONFIG_HEADER_SIZE,
                        },
                    )
                } else {
                    (DeviceSetupPhase::Finished, DeviceSetupAction::Failed(DeviceSetupFailure::DeviceDescriptor))
                }
            },
            DeviceSetupPhase::ConfigHeaderRequested => {
                match config_total_length(data) {
                    Some(total) if delivered => (
                        DeviceSetupPhase::ConfigurationRequested,
                        DeviceSetupAction::ControlRequest {
                            slot_id,
                            request_type: get_descriptor,
                            request: USB_REQ_GET_DESCRIPTOR,
                            value: (USB_DESC_CONFIGURATION as u16) * 0x100,
                            index: 0,
                            length: total,
                        },
                    ),
                    _ => (
                        DeviceSetupPhase::Finished,
                        DeviceSetupAction::Failed(DeviceSetupFailure::ConfigurationHeader),
                    ),
                }
            },
            DeviceSetupPhase::ConfigurationRequested => {
                match &config {
                    Some(c) => (
                        DeviceSetupPhase::SetConfigurationSent,
                        DeviceSetupAction::ControlRequest {
                            slot_id,
                            request_type: USB_DIR_OUT | USB_TYPE_STANDARD | USB_RECIP_DEVICE,
                            request: USB_REQ_SET_CONFIGURATION,
                            value: c.config_value as u16,
                            index: 0,
                            length: 0,
                        },
                    ),
                    None => (DeviceSetupPhase::Finished, DeviceSetupAction::Failed(DeviceSetupFailure::Configuration)),
                }
            },
            DeviceSetupPhase::SetConfigurationSent => {
                if ok {
                    (DeviceSetupPhase::EndpointRingsSetUp, DeviceSetupAction::SetUpEndpointRings { slot_id })
                } else {
                    (DeviceSetupPhase::Finished, DeviceSetupAction::Failed(DeviceSetupFailure::SetConfiguration))
                }
            },
            DeviceSetupPhase::EndpointRingsSetUp => (
                DeviceSetupPhase::ConfigureEndpointSent,
                DeviceSetupAction::ConfigureEndpoint { slot_id },
            ),
            DeviceSetupPhase::ConfigureEndpointSent => {
                if !ok {
                    (DeviceSetupPhase::Finished, DeviceSetupAction::Failed(DeviceSetupFailure::ConfigureEndpoint))
                } else {
                    match keyboard {
                        Some((iface, _dci)) => (
                            DeviceSetupPhase::SetProtocolSent,
                            DeviceSetupAction::ControlRequest {
                                slot_id,
                                request_type: HID_CLASS_INTERFACE_OUT,
                                request: HID_REQ_SET_PROTOCOL,
                                value: HID_PROTOCOL_BOOT,
                                index: iface as u16,
                                length: 0,
                            },
                        ),
                        None => (DeviceSetupPhase::Finished, DeviceSetupAction::Done),
                    }
                }
            },
            DeviceSetupPhase::SetProtocolSent => {
                match keyboard {
                    Some((iface, _dci)) => (
                        DeviceSetupPhase::SetIdleSent,
                        DeviceSetupAction::ControlRequest {
                            slot_id,
                            request_type: HID_CLASS_INTERFACE_OUT,
                            request: HID_REQ_SET_IDLE,
                            value: 0,
                            index: iface as u16,
                            length: 0,
                        },
                    ),
                    None => (DeviceSetupPhase::Finished, DeviceSetupAction::Done),
                }
            },
            DeviceSetupPhase::SetIdleSent => {
                match keyboard {
                    Some((_iface, dci)) => (
                        DeviceSetupPhase::KeyboardSetUp,
                        DeviceSetupAction::SetUpKeyboard { slot_id, dci },
                    ),
                    None => (DeviceSetupPhase::Finished, DeviceSetupAction::Done),
                }
            },
            DeviceSetupPhase::KeyboardSetUp => (DeviceSetupPhase::Finished, DeviceSetupAction::Done),
            DeviceSetupPhase::Finished => (DeviceSetupPhase::Finished, DeviceSetupAction::Done),
        };
        r
    }

    // -----------------------------------------------------------------------
    // Control requests on EP0
    // -----------------------------------------------------------------------

    /// Queue a USB control request on the default control endpoint (DCI 1) of slot
    /// `slot_id`, if its transfer ring exists: returns the physical address of the
    /// Status Stage TRB, the ring writes in order, and the doorbell write.
    pub fn control_request(
        &mut self,
        slot_id: u8,
        request_type: u8,
        request: u8,
        value: u16,
        index: u16,
        data_phys: u64,
        data_len: u16,
    ) -> (r: Option<(u64, Vec<Enqueued>, RegisterWrite32)>)
        requires
            old(self).wf(),
            slot_id <= old(self).spec_max_slots(),
        ensures
            final(self).wf(),
            final(self).same_layout(*old(self)),
            final(self).spec_devices() == old(self).spec_devices(),
            final(self).spec_cmd_ring() == old(self).spec_cmd_ring(),
            final(self).spec_evt_ring() == old(self).spec_evt_ring(),
            final(self).spec_dcbaa() == old(self).spec_dcbaa(),
            final(self).spec_keyboard() == old(self).spec_keyboard(),
            control_transfer_queued(
                old(self).spec_transfer_rings(),
                final(self).spec_transfer_rings(),
                slot_id as int,
                1,
                control_transfer_trbs(request_type, request, value, index, data_phys, data_len),
                old(self).spec_doorbell_base(),
                r,
            ),
    {
        let ghost old_rows = self.transfer_rings@;
        let mut row: Vec<Option<TransferRing>> = Vec::new();
        std::mem::swap(&mut row, &mut self.transfer_rings[slot_id as usize]);
        let ghost row0 = row@;
        if 1 < row.len() {
            let mut entry: Option<TransferRing> = None;
            std::mem::swap(&mut entry, &mut row[1]);
            match entry {
                Some(mut ring) => {
                    let (status, writes) = ring.enqueue_control_transfer(
                        request_type,
                        request,
                        value,
                        index,
                        data_phys,
                        data_len,
                    );
                    row.set(1, Some(ring));
                    self.transfer_rings.set(slot_id as usize, row);
                    let db = self.db.ring_endpoint(slot_id, 1);
                    proof {
                        assert(row@ =~= row0.update(1, Some(ring)));
                        self.lemma_rows_ok(old_rows, slot_id as int);
                        assert forall|s: int|
                            0 <= s < self.spec_transfer_rings().len() && s != slot_id implies #[trigger] self.spec_transfer_rings()[s]
                            == old(self).spec_transfer_rings()[s] by {
                            assert(self.transfer_rings@[s] == old_rows[s]);
                        }
                    }
                    Some((status, writes, db))
                },
                None => {
                    row.set(1, None);
                    self.transfer_rings.set(slot_id as usize, row);
                    proof {
                        assert(row@ =~= row0);
                        self.lemma_rows_ok(old_rows, slot_id as int);
                        assert forall|s: int| 0 <= s < self.transfer_rings@.len() implies #[trigger] self.transfer_rings@[s]@
                            == old_rows[s]@ by {
                            if s != slot_id {
                                assert(self.transfer_rings@[s] == old_rows[s]);
                            }
                        }
                        assert(self.spec_transfer_rings() =~= old(self).spec_transfer_rings());
                    }
                    None
                },
            }
        } else {
            self.transfer_rings.set(slot_id as usize, row);
            proof {
                assert(self.transfer_rings@ =~= old_rows);
                assert(self.spec_transfer_rings() =~= old(self).spec_transfer_rings());
            }
            None
        }
    }

    // -----------------------------------------------------------------------
    // HID Keyboard
    // -----------------------------------------------------------------------

    /// Check if a keyboard has been found and initialized.
    pub fn has_keyboard(&self) -> (r: bool)
        ensures
            r == self.spec_keyboard() is Some,
    {
        self.keyboard.is_some()
    }

    /// Physical address of the keyboard's report buffer, if there is a keyboard.
    pub fn keyboard_report_buffer(&self) -> (r: Option<u64>)
        ensures
            r == (match self.spec_keyboard() {
                Some(kb) => Some(kb.report_buf_phys),
                None => None,
            }),
    {
        match &self.keyboard {
            Some(kb) => Some(kb.report_buf_phys),
            None => None,
        }
    }

    /// Queue an interrupt IN transfer of one keyboard report into `buf_phys` on the
    /// transfer ring of (`slot_id`, `dci`), if that ring exists: returns the ring
    /// write and the doorbell write.
    fn queue_interrupt_in(&mut self, slot_id: u8, dci: u8, buf_phys: u64) -> (r: Option<
        (Enqueued, RegisterWrite32),
    >)
        requires
            old(self).wf(),
            slot_id <= old(self).spec_max_slots(),
            dci < DCI_COUNT,
        ensures
            final(self).wf(),
            final(self).same_layout(*old(self)),
            final(self).spec_devices() == old(self).spec_devices(),
            final(self).spec_cmd_ring() == old(self).spec_cmd_ring(),
            final(self).spec_evt_ring() == old(self).spec_evt_ring(),
            final(self).spec_dcbaa() == old(self).spec_dcbaa(),
            final(self).spec_keyboard() == old(self).spec_keyboard(),
            interrupt_in_queued(
                old(self).spec_transfer_rings(),
                final(self).spec_transfer_rings(),
                slot_id as int,
                dci as int,
                buf_phys,
                old(self).spec_doorbell_base(),
                r,
            ),
    {
        let ghost old_rows = self.transfer_rings@;
        let mut row: Vec<Option<TransferRing>> = Vec::new();
        std::mem::swap(&mut row, &mut self.transfer_rings[slot_id as usize]);
        let ghost row0 = row@;
        if (dci as usize) < row.len() {
            let mut entry: Option<TransferRing> = None;
            std::mem::swap(&mut entry, &mut row[dci as usize]);
            match entry {
                Some(mut ring) => {
                    let w = ring.enqueue_interrupt_in(buf_phys, KEYBOARD_REPORT_SIZE);
                    row.set(dci as usize, Some(ring));
                    self.transfer_rings.set(slot_id as usize, row);
                    let db = self.db.ring_endpoint(slot_id, dci);
                    proof {
                        assert(row@ =~= row0.update(dci as int, Some(ring)));
                        self.lemma_rows_ok(old_rows, slot_id as int);
                        assert forall|s: int|
                            0 <= s < self.spec_transfer_rings().len() && s != slot_id implies #[trigger] self.spec_transfer_rings()[s]
                            == old(self).spec_transfer_rings()[s] by {
                            assert(self.transfer_rings@[s] == old_rows[s]);
                        }
                    }
                    Some((w, db))
                },
                None => {
                    row.set(dci as usize, None);
                    self.transfer_rings.set(slot_id as usize, row);
                    proof {
                        assert(row@ =~= row0);
                        self.lemma_rows_ok(old_rows, slot_id as int);
                        assert forall|s: int| 0 <= s < self.transfer_rings@.len() implies #[trigger] self.transfer_rings@[s]@
                            == old_rows[s]@ by {
                            if s != slot_id {
                                assert(self.transfer_rings@[s] == old_rows[s]);
                            }
                        }
                        assert(self.spec_transfer_rings() =~= old(self).spec_transfer_rings());
                    }
                    None
                },
            }
        } else {
            self.transfer_rings.set(slot_id as usize, row);
            proof {
                assert(self.transfer_rings@ =~= old_rows);
                assert(self.spec_transfer_rings() =~= old(self).spec_transfer_rings());
            }
            None
        }
    }

    /// The rows of the transfer ring table other than `slot` are as in `old_rows`,
    /// and the row of `slot` kept its length: the table's shape is unchanged.
    proof fn lemma_rows_ok(self, old_rows: Seq<Vec<Option<TransferRing>>>, slot: int)
        requires
            self.transfer_rings@.len() == old_rows.len(),
            0 <= slot < old_rows.len(),
            forall|s: int| 0 <= s < old_rows.len() && s != slot ==> self.transfer_rings@[s] == old_rows[s],
            self.transfer_rings@[slot]@.len() == old_rows[slot]@.len(),
            forall|s: int|
                0 <= s < old_rows.len() ==> #[trigger] old_rows[s]@.len() == 0 || old_rows[s]@.len()
                    == DCI_COUNT,
        ensures
            forall|s: int|
                0 <= s < self.transfer_rings@.len() ==> #[trigger] self.transfer_rings@[s]@.len() == 0
                    || self.transfer_rings@[s]@.len() == DCI_COUNT,
    {
        assert forall|s: int| 0 <= s < self.transfer_rings@.len() implies #[trigger] self.transfer_rings@[s]@.len()
            == 0 || self.transfer_rings@[s]@.len() == DCI_COUNT by {
            if s != slot {
                assert(self.transfer_rings@[s] == old_rows[s]);
            }
        }
    }

    /// Set up a HID keyboard on endpoint `dci` of slot `slot_id`, with reports
    /// delivered into the buffer at `report_buf_phys`: queues the first interrupt
    /// IN transfer (if the endpoint's transfer ring exists) and records the keyboard.
    pub fn setup_keyboard(&mut self, slot_id: u8, dci: u8, report_buf_phys: u64) -> (r: Option<
        (Enqueued, RegisterWrite32),
    >)
        requires
            old(self).wf(),
            slot_id <= old(self).spec_max_slots(),
            dci < DCI_COUNT,
        ensures
            final(self).wf(),
            final(self).same_layout(*old(self)),
            final(self).spec_devices() == old(self).spec_devices(),
            final(self).spec_cmd_ring() == old(self).spec_cmd_ring(),
            final(self).spec_evt_ring() == old(self).spec_evt_ring(),
            final(self).spec_dcbaa() == old(self).spec_dcbaa(),
            interrupt_in_queued(
                old(self).spec_transfer_rings(),
                final(self).spec_transfer_rings(),
                slot_id as int,
                dci as int,
                report_buf_phys,
                old(self).spec_doorbell_base(),
                r,
            ),
            final(self).spec_keyboard() matches Some(kb) && {
                &&& kb.slot_id == slot_id
                &&& kb.dci == dci
                &&& kb.report_buf_phys == report_buf_phys
                &&& kb.transfer_pending
                &&& kb.state.spec_prev_report() == empty_report()
                &&& kb.state.spec_events() == Seq::<KeyEvent>::empty()
            },
    {
        // Queue the first interrupt IN transfer
        let r = self.queue_interrupt_in(slot_id, dci, report_buf_phys);
        self.keyboard = Some(
            KeyboardInfo {
                slot_id,
                dci,
                report_buf_phys,
                state: KeyboardState::new(),
                transfer_pending: true,
            },
        );
        r
    }

    /// Take the next buffered key event, if there is a keyboard and it has one.
    pub fn next_keyboard_event(&mut self) -> (r: Option<KeyEvent>)
        requires
            old(self).wf(),
        ensures
            final(self).wf(),
            final(self).same_layout(*old(self)),
            final(self).spec_devices() == old(self).spec_devices(),
            final(self).spec_cmd_ring() == old(self).spec_cmd_ring(),
            final(self).spec_evt_ring() == old(self).spec_evt_ring(),
            final(self).spec_dcbaa() == old(self).spec_dcbaa(),
            final(self).spec_transfer_rings() == old(self).spec_transfer_rings(),
            old(self).spec_keyboard() is None ==> r is None && final(self).spec_keyboard() is None,
            old(self).spec_keyboard() matches Some(kb0) ==> {
                &&& final(self).spec_keyboard() matches Some(kb1) && {
                    &&& kb1.slot_id == kb0.slot_id
                    &&& kb1.dci == kb0.dci
                    &&& kb1.report_buf_phys == kb0.report_buf_phys
                    &&& kb1.transfer_pending == kb0.transfer_pending
                    &&& kb1.state.spec_prev_report() == kb0.state.spec_prev_report()
                    &&& (kb0.state.spec_events().len() == 0 ==> r is None
                        && kb1.state.spec_events() == kb0.state.spec_events())
                    &&& (kb0.state.spec_events().len() > 0 ==> r == Some(kb0.state.spec_events()[0])
                        && kb1.state.spec_events() == kb0.state.spec_events().drop_first())
                }
            },
    {
        match &mut self.keyboard {
            Some(kb) => kb.state.next_event(),
            None => None,
        }
    }

    /// What a transfer event means for the keyboard: a report delivered, a failed
    /// transfer, or an event for some other endpoint.
    pub fn keyboard_transfer(&self, evt: &Trb) -> (r: KeyboardTransfer)
        ensures
            r == keyboard_transfer_kind(self.spec_keyboard(), *evt),
    {
        if evt.trb_type() != TRB_TYPE_TRANSFER_EVENT {
            return KeyboardTransfer::NotKeyboard;
        }
        match &self.keyboard {
            Some(kb) => {
                if evt.slot_id() == kb.slot_id && evt.endpoint_id() == kb.dci {
                    let code = evt.completion_code();
                    if code == TRB_COMPLETION_SUCCESS || code == TRB_COMPLETION_SHORT_PACKET {
                        KeyboardTransfer::Report
                    } else {
                        KeyboardTransfer::Failed
                    }
                } else {
                    KeyboardTransfer::NotKeyboard
                }
            },
            None => KeyboardTransfer::NotKeyboard,
        }
    }

    /// Take the keyboard report read from the report buffer into the keyboard
    /// state, then re-queue the interrupt transfer.
    pub fn keyboard_report(&mut self, data: &[u8]) -> (r: Option<(Enqueued, RegisterWrite32)>)
        requires
            old(self).wf(),
            old(self).spec_keyboard() is Some,
        ensures
            final(self).wf(),
            final(self).same_layout(*old(self)),
            final(self).spec_devices() == old(self).spec_devices(),
            final(self).spec_cmd_ring() == old(self).spec_cmd_ring(),
            final(self).spec_evt_ring() == old(self).spec_evt_ring(),
            final(self).spec_dcbaa() == old(self).spec_dcbaa(),
            ({
                let kb0 = old(self).spec_keyboard()->Some_0;
                &&& interrupt_in_queued(
                    old(self).spec_transfer_rings(),
                    final(self).spec_transfer_rings(),
                    kb0.slot_id as int,
                    kb0.dci as int,
                    kb0.report_buf_phys,
                    old(self).spec_doorbell_base(),
                    r,
                )
                &&& final(self).spec_keyboard() matches Some(kb1) && {
                    &&& kb1.slot_id == kb0.slot_id
                    &&& kb1.dci == kb0.dci
                    &&& kb1.report_buf_phys == kb0.report_buf_phys
                    &&& kb1.transfer_pending == kb0.transfer_pending
                    &&& keyboard_took_report(kb0.state, kb1.state, data@)
                }
            }),
    {
        match &mut self.keyboard {
            Some(kb) => {
                if let Some(report) = BootKeyboardReport::parse(data) {
                    kb.state.process_report(&report);
                }
            },
            None => {},
        }
        self.requeue_keyboard_transfer()
    }

    /// Re-queue the keyboard's interrupt transfer on its transfer ring.
    pub fn requeue_keyboard_transfer(&mut self) -> (r: Option<(Enqueued, RegisterWrite32)>)
        requires
            old(self).wf(),
            old(self).spec_keyboard() is Some,
        ensures
            final(self).wf(),
            final(self).same_layout(*old(self)),
            final(self).spec_devices() == old(self).spec_devices(),
            final(self).spec_cmd_ring() == old(self).spec_cmd_ring(),
            final(self).spec_evt_ring() == old(self).spec_evt_ring(),
            final(self).spec_dcbaa() == old(self).spec_dcbaa(),
            final(self).spec_keyboard() == old(self).spec_keyboard(),
            ({
                let kb = old(self).spec_keyboard()->Some_0;
                interrupt_in_queued(
                    old(self).spec_transfer_rings(),
                    final(self).spec_transfer_rings(),
                    kb.slot_id as int,
                    kb.dci as int,
                    kb.report_buf_phys,
                    old(self).spec_doorbell_base(),
                    r,
                )
            }),
    {
        let (slot_id, dci, buf_phys) = match &self.keyboard {
            Some(kb) => (kb.slot_id, kb.dci, kb.report_buf_phys),
            None => {
                return None;
            },
        };
        self.queue_interrupt_in(slot_id, dci, buf_phys)
    }

    /// When an IMAN value shows Interrupt Pending, the value that clears it (IP is
    /// write-1-to-clear); `None` when nothing is pending.
    pub fn pending_interrupt_ack(iman: u32) -> (r: Option<u32>)
        ensures
            field(iman as int, IMAN_IP as int, 2) == 0 ==> r is None,
            field(iman as int, IMAN_IP as int, 2) == 1 ==> r == Some(
                with_field(iman as int, IMAN_IP as int, 2, 1) as u32,
            ),
    {
        if get_field32(iman, IMAN_IP, 2) != 0 {
            Some(set_field32(iman, IMAN_IP, 2, 1))
        } else {
            None
        }
    }

    /// One step of polling the keyboard, in the order: a buffered key event is
    /// returned at once; otherwise the event ring is drained, each keyboard
    /// report taken into the keyboard state and its transfer queued again (also
    /// after a failed transfer); then a pending interrupt is acknowledged and the
    /// next buffered key event, if any, returned.
    ///
    /// `trb` is the TRB a `ReadEvent` action read, `data` the bytes a
    /// `ReadReport` action read, and `value` the IMAN value a `ReadIman` action
    /// read; each is ignored in the other phases.
    pub fn poll_keyboard_step(
        &mut self,
        phase: KeyboardPollPhase,
        trb: Trb,
        data: &[u8],
        value: u32,
    ) -> (r: (KeyboardPollPhase, KeyboardPollAction))
        requires
            old(self).wf(),
        ensures
            final(self).wf(),
            final(self).same_layout(*old(self)),
            final(self).spec_cmd_ring() == old(self).spec_cmd_ring(),
            final(self).spec_dcbaa() == old(self).spec_dcbaa(),
            final(self).spec_devices() == old(self).spec_devices(),
            final(self).spec_evt_ring().spec_ring_phys() == old(self).spec_evt_ring().spec_ring_phys(),
            final(self).spec_evt_ring().spec_erst_phys() == old(self).spec_evt_ring().spec_erst_phys(),
            old(self).spec_keyboard() is Some ==> final(self).spec_keyboard() is Some,
            ({
                let kb0 = old(self).spec_keyboard();
                let evt0 = old(self).spec_evt_ring();
                let evt1 = final(self).spec_evt_ring();
                let iman_addr = (old(self).spec_runtime_base() + RT_IR_BASE + IR_IMAN) as usize;
                let erdp_addr = (old(self).spec_runtime_base() + RT_IR_BASE + IR_ERDP) as usize;
                let dequeue1 = (evt1.spec_ring_phys() + evt1.spec_dequeue_idx() * Trb::SIZE) as u64;
                let unchanged = final(self).spec_keyboard() == kb0 && evt1 == evt0
                    && final(self).spec_transfer_rings() == old(self).spec_transfer_rings();
                if kb0 is None || phase == KeyboardPollPhase::Finished {
                    &&& r == (KeyboardPollPhase::Finished, KeyboardPollAction::Return { ack: None, event: None })
                    &&& unchanged
                } else {
                    let kb = kb0->Some_0;
                    match phase {
                        KeyboardPollPhase::Start => if kb.state.spec_events().len() > 0 {
                            &&& r == (
                                KeyboardPollPhase::Finished,
                                KeyboardPollAction::Return { ack: None, event: Some(kb.state.spec_events()[0]) },
                            )
                            &&& final(self).spec_keyboard() matches Some(kb1) && kb1.state.spec_events()
                                == kb.state.spec_events().drop_first() && kb1.state.spec_prev_report()
                                == kb.state.spec_prev_report()
                            &&& evt1 == evt0
                            &&& final(self).spec_transfer_rings() == old(self).spec_transfer_rings()
                        } else {
                            &&& r == (
                                KeyboardPollPhase::EventRead,
                                KeyboardPollAction::ReadEvent { erdp: None, passed: None, queued: None, addr: dequeue1 },
                            )
                            &&& unchanged
                        },
                        KeyboardPollPhase::EventRead => if trb.spec_cycle_bit() != evt0.spec_cycle() {
                            &&& r == (KeyboardPollPhase::ImanRead, KeyboardPollAction::ReadIman { addr: iman_addr })
                            &&& unchanged
                        } else {
                            let erdp = erdp_with_ehb(
                                evt1.spec_ring_phys() + evt1.spec_dequeue_idx() * Trb::SIZE,
                            ) as u64;
                            &&& (evt1.spec_dequeue_idx(), evt1.spec_cycle()) == cursor_step(
                                evt0.spec_dequeue_idx(),
                                evt0.spec_cycle(),
                                RING_SEGMENT_TRBS as int,
                            )
                            &&& final(self).spec_keyboard() == kb0
                            &&& match keyboard_transfer_kind(kb0, trb) {
                                KeyboardTransfer::Report => {
                                    &&& r == (
                                        KeyboardPollPhase::ReportRead,
                                        KeyboardPollAction::ReadReport { erdp_addr, erdp, buf: kb.report_buf_phys },
                                    )
                                    &&& final(self).spec_transfer_rings() == old(self).spec_transfer_rings()
                                },
                                KeyboardTransfer::Failed => {
                                    &&& r.0 == KeyboardPollPhase::EventRead
                                    &&& r.1 matches KeyboardPollAction::ReadEvent { erdp: e, passed, queued, addr }
                                        && e == Some((erdp_addr, erdp)) && passed is None && addr == dequeue1
                                        && interrupt_in_queued(
                                        old(self).spec_transfer_rings(),
                                        final(self).spec_transfer_rings(),
                                        kb.slot_id as int,
                                        kb.dci as int,
                                        kb.report_buf_phys,
                                        old(self).spec_doorbell_base(),
                                        queued,
                                    )
                                },
                                KeyboardTransfer::NotKeyboard => {
                                    &&& r == (
                                        KeyboardPollPhase::EventRead,
                                        KeyboardPollAction::ReadEvent {
                                            erdp: Some((erdp_addr, erdp)),
                                            passed: Some(trb),
                                            queued: None,
                                            addr: dequeue1,
                                        },
                                    )
                                    &&& final(self).spec_transfer_rings() == old(self).spec_transfer_rings()
                                },
                            }
                        },
                        KeyboardPollPhase::ReportRead => {
                            &&& r.0 == KeyboardPollPhase::EventRead
                            &&& r.1 matches KeyboardPollAction::ReadEvent { erdp, passed, queued, addr } && erdp
                                is None && passed is None && addr == dequeue1 && interrupt_in_queued(
                                old(self).spec_transfer_rings(),
                                final(self).spec_transfer_rings(),
                                kb.slot_id as int,
                                kb.dci as int,
                                kb.report_buf_phys,
                                old(self).spec_doorbell_base(),
                                queued,
                            )
                            &&& evt1 == evt0
                            &&& final(self).spec_keyboard() matches Some(kb1) && kb1.slot_id == kb.slot_id
                                && kb1.dci == kb.dci && kb1.report_buf_phys == kb.report_buf_phys
                                && keyboard_took_report(kb.state, kb1.state, data@)
                        },
                        KeyboardPollPhase::ImanRead => {
                            let ack = if field(value as int, IMAN_IP as int, 2) == 1 {
                                Some(
                                    RegisterWrite32 {
                                        addr: iman_addr,
                                        value: with_field(value as int, IMAN_IP as int, 2, 1) as u32,
                                    },
                                )
                            } else {
                                None
                            };
                            &&& evt1 == evt0
                            &&& final(self).spec_transfer_rings() == old(self).spec_transfer_rings()
                            &&& r.0 == KeyboardPollPhase::Finished
                            &&& final(self).spec_keyboard() matches Some(kb1) && kb1.state.spec_prev_report()
                                == kb.state.spec_prev_report() && (if kb.state.spec_events().len() > 0 {
                                r.1 == KeyboardPollAction::Return { ack, event: Some(kb.state.spec_events()[0]) }
                                    && kb1.state.spec_events() == kb.state.spec_events().drop_first()
                            } else {
                                r.1 == KeyboardPollAction::Return { ack, event: None } && kb1.state.spec_events()
                                    == kb.state.spec_events()
                            })
                        },
                        KeyboardPollPhase::Finished => true,
                    }
                }
            }),
    {
        if self.keyboard.is_none() || phase == KeyboardPollPhase::Finished {
            return (KeyboardPollPhase::Finished, KeyboardPollAction::Return { ack: None, event: None });
        }
        let iman_addr = self.rt.interrupter_register_addr(0, IR_IMAN);
        let erdp_addr = self.rt.interrupter_register_addr(0, IR_ERDP);
        match phase {
            KeyboardPollPhase::Start => {
                let buffered = match &self.keyboard {
                    Some(kb) => kb.state.has_events(),
                    None => false,
                };
                if buffered {
                    let event = self.next_keyboard_event();
                    (KeyboardPollPhase::Finished, KeyboardPollAction::Return { ack: None, event })
                } else {
                    (
                        KeyboardPollPhase::EventRead,
                        KeyboardPollAction::ReadEvent {
                            erdp: None,
                            passed: None,
                            queued: None,
                            addr: self.evt_ring.dequeue_phys(),
                        },
                    )
                }
            },
            KeyboardPollPhase::EventRead => {
                match self.take_event(trb) {
                    None => (KeyboardPollPhase::ImanRead, KeyboardPollAction::ReadIman { addr: iman_addr }),
                    Some((evt, erdp)) => {
                        match self.keyboard_transfer(&evt) {
                            KeyboardTransfer::Report => {
                                let buf = match &self.keyboard {
                                    Some(kb) => kb.report_buf_phys,
                                    None => 0,
                                };
                                (
                                    KeyboardPollPhase::ReportRead,
                                    KeyboardPollAction::ReadReport { erdp_addr, erdp, buf },
                                )
                            },
                            KeyboardTransfer::Failed => {
                                let queued = self.requeue_keyboard_transfer();
                                (
                                    KeyboardPollPhase::EventRead,
                                    KeyboardPollAction::ReadEvent {
                                        erdp: Some((erdp_addr, erdp)),
                                        passed: None,
                                        queued,
                                        addr: self.evt_ring.dequeue_phys(),
                                    },
                                )
                            },
                            KeyboardTransfer::NotKeyboard => (
                                KeyboardPollPhase::EventRead,
                                KeyboardPollAction::ReadEvent {
                                    erdp: Some((erdp_addr, erdp)),
                                    passed: Some(evt),
                                    queued: None,
                                    addr: self.evt_ring.dequeue_phys(),
                                },
                            ),
                        }
                    },
                }
            },
            KeyboardPollPhase::ReportRead => {
                let queued = self.keyboard_report(data);
                (
                    KeyboardPollPhase::EventRead,
                    KeyboardPollAction::ReadEvent {
                        erdp: None,
                        passed: None,
                        queued,
                        addr: self.evt_ring.dequeue_phys(),
                    },
                )
            },
            KeyboardPollPhase::ImanRead => {
                let ack = match Self::pending_interrupt_ack(value) {
                    Some(v) => Some(RegisterWrite32 { addr: iman_addr, value: v }),
                    None => None,
                };
                let event = self.next_keyboard_event();
                (KeyboardPollPhase::Finished, KeyboardPollAction::Return { ack, event })
            },
            KeyboardPollPhase::Finished => (KeyboardPollPhase::Finished, KeyboardPollAction::Return { ack: None, event: None }),
        }
    }
}

/// A connected root hub port, as its PORTSC shows it.
#[derive(Debug, Clone, Copy, PartialEq, Eq, Structural)]
pub struct ConnectedPort {
    /// Port number (1-indexed)
    pub port: u8,
    /// Port Speed (PORTSC bits 13:10)
    pub speed: u32,
    /// Port Enabled/Disabled
    pub enabled: bool,
}

impl ConnectedPort {
    /// A port that is not enabled is reset before its device is enumerated.
    pub fn needs_reset(&self) -> (r: bool)
        ensures
            r == !self.enabled,
    {
        !self.enabled
    }
}

/// The connected ports among the first `n` PORTSC values, in port order.
pub open spec fn connected_ports(portsc: Seq<u32>, n: int) -> Seq<ConnectedPort>
    decreases n,
{
    if n <= 0 {
        seq![]
    } else {
        let prev = connected_ports(portsc, n - 1);
        let v = portsc[n - 1] as int;
        if field(v, PORTSC_CCS as int, 2) == 1 {
            prev.push(
                ConnectedPort {
                    port: n as u8,
                    speed: field(v, 0x400, 0x10) as u32,
                    enabled: field(v, PORTSC_PED as int, 2) == 1,
                },
            )
        } else {
            prev
        }
    }
}

/// Controller status for diagnostics.
pub struct ControllerStatus {
    pub usbcmd: u32,
    pub usbsts: u32,
    /// USBCMD Run/Stop
    pub running: bool,
    /// USBSTS HC Halted
    pub halted: bool,
    /// USBSTS Event Interrupt
    pub event_interrupt: bool,
    /// USBSTS Port Change Detect
    pub port_change: bool,
    /// USBSTS Controller Not Ready
    pub not_ready: bool,
    /// USBSTS Host Controller Error
    pub host_error: bool,
    /// Connected ports
    pub ports: Vec<ConnectedPort>,
    /// Enabled slots
    pub slots: Vec<SlotStatus>,
}

/// An enabled device slot, for diagnostics.
#[derive(Debug, Clone, Copy)]
pub struct SlotStatus {
    pub slot_id: u8,
    /// Whether the keyboard is on this slot
    pub keyboard: bool,
    /// The device on this slot, if one is recorded
    pub device: Option<DeviceStatus>,
}

/// A recorded device, for diagnostics.
#[derive(Debug, Clone, Copy)]
pub struct DeviceStatus {
    /// Root hub port
    pub port: u8,
    /// Port speed ID
    pub speed: u32,
    /// Whether it was configured
    pub configured: bool,
    /// Vendor and product ID, once the device descriptor was read
    pub ids: Option<(u16, u16)>,
}

/// The diagnostics of the device record `dev`.
pub open spec fn device_status_of(dev: Option<UsbDevice>) -> Option<DeviceStatus> {
    match dev {
        Some(d) => Some(
            DeviceStatus {
                port: d.port,
                speed: d.speed,
                configured: d.configured,
                ids: match d.descriptor {
                    Some(desc) => Some((desc.id_vendor, desc.id_product)),
                    None => None,
                },
            },
        ),
        None => None,
    }
}

/// The enabled slots (those with a transfer ring row) among slots 1 to `n - 1`
/// of `rows`, in slot order, each marked when `keyboard` is on it and with its
/// device record from `devices`.
pub open spec fn enabled_slots(
    rows: Seq<Seq<Option<TransferRing>>>,
    devices: Seq<Option<UsbDevice>>,
    keyboard: Option<KeyboardInfo>,
    n: int,
) -> Seq<SlotStatus>
    decreases n,
{
    if n <= 1 {
        seq![]
    } else {
        let prev = enabled_slots(rows, devices, keyboard, n - 1);
        if rows[n - 1].len() > 0 {
            prev.push(
                SlotStatus {
                    slot_id: (n - 1) as u8,
                    keyboard: keyboard matches Some(kb) && kb.slot_id == n - 1,
                    device: if n - 1 < devices.len() {
                        device_status_of(devices[n - 1])
                    } else {
                        None
                    },
                },
            )
        } else {
            prev
        }
    }
}

/// The Input Context contents of an Address Device command.
pub struct AddressDeviceInput {
    /// Add Context flags (DW1 of the Input Control Context)
    pub add_flags: u32,
    /// Slot Context (entry 1)
    pub slot: SlotContext,
    /// EP0 Context (entry 2, DCI 1)
    pub ep0: EndpointContext,
}

/// What a transfer event means for the keyboard.
#[derive(Debug, Clone, Copy, PartialEq, Eq, Structural)]
pub enum KeyboardTransfer {
    /// Not a transfer event of the keyboard's interrupt endpoint
    NotKeyboard,
    /// A report was delivered into the report buffer (success or short packet)
    Report,
    /// The keyboard's transfer completed with an error
    Failed,
}

/// The meaning of `evt` for `keyboard`.
pub open spec fn keyboard_transfer_kind(keyboard: Option<KeyboardInfo>, evt: Trb) -> KeyboardTransfer {
    match keyboard {
        Some(kb) => if evt.spec_trb_type() == TRB_TYPE_TRANSFER_EVENT && evt.spec_slot_id() == kb.slot_id
            && evt.spec_endpoint_id() == kb.dci {
            if evt.spec_completion_code() == TRB_COMPLETION_SUCCESS || evt.spec_completion_code()
                == TRB_COMPLETION_SHORT_PACKET {
                KeyboardTransfer::Report
            } else {
                KeyboardTransfer::Failed
            }
        } else {
            KeyboardTransfer::NotKeyboard
        },
        None => KeyboardTransfer::NotKeyboard,
    }
}

/// The transfer ring of (`slot`, `dci`) in `rings`, if it exists.
pub open spec fn ring_at(rings: Seq<Seq<Option<TransferRing>>>, slot: int, dci: int) -> Option<
    TransferRing,
> {
    if 0 <= slot < rings.len() && 0 <= dci < rings[slot].len() {
        rings[slot][dci]
    } else {
        None
    }
}

/// `new_rings` is `old_rings` after an interrupt IN transfer of one keyboard
/// report into `buf_phys` was queued on the ring of (`slot`, `dci`), if it exists,
/// and `r` holds the ring write and the doorbell write (doorbell array at `db_base`);
/// with no such ring nothing changes and `r` is `None`.
pub open spec fn interrupt_in_queued(
    old_rings: Seq<Seq<Option<TransferRing>>>,
    new_rings: Seq<Seq<Option<TransferRing>>>,
    slot: int,
    dci: int,
    buf_phys: u64,
    db_base: usize,
    r: Option<(Enqueued, RegisterWrite32)>,
) -> bool {
    match ring_at(old_rings, slot, dci) {
        None => r is None && new_rings == old_rings,
        Some(t0) => {
            &&& new_rings.len() == old_rings.len()
            &&& forall|s: int|
                0 <= s < new_rings.len() && s != slot ==> #[trigger] new_rings[s] == old_rings[s]
            &&& new_rings[slot].len() == old_rings[slot].len()
            &&& forall|d: int|
                0 <= d < new_rings[slot].len() && d != dci ==> #[trigger] new_rings[slot][d]
                    == old_rings[slot][d]
            &&& new_rings[slot][dci] matches Some(t1) && {
                &&& t1.spec_ring_phys() == t0.spec_ring_phys()
                &&& (t1.spec_enqueue_idx(), t1.spec_cycle()) == cursor_step(
                    t0.spec_enqueue_idx(),
                    t0.spec_cycle(),
                    producer_slots(),
                )
            }
            &&& r == Some(
                (
                    producer_write(
                        t0.spec_ring_phys(),
                        t0.spec_enqueue_idx(),
                        t0.spec_cycle(),
                        normal_trb(buf_phys, KEYBOARD_REPORT_SIZE, true, false),
                    ),
                    RegisterWrite32 { addr: (db_base + slot * 4) as usize, value: dci as u32 },
                ),
            )
        },
    }
}

/// `new_rings` is `old_rings` after the TRBs `trbs` of a control transfer were
/// queued on the ring of (`slot`, `dci`), if it exists, and `r` holds the address
/// of the last TRB, the ring writes in order, and the doorbell write (doorbell
/// array at `db_base`); with no such ring nothing changes and `r` is `None`.
pub open spec fn control_transfer_queued(
    old_rings: Seq<Seq<Option<TransferRing>>>,
    new_rings: Seq<Seq<Option<TransferRing>>>,
    slot: int,
    dci: int,
    trbs: Seq<Trb>,
    db_base: usize,
    r: Option<(u64, Vec<Enqueued>, RegisterWrite32)>,
) -> bool {
    match ring_at(old_rings, slot, dci) {
        None => r is None && new_rings == old_rings,
        Some(t0) => {
            &&& new_rings.len() == old_rings.len()
            &&& forall|s: int|
                0 <= s < new_rings.len() && s != slot ==> #[trigger] new_rings[s] == old_rings[s]
            &&& new_rings[slot].len() == old_rings[slot].len()
            &&& forall|d: int|
                0 <= d < new_rings[slot].len() && d != dci ==> #[trigger] new_rings[slot][d]
                    == old_rings[slot][d]
            &&& new_rings[slot][dci] matches Some(t1) && {
                &&& t1.spec_ring_phys() == t0.spec_ring_phys()
                &&& (t1.spec_enqueue_idx(), t1.spec_cycle()) == cursor_steps(
                    t0.spec_enqueue_idx(),
                    t0.spec_cycle(),
                    producer_slots(),
                    trbs.len(),
                )
            }
            &&& r matches Some((status, writes, db)) && {
                &&& writes@ == producer_writes(
                    t0.spec_ring_phys(),
                    t0.spec_enqueue_idx(),
                    t0.spec_cycle(),
                    trbs,
                )
                &&& status == writes@.last().phys
                &&& db == RegisterWrite32 { addr: (db_base + slot * 4) as usize, value: dci as u32 }
            }
        },
    }
}

/// `after` is the keyboard state `before` after taking the report read as `data`:
/// a short read or a rollover report changes nothing; otherwise the report
/// becomes the previous report and its events are queued.
pub open spec fn keyboard_took_report(before: KeyboardState, after: KeyboardState, data: Seq<u8>) -> bool {
    if data.len() < 8 || report_of(data).spec_is_rollover() {
        &&& after.spec_prev_report() == before.spec_prev_report()
        &&& after.spec_events() == before.spec_events()
    } else {
        &&& after.spec_prev_report() == report_of(data)
        &&& after.spec_events() == before.spec_events() + report_events(
            before.spec_prev_report(),
            report_of(data),
        )
    }
}

/// The Input Context contents of a Configure Endpoint command.
pub struct ConfigureEndpointInput {
    /// Add Context flags (DW1 of the Input Control Context)
    pub add_flags: u32,
    /// Highest DCI added
    pub max_dci: u8,
    /// Slot Context (entry 1)
    pub slot: SlotContext,
    /// Endpoint Contexts, each with the DCI it goes to (entry DCI + 1)
    pub endpoints: Vec<(u8, EndpointContext)>,
}

/// Whether a Configure Endpoint for `endpoints` adds context `b`: the Slot
/// Context (0) or the context of an endpoint's DCI.
pub open spec fn adds_context(endpoints: Seq<EndpointSetup>, b: int) -> bool {
    b == 0 || exists|k: int| 0 <= k < endpoints.len() && endpoints[k].dci == b
}

/// The highest DCI among the first `n` endpoints, and at least 1 (EP0).
pub open spec fn max_dci_of(endpoints: Seq<EndpointSetup>, n: int) -> int
    decreases n,
{
    if n <= 0 {
        1
    } else {
        let prev = max_dci_of(endpoints, n - 1);
        if endpoints[n - 1].dci > prev {
            endpoints[n - 1].dci as int
        } else {
            prev
        }
    }
}

/// The dwords of the Endpoint Context built for `ep`.
pub open spec fn endpoint_context_dwords(ep: EndpointSetup) -> Seq<u32> {
    dwords_with_field(
        dwords_with_field(
            dwords_with_field(
                dwords_with_field(
                    dwords_with_field(zero_dwords(), 1, 0x8, 0x8, ep.ep_type as int),
                    1,
                    0x1_0000,
                    0x1_0000,
                    ep.max_packet_size as int,
                ),
                1,
                0x2,
                0x4,
                3,
            ),
            0,
            0x1_0000,
            0x100,
            ep.interval as int,
        ).update(2, (ep.tr_dequeue % 0x1_0000_0000) as u32).update(
            3,
            (ep.tr_dequeue / 0x1_0000_0000) as u32,
        ),
        4,
        0x1,
        0x1_0000,
        if ep.is_interrupt {
            8
        } else {
            1024
        },
    )
}

/// Bit `b` of `x`, for bits below 32, as a field of weight 2^b.
proof fn lemma_bit_as_field(x: u32, b: u32)
    requires
        b < 32,
    ensures
        field(x as int, pow2(b as nat) as int, 2) == ((x >> b) & 1) as int,
{
    vstd::bits::lemma_u32_shr_is_div(x, b);
    let y = x >> b;
    assert(y & 1 == y % 2) by (bit_vector);
}

/// Only bit 0 is set in 1.
proof fn lemma_bit0_flag()
    ensures
        forall|b: int| 0 <= b < 32 ==> (field(1, #[trigger] pow2(b as nat) as int, 2) == 1 <==> b == 0),
{
    assert forall|b: int| 0 <= b < 32 implies (field(1, #[trigger] pow2(b as nat) as int, 2) == 1 <==> b == 0) by {
        lemma_bit_as_field(1, b as u32);
        let bb = b as u32;
        assert(((1u32 >> bb) & 1 == 1) <==> bb == 0) by (bit_vector)
            requires
                bb < 32,
        ;
    }
}

/// Setting bit `d` of `x` sets bit `d` and keeps every other bit.
proof fn lemma_set_flag_bit(x: u32, d: u32, b: u32)
    requires
        d < 32,
        b < 32,
    ensures
        field((x | (1u32 << d)) as int, pow2(b as nat) as int, 2) == 1 <==> (field(
            x as int,
            pow2(b as nat) as int,
            2,
        ) == 1 || b == d),
{
    lemma_bit_as_field(x | (1u32 << d), b);
    lemma_bit_as_field(x, b);
    assert((((x | (1u32 << d)) >> b) & 1 == 1) <==> (((x >> b) & 1) == 1 || b == d)) by (bit_vector)
        requires
            d < 32,
            b < 32,
    ;
}

/// Reads a start-up wait makes before it gives up.
pub const INIT_POLLS: u32 = 1_000_000;

/// Where controller start-up stands: each phase names what the previous action did.
#[derive(Debug, Clone, Copy, PartialEq, Eq, Structural)]
pub enum InitPhase {
    /// USBSTS was read: waiting for Controller Not Ready to clear
    WaitReady { polls_left: u32 },
    /// USBSTS was read: checking whether the controller is halted
    CheckHalted,
    /// USBCMD was read: Run/Stop is cleared next
    Halt,
    /// USBCMD was written with Run/Stop cleared
    HaltSent,
    /// USBSTS was read: waiting for HC Halted
    WaitHalted { polls_left: u32 },
    /// USBCMD was read: Host Controller Reset is set next
    Reset,
    /// USBCMD was written with Host Controller Reset set
    ResetSent,
    /// USBCMD was read: waiting for Host Controller Reset to clear
    WaitResetClear { polls_left: u32 },
    /// USBSTS was read: waiting for Controller Not Ready to clear after the reset
    WaitReadyAfterReset { polls_left: u32 },
    /// CONFIG (MaxSlotsEn) was written
    ConfigSent,
    /// DCBAAP was written
    DcbaapSent,
    /// CRCR was written
    CrcrSent,
    /// ERSTSZ of interrupter 0 was written
    ErstszSent,
    /// ERDP of interrupter 0 was written
    ErdpSent,
    /// ERSTBA of interrupter 0 was written
    ErstbaSent,
    /// IMOD of interrupter 0 was written
    ImodSent,
    /// IMAN of interrupter 0 was written
    ImanSent,
    /// USBCMD was read: Run/Stop and Interrupter Enable are set next
    Run,
    /// USBCMD was written with Run/Stop and Interrupter Enable set
    RunSent,
    /// USBSTS was read: checking that the controller is not halted
    CheckRunning,
    /// Start-up is over
    Finished,
}

/// Why start-up failed.
#[derive(Debug, Clone, Copy, PartialEq, Eq, Structural)]
pub enum InitFailure {
    /// Controller Not Ready did not clear in time
    NotReady,
    /// The controller did not halt in time
    NotHalted,
    /// Host Controller Reset did not clear in time
    ResetStuck,
    /// Controller Not Ready did not clear in time after the reset
    NotReadyAfterReset,
    /// The controller is still halted after Run/Stop was set
    StillHalted,
}

/// What start-up asks of the caller next.
#[derive(Debug, Clone, Copy, PartialEq, Eq, Structural)]
pub enum InitAction {
    /// Read the 32-bit register at `addr`; its value goes to the next step
    Read32 { addr: usize },
    /// Write `value` to the 32-bit register at `addr`
    Write32 { addr: usize, value: u32 },
    /// Write `value` to the 64-bit register at `addr`
    Write64 { addr: usize, value: u64 },
    /// The controller runs
    Done,
    /// Start-up failed
    Failed(InitFailure),
}

/// The wait counter of a start-up phase (0 for a phase that does not wait).
pub open spec fn init_polls_left(phase: InitPhase) -> int {
    match phase {
        InitPhase::WaitReady { polls_left } => polls_left as int,
        InitPhase::WaitHalted { polls_left } => polls_left as int,
        InitPhase::WaitResetClear { polls_left } => polls_left as int,
        InitPhase::WaitReadyAfterReset { polls_left } => polls_left as int,
        _ => 0,
    }
}

/// A start-up phase whose wait counter is within `INIT_POLLS`.
pub open spec fn init_phase_valid(phase: InitPhase) -> bool {
    init_polls_left(phase) <= INIT_POLLS
}

/// How many phases of start-up remain after `phase`, in the order the phases
/// are passed through.
pub open spec fn init_rank(phase: InitPhase) -> int {
    match phase {
        InitPhase::WaitReady { .. } => 20,
        InitPhase::CheckHalted => 19,
        InitPhase::Halt => 18,
        InitPhase::HaltSent => 17,
        InitPhase::WaitHalted { .. } => 16,
        InitPhase::Reset => 15,
        InitPhase::ResetSent => 14,
        InitPhase::WaitResetClear { .. } => 13,
        InitPhase::WaitReadyAfterReset { .. } => 12,
        InitPhase::ConfigSent => 11,
        InitPhase::DcbaapSent => 10,
        InitPhase::CrcrSent => 9,
        InitPhase::ErstszSent => 8,
        InitPhase::ErdpSent => 7,
        InitPhase::ErstbaSent => 6,
        InitPhase::ImodSent => 5,
        InitPhase::ImanSent => 4,
        InitPhase::Run => 3,
        InitPhase::RunSent => 2,
        InitPhase::CheckRunning => 1,
        InitPhase::Finished => 0,
    }
}

/// A bound on the steps left in start-up: the phases still ahead, then the
/// reads left in the current wait.
pub open spec fn init_measure(phase: InitPhase) -> int {
    init_rank(phase) * (INIT_POLLS + 1) + init_polls_left(phase)
}

/// Where the bring-up of a device stands: each phase names what the previous
/// action started.
#[derive(Debug, Clone, Copy, PartialEq, Eq, Structural)]
pub enum DeviceSetupPhase {
    /// Address Device was sent
    AddressSent,
    /// GET_DESCRIPTOR(Device) was sent
    DeviceDescriptorRequested,
    /// GET_DESCRIPTOR(Configuration) was sent for the 9-byte header
    ConfigHeaderRequested,
    /// GET_DESCRIPTOR(Configuration) was sent for the whole set
    ConfigurationRequested,
    /// SET_CONFIGURATION was sent
    SetConfigurationSent,
    /// The endpoints' transfer rings were set up
    EndpointRingsSetUp,
    /// Configure Endpoint was sent
    ConfigureEndpointSent,
    /// SET_PROTOCOL(Boot) was sent to the keyboard interface
    SetProtocolSent,
    /// SET_IDLE(0) was sent to the keyboard interface
    SetIdleSent,
    /// The keyboard was set up
    KeyboardSetUp,
    /// The bring-up is over
    Finished,
}

/// Why the bring-up of a device stopped.
#[derive(Debug, Clone, Copy, PartialEq, Eq, Structural)]
pub enum DeviceSetupFailure {
    /// Address Device did not succeed
    AddressDevice,
    /// GET_DESCRIPTOR(Device) failed
    DeviceDescriptor,
    /// GET_DESCRIPTOR(Configuration header) failed
    ConfigurationHeader,
    /// GET_DESCRIPTOR(Configuration) for the whole set failed
    Configuration,
    /// SET_CONFIGURATION did not succeed
    SetConfiguration,
    /// Configure Endpoint did not succeed
    ConfigureEndpoint,
}

/// What the bring-up of a device asks of the caller next.
#[derive(Debug, Clone, Copy, PartialEq, Eq, Structural)]
pub enum DeviceSetupAction {
    /// Set up the EP0 transfer ring (`install_transfer_ring`, DCI 1), write the
    /// Input Context of `address_device_input`, send Address Device, and hand
    /// back its completion code
    AddressDevice { slot_id: u8 },
    /// Queue the control request on EP0 (`control_request`), with a buffer of
    /// `length` bytes for a device-to-host request, and hand back the completion
    /// code of its Transfer Event and the bytes delivered
    ControlRequest { slot_id: u8, request_type: u8, request: u8, value: u16, index: u16, length: u16 },
    /// Set up a transfer ring (`install_transfer_ring`) for each endpoint of the
    /// configuration and record its TR Dequeue Pointer in the configuration
    SetUpEndpointRings { slot_id: u8 },
    /// Write the Input Context of `configure_endpoint_input` for the configuration's
    /// endpoints, send Configure Endpoint, and hand back its completion code
    ConfigureEndpoint { slot_id: u8 },
    /// Set up the keyboard on endpoint `dci` (`setup_keyboard`)
    SetUpKeyboard { slot_id: u8, dci: u8 },
    /// The device is configured
    Done,
    /// The bring-up stopped
    Failed(DeviceSetupFailure),
}

/// The configuration recorded in `dev`, if there is a record and its
/// configuration descriptor set parses.
pub open spec fn record_configuration(dev: Option<UsbDevice>) -> Option<(u8, Seq<EndpointSetup>, Option<(u8, u8)>)> {
    match dev {
        Some(d) => configuration_of(d.config_data@),
        None => None,
    }
}

/// The HID boot keyboard of the configuration recorded in `dev`, if any.
pub open spec fn record_keyboard(dev: Option<UsbDevice>) -> Option<(u8, u8)> {
    match record_configuration(dev) {
        Some((_value, _eps, kb)) => kb,
        None => None,
    }
}

/// `new` is the device record `old` after a bring-up step from `phase` with
/// completion code `code` and delivered bytes `data`: a device descriptor that
/// parses, and a configuration descriptor set that parses, are recorded as they
/// are read; a successful Configure Endpoint marks the device configured; with no
/// record there is still none.
pub open spec fn device_record_after(
    old: Option<UsbDevice>,
    new: Option<UsbDevice>,
    phase: DeviceSetupPhase,
    code: u8,
    data: Seq<u8>,
) -> bool {
    let ok = code == TRB_COMPLETION_SUCCESS;
    let delivered = ok || code == TRB_COMPLETION_SHORT_PACKET;
    match old {
        None => new is None,
        Some(o) => new matches Some(n) && {
            &&& n.port == o.port
            &&& n.speed == o.speed
            &&& n.descriptor == (if phase == DeviceSetupPhase::DeviceDescriptorRequested && delivered
                && device_descriptor_of(data) is Some {
                device_descriptor_of(data)
            } else {
                o.descriptor
            })
            &&& n.config_data@ == (if phase == DeviceSetupPhase::ConfigurationRequested && delivered
                && configuration_of(data) is Some {
                data
            } else {
                o.config_data@
            })
            &&& n.configured == (o.configured || (phase == DeviceSetupPhase::ConfigureEndpointSent && ok))
        },
    }
}

/// The device bring-up transition function (see `device_setup_step`), for the
/// device record `dev` as it stood before the step.
pub open spec fn device_setup_transition(
    slot_id: u8,
    phase: DeviceSetupPhase,
    code: u8,
    data: Seq<u8>,
    dev: Option<UsbDevice>,
) -> (DeviceSetupPhase, DeviceSetupAction) {
    let ok = code == TRB_COMPLETION_SUCCESS;
    let delivered = ok || code == TRB_COMPLETION_SHORT_PACKET;
    let get_descriptor = (USB_DIR_IN | USB_TYPE_STANDARD | USB_RECIP_DEVICE) as u8;
    let fail = |f: DeviceSetupFailure| (DeviceSetupPhase::Finished, DeviceSetupAction::Failed(f));
    let keyboard = record_keyboard(dev);
    match phase {
        DeviceSetupPhase::AddressSent => if ok {
            (
                DeviceSetupPhase::DeviceDescriptorRequested,
                DeviceSetupAction::ControlRequest {
                    slot_id,
                    request_type: get_descriptor,
                    request: USB_REQ_GET_DESCRIPTOR,
                    value: 0x0100,
                    index: 0,
                    length: DEVICE_DESCRIPTOR_SIZE,
                },
            )
        } else {
            fail(DeviceSetupFailure::AddressDevice)
        },
        DeviceSetupPhase::DeviceDescriptorRequested => if delivered && device_descriptor_of(data) is Some {
            (
                DeviceSetupPhase::ConfigHeaderRequested,
                DeviceSetupAction::ControlRequest {
                    slot_id,
                    request_type: get_descriptor,
                    request: USB_REQ_GET_DESCRIPTOR,
                    value: 0x0200,
                    index: 0,
                    length: CONFIG_HEADER_SIZE,
                },
            )
        } else {
            fail(DeviceSetupFailure::DeviceDescriptor)
        },
        DeviceSetupPhase::ConfigHeaderRequested => if delivered && data.len() >= 4 {
            (
                DeviceSetupPhase::ConfigurationRequested,
                DeviceSetupAction::ControlRequest {
                    slot_id,
                    request_type: get_descriptor,
                    request: USB_REQ_GET_DESCRIPTOR,
                    value: 0x0200,
                    index: 0,
                    length: (data[2] + 256 * data[3]) as u16,
                },
            )
        } else {
            fail(DeviceSetupFailure::ConfigurationHeader)
        },
        DeviceSetupPhase::ConfigurationRequested => match configuration_of(data) {
            Some((value, _eps, _kb)) if delivered => (
                DeviceSetupPhase::SetConfigurationSent,
                DeviceSetupAction::ControlRequest {
                    slot_id,
                    request_type: (USB_DIR_OUT | USB_TYPE_STANDARD | USB_RECIP_DEVICE) as u8,
                    request: USB_REQ_SET_CONFIGURATION,
                    value: value as u16,
                    index: 0,
                    length: 0,
                },
            ),
            _ => fail(DeviceSetupFailure::Configuration),
        },
        DeviceSetupPhase::SetConfigurationSent => if ok {
            (DeviceSetupPhase::EndpointRingsSetUp, DeviceSetupAction::SetUpEndpointRings { slot_id })
        } else {
            fail(DeviceSetupFailure::SetConfiguration)
        },
        DeviceSetupPhase::EndpointRingsSetUp => (
            DeviceSetupPhase::ConfigureEndpointSent,
            DeviceSetupAction::ConfigureEndpoint { slot_id },
        ),
        DeviceSetupPhase::ConfigureEndpointSent => if !ok {
            fail(DeviceSetupFailure::ConfigureEndpoint)
        } else {
            match keyboard {
                Some((iface, _dci)) => (
                    DeviceSetupPhase::SetProtocolSent,
                    DeviceSetupAction::ControlRequest {
                        slot_id,
                        request_type: HID_CLASS_INTERFACE_OUT,
                        request: HID_REQ_SET_PROTOCOL,
                        value: HID_PROTOCOL_BOOT,
                        index: iface as u16,
                        length: 0,
                    },
                ),
                None => (DeviceSetupPhase::Finished, DeviceSetupAction::Done),
            }
        },
        DeviceSetupPhase::SetProtocolSent => match keyboard {
            Some((iface, _dci)) => (
                DeviceSetupPhase::SetIdleSent,
                DeviceSetupAction::ControlRequest {
                    slot_id,
                    request_type: HID_CLASS_INTERFACE_OUT,
                    request: HID_REQ_SET_IDLE,
                    value: 0,
                    index: iface as u16,
                    length: 0,
                },
            ),
            None => (DeviceSetupPhase::Finished, DeviceSetupAction::Done),
        },
        DeviceSetupPhase::SetIdleSent => match keyboard {
            Some((_iface, dci)) => (DeviceSetupPhase::KeyboardSetUp, DeviceSetupAction::SetUpKeyboard { slot_id, dci }),
            None => (DeviceSetupPhase::Finished, DeviceSetupAction::Done),
        },
        DeviceSetupPhase::KeyboardSetUp => (DeviceSetupPhase::Finished, DeviceSetupAction::Done),
        DeviceSetupPhase::Finished => (DeviceSetupPhase::Finished, DeviceSetupAction::Done),
    }
}

/// Whether a device bring-up phase waits on a command or transfer whose failure
/// stops the bring-up: Address Device, the descriptor reads, SET_CONFIGURATION
/// and Configure Endpoint.
pub open spec fn device_setup_stops_on_failure(phase: DeviceSetupPhase) -> bool {
    phase == DeviceSetupPhase::AddressSent || phase == DeviceSetupPhase::DeviceDescriptorRequested
        || phase == DeviceSetupPhase::ConfigHeaderRequested || phase
        == DeviceSetupPhase::ConfigurationRequested || phase == DeviceSetupPhase::SetConfigurationSent
        || phase == DeviceSetupPhase::ConfigureEndpointSent
}

/// How many phases of a device bring-up remain after `phase`.
pub open spec fn device_setup_rank(phase: DeviceSetupPhase) -> int {
    match phase {
        DeviceSetupPhase::AddressSent => 10,
        DeviceSetupPhase::DeviceDescriptorRequested => 9,
        DeviceSetupPhase::ConfigHeaderRequested => 8,
        DeviceSetupPhase::ConfigurationRequested => 7,
        DeviceSetupPhase::SetConfigurationSent => 6,
        DeviceSetupPhase::EndpointRingsSetUp => 5,
        DeviceSetupPhase::ConfigureEndpointSent => 4,
        DeviceSetupPhase::SetProtocolSent => 3,
        DeviceSetupPhase::SetIdleSent => 2,
        DeviceSetupPhase::KeyboardSetUp => 1,
        DeviceSetupPhase::Finished => 0,
    }
}

/// A device descriptor or configuration descriptor set that does not parse
/// stops the bring-up, whatever the completion code: the next action is a failure.
pub proof fn lemma_unparsable_descriptor_stops(slot_id: u8, code: u8, data: Seq<u8>, dev: Option<UsbDevice>)
    ensures
        device_descriptor_of(data) is None ==> device_setup_transition(
            slot_id,
            DeviceSetupPhase::DeviceDescriptorRequested,
            code,
            data,
            dev,
        ) == (DeviceSetupPhase::Finished, DeviceSetupAction::Failed(DeviceSetupFailure::DeviceDescriptor)),
        configuration_of(data) is None ==> device_setup_transition(
            slot_id,
            DeviceSetupPhase::ConfigurationRequested,
            code,
            data,
            dev,
        ) == (DeviceSetupPhase::Finished, DeviceSetupAction::Failed(DeviceSetupFailure::Configuration)),
{
}

/// Keyboard detection: once Configure Endpoint succeeds, the keyboard requests
/// follow exactly when the configuration recorded for the device has a HID boot
/// keyboard interface, addressed to that interface.
pub proof fn lemma_keyboard_requests_iff_detected(slot_id: u8, data: Seq<u8>, dev: Option<UsbDevice>)
    ensures
        ({
            let (p, a) = device_setup_transition(
                slot_id,
                DeviceSetupPhase::ConfigureEndpointSent,
                TRB_COMPLETION_SUCCESS,
                data,
                dev,
            );
            &&& (p == DeviceSetupPhase::SetProtocolSent) == (record_keyboard(dev) is Some)
            &&& record_keyboard(dev) matches Some((iface, _dci)) ==> a matches DeviceSetupAction::ControlRequest {
                request,
                index,
                ..
            } && request == HID_REQ_SET_PROTOCOL && index == iface
            &&& record_keyboard(dev) is None ==> a == DeviceSetupAction::Done
        }),
{
}

/// A failed command or transfer that the bring-up waits on stops it: the next
/// action is a failure and no further request follows.
pub proof fn lemma_device_setup_failure_stops(
    slot_id: u8,
    phase: DeviceSetupPhase,
    code: u8,
    data: Seq<u8>,
    dev: Option<UsbDevice>,
)
    requires
        device_setup_stops_on_failure(phase),
        code != TRB_COMPLETION_SUCCESS,
        (phase == DeviceSetupPhase::DeviceDescriptorRequested || phase
            == DeviceSetupPhase::ConfigHeaderRequested || phase
            == DeviceSetupPhase::ConfigurationRequested) ==> code != TRB_COMPLETION_SHORT_PACKET,
    ensures
        device_setup_transition(slot_id, phase, code, data, dev).0 == DeviceSetupPhase::Finished,
        device_setup_transition(slot_id, phase, code, data, dev).1 is Failed,
        device_setup_transition(
            slot_id,
            DeviceSetupPhase::Finished,
            code,
            data,
            dev,
        ).1 == DeviceSetupAction::Done,
{
}

/// Bring-up always ends: every step from a phase other than `Finished` moves to
/// a phase with fewer phases left.
pub proof fn lemma_device_setup_progresses(
    slot_id: u8,
    phase: DeviceSetupPhase,
    code: u8,
    data: Seq<u8>,
    dev: Option<UsbDevice>,
)
    requires
        phase != DeviceSetupPhase::Finished,
    ensures
        device_setup_rank(device_setup_transition(slot_id, phase, code, data, dev).0)
            < device_setup_rank(phase),
{
}

/// Once SET_CONFIGURATION was sent with completion code `c1`, Configure Endpoint
/// follows exactly when `c1` is Success; and the configuration succeeds (no
/// failure among the next three actions) exactly when both `c1` and the
/// Configure Endpoint code `c3` are Success, whatever `c2` is.
pub proof fn lemma_configuration_succeeds_iff_both_succeed(
    slot_id: u8,
    c1: u8,
    c2: u8,
    c3: u8,
    data: Seq<u8>,
    dev: Option<UsbDevice>,
)
    ensures
        ({
            let (p1, a1) = device_setup_transition(
                slot_id,
                DeviceSetupPhase::SetConfigurationSent,
                c1,
                data,
                dev,
            );
            let (p2, a2) = device_setup_transition(slot_id, p1, c2, data, dev);
            let (p3, a3) = device_setup_transition(slot_id, p2, c3, data, dev);
            &&& (a2 == DeviceSetupAction::ConfigureEndpoint { slot_id }) == (c1
                == TRB_COMPLETION_SUCCESS)
            &&& (a1 is Failed || a3 is Failed) == !(c1 == TRB_COMPLETION_SUCCESS && c3
                == TRB_COMPLETION_SUCCESS)
        }),
{
}

/// Polls a port reset makes before it gives up.
pub const PORT_RESET_POLLS: u32 = 500_000;

/// One poll of a bounded wait.
#[derive(Debug, Clone, Copy, PartialEq, Eq, Structural)]
pub enum PollStep<T> {
    /// The wait is over with this result
    Finished(T),
    /// Poll again, with this many polls left
    Continue { polls_left: u32 },
    /// The last poll passed without a result
    TimedOut,
}

/// What `port_reset_done` gives for `portsc`.
pub open spec fn port_reset_done_spec(portsc: u32) -> Option<u32> {
    if field(portsc as int, PORTSC_PRC as int, 2) == 1 {
        Some(
            with_field(
                with_field(portsc as int, PORTSC_CSC as int, 0x80, 0),
                PORTSC_PRC as int,
                2,
                1,
            ) as u32,
        )
    } else {
        None
    }
}

/// One poll of a wait for an event of type `trb_type`.
pub open spec fn wait_poll(evt: Option<Trb>, trb_type: u32, polls_left: u32) -> PollStep<Trb> {
    match evt {
        Some(e) if e.spec_trb_type() == trb_type => PollStep::Finished(e),
        _ => if polls_left <= 1 {
            PollStep::TimedOut
        } else {
            PollStep::Continue { polls_left: (polls_left - 1) as u32 }
        },
    }
}

/// Where a keyboard poll stands.
#[derive(Debug, Clone, Copy, PartialEq, Eq, Structural)]
pub enum KeyboardPollPhase {
    /// The poll begins
    Start,
    /// The TRB at the event ring's dequeue pointer was read
    EventRead,
    /// The keyboard's report buffer was read
    ReportRead,
    /// IMAN of interrupter 0 was read
    ImanRead,
    /// The poll is over
    Finished,
}

/// What a keyboard poll asks of the caller next.
#[derive(Debug, Clone, Copy)]
pub enum KeyboardPollAction {
    /// Write `erdp` (a 64-bit ERDP address and value) if any, note the `passed`
    /// event (not the keyboard's) if any, perform the `queued` ring and doorbell
    /// writes if any, then read the TRB at `addr`
    ReadEvent {
        erdp: Option<(usize, u64)>,
        passed: Option<Trb>,
        queued: Option<(Enqueued, RegisterWrite32)>,
        addr: u64,
    },
    /// Write `erdp` to ERDP at `erdp_addr`, then read the 8-byte report at `buf`
    ReadReport { erdp_addr: usize, erdp: u64, buf: u64 },
    /// Read IMAN at `addr`
    ReadIman { addr: usize },
    /// Perform the `ack` write if any; the poll's result is `event`
    Return { ack: Option<RegisterWrite32>, event: Option<KeyEvent> },
}

/// A bounded wait lasts as many polls as it is given: it ends with a result
/// exactly when the event is of the awaited type (and then with that event);
/// an empty poll or any other event with `p > 1` polls left continues with
/// `p - 1`, and the wait times out only at its last poll.
pub proof fn lemma_wait_poll_lasts_its_polls(evt: Option<Trb>, trb_type: u32, p: u32)
    ensures
        (wait_poll(evt, trb_type, p) is Finished) == (evt is Some && evt->Some_0.spec_trb_type() == trb_type),
        (wait_poll(evt, trb_type, p) matches PollStep::Finished(e) ==> evt == Some(e)),
        (!(evt is Some && evt->Some_0.spec_trb_type() == trb_type) && p > 1 ==> wait_poll(evt, trb_type, p)
            == (PollStep::<Trb>::Continue { polls_left: (p - 1) as u32 })),
        (!(evt is Some && evt->Some_0.spec_trb_type() == trb_type) && p <= 1 ==> wait_poll(evt, trb_type, p)
            == PollStep::<Trb>::TimedOut),
        (p > 1 ==> wait_poll(None, trb_type, p) == (PollStep::<Trb>::Continue { polls_left: (p - 1) as u32 })),
{
}

/// Every connected port is listed, and only connected ports: among the first `n`
/// PORTSC values, each with Current Connect Status set gives exactly one entry,
/// for its port number (index + 1) with its speed and enable state, and the
/// entries come in port order.
pub proof fn lemma_connected_ports_complete(portsc: Seq<u32>, n: int)
    requires
        0 <= n <= portsc.len(),
        portsc.len() <= 255,
    ensures
        ({
            let cp = connected_ports(portsc, n);
            &&& forall|i: int|
                0 <= i < n && field(portsc[i] as int, PORTSC_CCS as int, 2) == 1 ==> exists|k: int|
                    0 <= k < cp.len() && #[trigger] cp[k].port == i + 1 && cp[k].speed == field(
                        portsc[i] as int,
                        0x400,
                        0x10,
                    ) && cp[k].enabled == (field(portsc[i] as int, PORTSC_PED as int, 2) == 1)
            &&& forall|k: int|
                0 <= k < cp.len() ==> 1 <= #[trigger] cp[k].port <= n && field(
                    portsc[cp[k].port - 1] as int,
                    PORTSC_CCS as int,
                    2,
                ) == 1
            &&& forall|j: int, k: int| 0 <= j < k < cp.len() ==> cp[j].port < cp[k].port
        }),
    decreases n,
{
    if n > 0 {
        lemma_connected_ports_complete(portsc, n - 1);
        let prev = connected_ports(portsc, n - 1);
        let cp = connected_ports(portsc, n);
        let v = portsc[n - 1] as int;
        if field(v, PORTSC_CCS as int, 2) == 1 {
            assert(cp == prev.push(
                ConnectedPort {
                    port: n as u8,
                    speed: field(v, 0x400, 0x10) as u32,
                    enabled: field(v, PORTSC_PED as int, 2) == 1,
                },
            ));
            assert(0 <= field(v, 0x400, 0x10) < 0x10);
            assert forall|i: int|
                0 <= i < n && field(portsc[i] as int, PORTSC_CCS as int, 2) == 1 implies exists|k: int|
                    0 <= k < cp.len() && #[trigger] cp[k].port == i + 1 && cp[k].speed == field(
                        portsc[i] as int,
                        0x400,
                        0x10,
                    ) && cp[k].enabled == (field(portsc[i] as int, PORTSC_PED as int, 2) == 1) by {
                if i == n - 1 {
                    assert(cp[prev.len() as int].port == i + 1);
                } else {
                    let k = choose|k: int|
                        0 <= k < prev.len() && #[trigger] prev[k].port == i + 1 && prev[k].speed == field(
                            portsc[i] as int,
                            0x400,
                            0x10,
                        ) && prev[k].enabled == (field(portsc[i] as int, PORTSC_PED as int, 2) == 1);
                    assert(cp[k] == prev[k]);
                }
            }
            assert forall|k: int| 0 <= k < cp.len() implies 1 <= #[trigger] cp[k].port <= n && field(
                portsc[cp[k].port - 1] as int,
                PORTSC_CCS as int,
                2,
            ) == 1 by {
                if k < prev.len() {
                    assert(cp[k] == prev[k]);
                }
            }
            assert forall|j: int, k: int| 0 <= j < k < cp.len() implies cp[j].port < cp[k].port by {
                assert(cp[j] == prev[j]);
                if k < prev.len() {
                    assert(cp[k] == prev[k]);
                }
            }
        }
    }
}

/// The Endpoint Context built for an endpoint carries what its descriptor says:
/// its xHCI endpoint type (bits 5:3 of DW1), Error Count 3 (bits 2:1 of DW1),
/// its max packet size (bits 31:16 of DW1), its interval (bits 23:16 of DW0),
/// its TR Dequeue Pointer (DW2 and DW3), and an Average TRB Length of 8 for an
/// interrupt endpoint and 1024 otherwise (bits 15:0 of DW4).
pub proof fn lemma_endpoint_context_fields(ep: EndpointSetup)
    ensures
        ({
            let d = endpoint_context_dwords(ep);
            &&& d.len() == 16
            &&& field(d[1] as int, 0x8, 0x8) == ep.ep_type % 8
            &&& ep.ep_type < 8 ==> field(d[1] as int, 0x8, 0x8) == ep.ep_type
            &&& field(d[1] as int, 0x2, 0x4) == 3
            &&& field(d[1] as int, 0x1_0000, 0x1_0000) == ep.max_packet_size
            &&& field(d[0] as int, 0x1_0000, 0x100) == ep.interval
            &&& d[2] == ep.tr_dequeue % 0x1_0000_0000
            &&& d[3] == ep.tr_dequeue / 0x1_0000_0000
            &&& field(d[4] as int, 0x1, 0x1_0000) == (if ep.is_interrupt {
                8int
            } else {
                1024int
            })
        }),
{
    let lim = 0x1_0000_0000int;
    let w1 = with_field(0, 0x8, 0x8, ep.ep_type as int);
    lemma_with_field(0, 0x8, 0x8, ep.ep_type as int);
    lemma_with_field_bound(0, 0x8, 0x8, ep.ep_type as int, lim);
    let w2 = with_field(w1, 0x1_0000, 0x1_0000, ep.max_packet_size as int);
    lemma_with_field(w1, 0x1_0000, 0x1_0000, ep.max_packet_size as int);
    lemma_with_field_bound(w1, 0x1_0000, 0x1_0000, ep.max_packet_size as int, lim);
    lemma_with_field_keeps_other(w1, 0x1_0000, 0x1_0000, ep.max_packet_size as int, 0x8, 0x8);
    let w3 = with_field(w2, 0x2, 0x4, 3);
    lemma_with_field(w2, 0x2, 0x4, 3);
    lemma_with_field_bound(w2, 0x2, 0x4, 3, lim);
    lemma_with_field_keeps_other(w2, 0x2, 0x4, 3, 0x8, 0x8);
    lemma_with_field_keeps_other(w2, 0x2, 0x4, 3, 0x1_0000, 0x1_0000);
    let v0 = with_field(0, 0x1_0000, 0x100, ep.interval as int);
    lemma_with_field(0, 0x1_0000, 0x100, ep.interval as int);
    lemma_with_field_bound(0, 0x1_0000, 0x100, ep.interval as int, lim);
    let avg: int = if ep.is_interrupt { 8 } else { 1024 };
    let v4 = with_field(0, 0x1, 0x1_0000, avg);
    lemma_with_field(0, 0x1, 0x1_0000, avg);
    lemma_with_field_bound(0, 0x1, 0x1_0000, avg, lim);
    let z = zero_dwords();
    assert(z[0] == 0 && z[1] == 0 && z[4] == 0);
    let s1 = dwords_with_field(z, 1, 0x8, 0x8, ep.ep_type as int);
    assert(s1[1] as int == w1);
    let s2 = dwords_with_field(s1, 1, 0x1_0000, 0x1_0000, ep.max_packet_size as int);
    assert(s2[1] as int == w2);
    let s3 = dwords_with_field(s2, 1, 0x2, 0x4, 3);
    assert(s3[1] as int == w3);
    let s4 = dwords_with_field(s3, 0, 0x1_0000, 0x100, ep.interval as int);
    assert(s4[0] as int == v0);
    let s5 = s4.update(2, (ep.tr_dequeue % 0x1_0000_0000) as u32).update(3, (ep.tr_dequeue / 0x1_0000_0000) as u32);
    assert(s5[4] == 0);
    let s6 = dwords_with_field(s5, 4, 0x1, 0x1_0000, avg);
    assert(s6[4] as int == v4);
    assert(s6 == endpoint_context_dwords(ep));
    assert(field(w1, 0x8, 0x8) == ep.ep_type % 8);
}

/// Whether a step from `before` to `after` keeps a keyboard that was found:
/// every step of `XhciController` that takes `&mut self` does (`setup_keyboard`
/// records one, and no step removes it).
pub open spec fn keeps_keyboard(before: XhciController, after: XhciController) -> bool {
    before.spec_keyboard() is Some ==> after.spec_keyboard() is Some
}

/// Once a keyboard is found it stays: along states each made from the one
/// before by a step that keeps a keyboard, a keyboard in state `i` is still there
/// in every later state `j` (`has_keyboard` stays true).
pub proof fn lemma_keyboard_stays_found(states: Seq<XhciController>, i: int, j: int)
    requires
        forall|k: int| 0 <= k < states.len() - 1 ==> keeps_keyboard(#[trigger] states[k], states[k + 1]),
        0 <= i <= j < states.len(),
        states[i].spec_keyboard() is Some,
    ensures
        states[j].spec_keyboard() is Some,
    decreases j - i,
{
    if j > i {
        lemma_keyboard_stays_found(states, i, j - 1);
        assert(keeps_keyboard(states[j - 1], states[j]));
    }
}

/// Sixteen zero dwords: a fresh context.
pub open spec fn zero_dwords() -> Seq<u32> {
    Seq::new(16, |i: int| 0u32)
}

} // verus!
