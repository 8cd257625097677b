//! xHCI Memory-Mapped I/O Register Definitions
//!
//! Per xHCI specification 1.2, the register space is divided into:
//! - Capability registers (base + 0x00): read-only hardware parameters
//! - Operational registers (base + CAPLENGTH): controller command/status
//! - Port registers (operational + 0x400): per-port status/control
//! - Runtime registers (base + RTSOFF): interrupt and microframe index
//! - Doorbell registers (base + DBOFF): per-slot doorbell array
//!
//! The library does no memory-mapped access itself. The capability registers are
//! read-only, so [`CapabilityRegs`] holds the values read once from the
//! hardware. The other register blocks give the addresses of their registers and
//! decide, from values read by the caller, what those values mean and what to
//! write back.
use vstd::prelude::*;
use crate::fields::{field, get_field32};

verus! {

// ---------------------------------------------------------------------------
// Capability Register Offsets (from BAR0 base)
// ---------------------------------------------------------------------------

/// Capability register length + HC interface version (8-bit + 16-bit)
pub const CAP_CAPLENGTH: usize = 0x0;
/// Host Controller Interface Version (16-bit at offset 0x02)
pub const CAP_HCIVERSION: usize = 0x2;
/// Structural Parameters 1
pub const CAP_HCSPARAMS1: usize = 0x4;
/// Structural Parameters 2
pub const CAP_HCSPARAMS2: usize = 0x8;
/// Structural Parameters 3
pub const CAP_HCSPARAMS3: usize = 0xc;
/// Capability Parameters 1
pub const CAP_HCCPARAMS1: usize = 0x10;
/// Doorbell Offset
pub const CAP_DBOFF: usize = 0x14;
/// Runtime Register Space Offset
pub const CAP_RTSOFF: usize = 0x18;
/// Capability Parameters 2
pub const CAP_HCCPARAMS2: usize = 0x1c;

// ---------------------------------------------------------------------------
// Operational Register Offsets (from operational base = BAR0 + CAPLENGTH)
// ---------------------------------------------------------------------------

/// USB Command Register
pub const OP_USBCMD: usize = 0x0;
/// USB Status Register
pub const OP_USBSTS: usize = 0x4;
/// Page Size Register
pub const OP_PAGESIZE: usize = 0x8;
/// Device Notification Control
pub const OP_DNCTRL: usize = 0x14;
/// Command Ring Control Register (64-bit)
pub const OP_CRCR: usize = 0x18;
/// Device Context Base Address Array Pointer (64-bit)
pub const OP_DCBAAP: usize = 0x30;
/// Configure Register
pub const OP_CONFIG: usize = 0x38;

// ---------------------------------------------------------------------------
// USBCMD bits
// ---------------------------------------------------------------------------

/// Run/Stop — 1 = Run, 0 = Stop
pub const USBCMD_RS: u32 = 0x1;
/// Host Controller Reset
pub const USBCMD_HCRST: u32 = 0x2;
/// Interrupter Enable
pub const USBCMD_INTE: u32 = 0x4;
/// Host System Error Enable
pub const USBCMD_HSEE: u32 = 0x8;
/// Light Host Controller Reset
pub const USBCMD_LHCRST: u32 = 0x80;
/// Controller Save State
pub const USBCMD_CSS: u32 = 0x100;
/// Controller Restore State
pub const USBCMD_CRS: u32 = 0x200;
/// Enable Wrap Event
pub const USBCMD_EWE: u32 = 0x400;

// ---------------------------------------------------------------------------
// USBSTS bits
// ---------------------------------------------------------------------------

/// HC Halted — 1 when Run/Stop = 0 and controller has stopped
pub const USBSTS_HCH: u32 = 0x1;
/// Host System Error
pub const USBSTS_HSE: u32 = 0x4;
/// Event Interrupt
pub const USBSTS_EINT: u32 = 0x8;
/// Port Change Detect
pub const USBSTS_PCD: u32 = 0x10;
/// Save State Status
pub const USBSTS_SSS: u32 = 0x100;
/// Restore State Status
pub const USBSTS_RSS: u32 = 0x200;
/// Save/Restore Error
pub const USBSTS_SRE: u32 = 0x400;
/// Controller Not Ready — 1 during reset, 0 when ready
pub const USBSTS_CNR: u32 = 0x800;
/// Host Controller Error
pub const USBSTS_HCE: u32 = 0x1000;

// ---------------------------------------------------------------------------
// CRCR (Command Ring Control Register) bits
// ---------------------------------------------------------------------------

/// Ring Cycle State
pub const CRCR_RCS: u64 = 0x1;
/// Command Stop
pub const CRCR_CS: u64 = 0x2;
/// Command Abort
pub const CRCR_CA: u64 = 0x4;
/// Command Ring Running
pub const CRCR_CRR: u64 = 0x8;

// ---------------------------------------------------------------------------
// Port Status and Control Register offsets (from operational base + 0x400)
// Each port register set is 0x10 bytes
// ---------------------------------------------------------------------------

/// Port register set base offset from operational registers
pub const PORT_REGISTER_BASE: usize = 0x400;
/// Size of each port register set
pub const PORT_REGISTER_SET_SIZE: usize = 0x10;

/// Port Status and Control (offset 0x00 within port register set)
pub const PORTSC_OFFSET: usize = 0x0;
/// Port Power Management Status and Control
pub const PORTPMSC_OFFSET: usize = 0x4;
/// Port Link Info
pub const PORTLI_OFFSET: usize = 0x8;
/// Port Hardware LPM Control
pub const PORTHLPMC_OFFSET: usize = 0xc;

// ---------------------------------------------------------------------------
// PORTSC bits
// ---------------------------------------------------------------------------

/// Current Connect Status
pub const PORTSC_CCS: u32 = 0x1;
/// Port Enabled/Disabled
pub const PORTSC_PED: u32 = 0x2;
/// Over-current Active
pub const PORTSC_OCA: u32 = 0x8;
/// Port Reset
pub const PORTSC_PR: u32 = 0x10;
/// Port Link State (bits 8:5) — mask
pub const PORTSC_PLS_MASK: u32 = 0x1e0;
/// Port Link State shift
pub const PORTSC_PLS_SHIFT: u32 = 5;
/// Port Power
pub const PORTSC_PP: u32 = 0x200;
/// Port Speed (bits 13:10) — mask
pub const PORTSC_SPEED_MASK: u32 = 0x3c00;
/// Port Speed shift
pub const PORTSC_SPEED_SHIFT: u32 = 10;
/// Port Link State Write Strobe
pub const PORTSC_LWS: u32 = 0x10000;
/// Connect Status Change
pub const PORTSC_CSC: u32 = 0x20000;
/// Port Enabled/Disabled Change
pub const PORTSC_PEC: u32 = 0x40000;
/// Warm Port Reset Change
pub const PORTSC_WRC: u32 = 0x80000;
/// Over-Current Change
pub const PORTSC_OCC: u32 = 0x100000;
/// Port Reset Change
pub const PORTSC_PRC: u32 = 0x200000;
/// Port Link State Change
pub const PORTSC_PLC: u32 = 0x400000;
/// Port Config Error Change
pub const PORTSC_CEC: u32 = 0x800000;
/// Wake on Connect Enable
pub const PORTSC_WCE: u32 = 0x2000000;
/// Wake on Disconnect Enable
pub const PORTSC_WDE: u32 = 0x4000000;
/// Wake on Over-Current Enable
pub const PORTSC_WOE: u32 = 0x8000000;
/// Device Removable
pub const PORTSC_DR: u32 = 0x40000000;
/// Warm Port Reset
pub const PORTSC_WPR: u32 = 0x80000000;

/// All RW1C status change bits in PORTSC — must be preserved when writing
pub const PORTSC_CHANGE_BITS: u32 = 0xfe0000;

// ---------------------------------------------------------------------------
// Port Speed values (from PORTSC bits 13:10)
// ---------------------------------------------------------------------------

/// Full Speed (USB 1.1, 12 Mb/s)
pub const PORT_SPEED_FULL: u32 = 0x1;
/// Low Speed (USB 1.0, 1.5 Mb/s)
pub const PORT_SPEED_LOW: u32 = 0x2;
/// High Speed (USB 2.0, 480 Mb/s)
pub const PORT_SPEED_HIGH: u32 = 0x3;
/// SuperSpeed (USB 3.0, 5 Gb/s)
pub const PORT_SPEED_SUPER: u32 = 0x4;
/// SuperSpeedPlus (USB 3.1, 10 Gb/s)
pub const PORT_SPEED_SUPER_PLUS: u32 = 0x5;

// ---------------------------------------------------------------------------
// Port Link State values (PORTSC bits 8:5)
// ---------------------------------------------------------------------------

pub const PLS_U0: u32 = 0x0;
pub const PLS_U1: u32 = 0x1;
pub const PLS_U2: u32 = 0x2;
pub const PLS_U3: u32 = 0x3;
pub const PLS_DISABLED: u32 = 0x4;
pub const PLS_RX_DETECT: u32 = 0x5;
pub const PLS_INACTIVE: u32 = 0x6;
pub const PLS_POLLING: u32 = 0x7;
pub const PLS_RECOVERY: u32 = 0x8;
pub const PLS_HOT_RESET: u32 = 0x9;
pub const PLS_COMPLIANCE: u32 = 0xa;
pub const PLS_TEST: u32 = 0xb;
pub const PLS_RESUME: u32 = 0xf;

// ---------------------------------------------------------------------------
// Runtime Register Offsets (from runtime base = BAR0 + RTSOFF)
// ---------------------------------------------------------------------------

/// Microframe Index Register
pub const RT_MFINDEX: usize = 0x0;

/// Interrupter Register Set base (offset 0x20 from runtime base)
pub const RT_IR_BASE: usize = 0x20;
/// Size of each interrupter register set
pub const RT_IR_SET_SIZE: usize = 0x20;

/// Interrupter Management Register (within interrupter set)
pub const IR_IMAN: usize = 0x0;
/// Interrupter Moderation Register
pub const IR_IMOD: usize = 0x4;
/// Event Ring Segment Table Size
pub const IR_ERSTSZ: usize = 0x8;
/// Event Ring Segment Table Base Address (64-bit)
pub const IR_ERSTBA: usize = 0x10;
/// Event Ring Dequeue Pointer (64-bit)
pub const IR_ERDP: usize = 0x18;

// ---------------------------------------------------------------------------
// IMAN bits
// ---------------------------------------------------------------------------

/// Interrupt Pending
pub const IMAN_IP: u32 = 0x1;
/// Interrupt Enable
pub const IMAN_IE: u32 = 0x2;

// ---------------------------------------------------------------------------
// HCSPARAMS1 field extraction
// ---------------------------------------------------------------------------

/// Extract MaxSlots (bits 7:0)
pub fn hcsparams1_max_slots(val: u32) -> (r: u8)
    ensures
        r == field(val as int, 0x1, 0x100),
{
    get_field32(val, 0x1, 0x100) as u8
}

/// Extract MaxIntrs (bits 18:8)
pub fn hcsparams1_max_intrs(val: u32) -> (r: u16)
    ensures
        r == field(val as int, 0x100, 0x800),
{
    get_field32(val, 0x100, 0x800) as u16
}

/// Extract MaxPorts (bits 31:24)
pub fn hcsparams1_max_ports(val: u32) -> (r: u8)
    ensures
        r == field(val as int, 0x100_0000, 0x100),
{
    get_field32(val, 0x100_0000, 0x100) as u8
}

// ---------------------------------------------------------------------------
// HCSPARAMS2 field extraction
// ---------------------------------------------------------------------------

/// Extract Max Scratchpad Buffers High (bits 25:21)
pub fn hcsparams2_max_scratchpad_hi(val: u32) -> (r: u8)
    ensures
        r == field(val as int, 0x20_0000, 0x20),
{
    get_field32(val, 0x20_0000, 0x20) as u8
}

/// Extract Max Scratchpad Buffers Low (bits 31:27)
pub fn hcsparams2_max_scratchpad_lo(val: u32) -> (r: u8)
    ensures
        r == field(val as int, 0x800_0000, 0x20),
{
    get_field32(val, 0x800_0000, 0x20) as u8
}

/// Total scratchpad buffers = (hi << 5) | lo
pub fn hcsparams2_max_scratchpad(val: u32) -> (r: u32)
    ensures
        r == field(val as int, 0x20_0000, 0x20) * 32 + field(val as int, 0x800_0000, 0x20),
        r < 0x400,
{
    let hi = hcsparams2_max_scratchpad_hi(val) as u32;
    let lo = hcsparams2_max_scratchpad_lo(val) as u32;
    hi * 32 + lo
}

// ---------------------------------------------------------------------------
// HCCPARAMS1 field extraction
// ---------------------------------------------------------------------------

/// 64-bit Addressing Capability
pub fn hccparams1_ac64(val: u32) -> (r: bool)
    ensures
        r == (field(val as int, 0x1, 0x2) == 1),
{
    get_field32(val, 0x1, 0x2) != 0
}

/// Context Size — 0 = 32 bytes, 1 = 64 bytes
pub fn hccparams1_csz(val: u32) -> (r: bool)
    ensures
        r == (field(val as int, 0x4, 0x2) == 1),
{
    get_field32(val, 0x4, 0x2) != 0
}

/// xHCI Extended Capabilities Pointer (bits 31:16), offset in DWORDs from BAR0
pub fn hccparams1_xecp(val: u32) -> (r: u16)
    ensures
        r == field(val as int, 0x1_0000, 0x1_0000),
{
    get_field32(val, 0x1_0000, 0x1_0000) as u16
}

// ---------------------------------------------------------------------------
// Register access structs
// ---------------------------------------------------------------------------

/// The xHCI capability registers: read-only hardware parameters.
///
/// `raw[i]` is the dword read at `base + 4 * i`: CAPLENGTH/HCIVERSION,
/// HCSPARAMS1, HCSPARAMS2, HCSPARAMS3, HCCPARAMS1, DBOFF, RTSOFF, HCCPARAMS2.
#[derive(Debug, Clone, Copy)]
pub struct CapabilityRegs {
    pub base: usize,
    pub raw: [u32; 8],
}

impl CapabilityRegs {
    /// Capability registers at `base` whose eight dwords read as `raw`.
    pub fn new(base: usize, raw: [u32; 8]) -> (r: Self)
        ensures
            r.base == base,
            r.raw@ == raw@,
    {
        Self { base, raw }
    }

    /// CAPLENGTH — Capability Register Length (8-bit)
    pub fn caplength(&self) -> (r: u8)
        ensures
            r == field(self.raw@[0] as int, 0x1, 0x100),
    {
        get_field32(self.raw[0], 0x1, 0x100) as u8
    }

    /// HCIVERSION — Host Controller Interface Version Number (16-bit)
    pub fn hciversion(&self) -> (r: u16)
        ensures
            r == field(self.raw@[0] as int, 0x1_0000, 0x1_0000),
    {
        get_field32(self.raw[0], 0x1_0000, 0x1_0000) as u16
    }

    /// HCSPARAMS1 — Structural Parameters 1
    pub fn hcsparams1(&self) -> (r: u32)
        ensures
            r == self.raw@[1],
    {
        self.raw[1]
    }

    /// HCSPARAMS2 — Structural Parameters 2
    pub fn hcsparams2(&self) -> (r: u32)
        ensures
            r == self.raw@[2],
    {
        self.raw[2]
    }

    /// HCSPARAMS3 — Structural Parameters 3
    pub fn hcsparams3(&self) -> (r: u32)
        ensures
            r == self.raw@[3],
    {
        self.raw[3]
    }

    /// HCCPARAMS1 — Capability Parameters 1
    pub fn hccparams1(&self) -> (r: u32)
        ensures
            r == self.raw@[4],
    {
        self.raw[4]
    }

    /// DBOFF — Doorbell Offset (bits 31:2 are the offset, bits 1:0 reserved)
    pub fn dboff(&self) -> (r: u32)
        ensures
            r == self.raw@[5] - self.raw@[5] % 4,
    {
        self.raw[5] - self.raw[5] % 4
    }

    /// RTSOFF — Runtime Register Space Offset (bits 31:5 are offset, bits 4:0 reserved)
    pub fn rtsoff(&self) -> (r: u32)
        ensures
            r == self.raw@[6] - self.raw@[6] % 32,
    {
        self.raw[6] - self.raw[6] % 32
    }

    /// HCCPARAMS2 — Capability Parameters 2
    pub fn hccparams2(&self) -> (r: u32)
        ensures
            r == self.raw@[7],
    {
        self.raw[7]
    }

    /// Maximum number of device slots
    pub fn max_slots(&self) -> (r: u8)
        ensures
            r == field(self.raw@[1] as int, 0x1, 0x100),
    {
        hcsparams1_max_slots(self.hcsparams1())
    }

    /// Maximum number of interrupters
    pub fn max_intrs(&self) -> (r: u16)
        ensures
            r == field(self.raw@[1] as int, 0x100, 0x800),
    {
        hcsparams1_max_intrs(self.hcsparams1())
    }

    /// Maximum number of ports
    pub fn max_ports(&self) -> (r: u8)
        ensures
            r == field(self.raw@[1] as int, 0x100_0000, 0x100),
    {
        hcsparams1_max_ports(self.hcsparams1())
    }

    /// Context size in bytes (32 or 64)
    pub fn context_size(&self) -> (r: usize)
        ensures
            r == if field(self.raw@[4] as int, 0x4, 0x2) == 1 {
                64usize
            } else {
                32usize
            },
    {
        if hccparams1_csz(self.hccparams1()) {
            64
        } else {
            32
        }
    }

    /// Number of scratchpad buffers required
    pub fn max_scratchpad_buffers(&self) -> (r: u32)
        ensures
            r == field(self.raw@[2] as int, 0x20_0000, 0x20) * 32 + field(
                self.raw@[2] as int,
                0x800_0000,
                0x20,
            ),
    {
        hcsparams2_max_scratchpad(self.hcsparams2())
    }

    /// Base address of operational registers
    pub fn operational_base(&self) -> (r: usize)
        requires
            self.base + field(self.raw@[0] as int, 0x1, 0x100) <= usize::MAX,
        ensures
            r == self.base + field(self.raw@[0] as int, 0x1, 0x100),
    {
        self.base + self.caplength() as usize
    }

    /// Base address of runtime registers
    pub fn runtime_base(&self) -> (r: usize)
        requires
            self.base + (self.raw@[6] - self.raw@[6] % 32) <= usize::MAX,
        ensures
            r == self.base + (self.raw@[6] - self.raw@[6] % 32),
    {
        self.base + self.rtsoff() as usize
    }

    /// Base address of doorbell registers
    pub fn doorbell_base(&self) -> (r: usize)
        requires
            self.base + (self.raw@[5] - self.raw@[5] % 4) <= usize::MAX,
        ensures
            r == self.base + (self.raw@[5] - self.raw@[5] % 4),
    {
        self.base + self.dboff() as usize
    }
}

/// Provides structured access to xHCI operational registers.
#[derive(Debug, Clone, Copy)]
pub struct OperationalRegs {
    pub base: usize,
}

impl OperationalRegs {
    /// Operational registers starting at `base`.
    pub fn new(base: usize) -> (r: Self)
        ensures
            r.base == base,
    {
        Self { base }
    }

    /// Address of the operational register at `offset` (one of the `OP_*` offsets).
    pub fn register_addr(&self, offset: usize) -> (r: usize)
        requires
            self.base + offset <= usize::MAX,
        ensures
            r == self.base + offset,
    {
        self.base + offset
    }

    /// Address of a register of port `port` (1-indexed per xHCI spec) at `offset`
    /// within its port register set (one of the `PORT*_OFFSET` offsets).
    pub fn port_register_addr(&self, port: u8, offset: usize) -> (r: usize)
        requires
            port >= 1,
            self.base + PORT_REGISTER_BASE + (port - 1) * PORT_REGISTER_SET_SIZE + offset
                <= usize::MAX,
        ensures
            r == self.base + PORT_REGISTER_BASE + (port - 1) * PORT_REGISTER_SET_SIZE + offset,
    {
        let set_offset = PORT_REGISTER_BASE + (port as usize - 1) * PORT_REGISTER_SET_SIZE;
        self.base + set_offset + offset
    }

    /// Check if the controller is halted, given the value of USBSTS
    pub fn is_halted(usbsts: u32) -> (r: bool)
        ensures
            r == (field(usbsts as int, USBSTS_HCH as int, 2) == 1),
    {
        get_field32(usbsts, USBSTS_HCH, 2) != 0
    }

    /// Check if the controller is ready (CNR = 0), given the value of USBSTS
    pub fn is_ready(usbsts: u32) -> (r: bool)
        ensures
            r == (field(usbsts as int, USBSTS_CNR as int, 2) == 0),
    {
        get_field32(usbsts, USBSTS_CNR, 2) == 0
    }

    /// Extract port speed from a PORTSC value
    pub fn port_speed(portsc: u32) -> (r: u32)
        ensures
            r == field(portsc as int, 0x400, 0x10),
    {
        get_field32(portsc, 0x400, 0x10)
    }

    /// Extract port link state from a PORTSC value
    pub fn port_link_state(portsc: u32) -> (r: u32)
        ensures
            r == field(portsc as int, 0x20, 0x10),
    {
        get_field32(portsc, 0x20, 0x10)
    }
}

/// Provides structured access to xHCI runtime registers.
#[derive(Debug, Clone, Copy)]
pub struct RuntimeRegs {
    pub base: usize,
}

impl RuntimeRegs {
    /// Runtime registers starting at `base`.
    pub fn new(base: usize) -> (r: Self)
        ensures
            r.base == base,
    {
        Self { base }
    }

    /// Address of the runtime register at `offset` (MFINDEX is at `RT_MFINDEX`).
    pub fn register_addr(&self, offset: usize) -> (r: usize)
        requires
            self.base + offset <= usize::MAX,
        ensures
            r == self.base + offset,
    {
        self.base + offset
    }

    /// Base address of interrupter register set `n` (0-indexed)
    pub fn ir_base(&self, n: u16) -> (r: usize)
        requires
            self.base + RT_IR_BASE + n * RT_IR_SET_SIZE <= usize::MAX,
        ensures
            r == self.base + RT_IR_BASE + n * RT_IR_SET_SIZE,
    {
        self.base + RT_IR_BASE + (n as usize) * RT_IR_SET_SIZE
    }

    /// Address of the register at `offset` (one of the `IR_*` offsets) of interrupter `n`
    pub fn interrupter_register_addr(&self, n: u16, offset: usize) -> (r: usize)
        requires
            self.base + RT_IR_BASE + n * RT_IR_SET_SIZE + offset <= usize::MAX,
        ensures
            r == self.base + RT_IR_BASE + n * RT_IR_SET_SIZE + offset,
    {
        self.ir_base(n) + offset
    }
}

/// A 32-bit value to be written to the register at `addr`.
#[derive(Debug, Clone, Copy, PartialEq, Eq)]
pub struct RegisterWrite32 {
    pub addr: usize,
    pub value: u32,
}

/// Provides access to xHCI doorbell registers.
#[derive(Debug, Clone, Copy)]
pub struct DoorbellRegs {
    pub base: usize,
}

/// The value of a doorbell register: DB Stream ID in bits 31:16, DB Target in bits 7:0.
pub open spec fn doorbell_value(target: u8, stream_id: u16) -> int {
    stream_id * 0x1_0000 + target
}

impl DoorbellRegs {
    /// Doorbell array starting at `base`.
    pub fn new(base: usize) -> (r: Self)
        ensures
            r.base == base,
    {
        Self { base }
    }

    /// The write that rings doorbell `slot` (0 = host controller, 1..N = device slots).
    /// `target` is the doorbell target value (endpoint index or 0 for command ring).
    /// `stream_id` is the stream ID (0 if not using streams).
    pub fn ring(&self, slot: u8, target: u8, stream_id: u16) -> (r: RegisterWrite32)
        requires
            self.base + slot * 4 <= usize::MAX,
        ensures
            r.addr == self.base + slot * 4,
            r.value == doorbell_value(target, stream_id),
    {
        let value = (stream_id as u32) * 0x1_0000 + (target as u32);
        RegisterWrite32 { addr: self.base + (slot as usize) * 4, value }
    }

    /// The write that rings the host controller doorbell (slot 0) for the command ring
    pub fn ring_command(&self) -> (r: RegisterWrite32)
        ensures
            r.addr == self.base,
            r.value == 0,
    {
        self.ring(0, 0, 0)
    }

    /// The write that rings the doorbell of a device endpoint.
    /// `slot` is 1-indexed device slot, `dci` is device context index (1 = EP0, 2 = EP1 OUT, 3 = EP1 IN, ...).
    pub fn ring_endpoint(&self, slot: u8, dci: u8) -> (r: RegisterWrite32)
        requires
            self.base + slot * 4 <= usize::MAX,
        ensures
            r.addr == self.base + slot * 4,
            r.value == dci,
    {
        self.ring(slot, dci, 0)
    }
}

} // verus!
