//! Transfer Request Block (TRB) Rings
//!
//! xHCI uses ring buffers of 16-byte TRBs for communication between software and
//! the host controller. There are three types:
//! - **Command Ring**: Software enqueues commands, HC dequeues and posts completion events
//! - **Event Ring**: HC enqueues events, software dequeues
//! - **Transfer Ring**: Software enqueues transfer TRBs for data movement on endpoints
//!
//! The ring memory itself is shared with the controller and is written by the
//! caller: a producer ring says which TRB goes into which slot (and when the Link
//! TRB at the end of the segment must be rewritten); the event ring decides, from
//! the TRB found at its dequeue slot, whether an event is pending.
use vstd::prelude::*;
use crate::fields::{
    field, with_field, flag, get_field32, lemma_with_field, lemma_with_field_bound,
    lemma_with_field_keeps_other,
};
use vstd::arithmetic::div_mod::lemma_fundamental_div_mod_converse;

verus! {

// ---------------------------------------------------------------------------
// TRB Type codes (bits 15:10 of the control field, i.e., dword 3)
// ---------------------------------------------------------------------------

// Transfer TRB types
pub const TRB_TYPE_NORMAL: u32 = 1;
pub const TRB_TYPE_SETUP_STAGE: u32 = 2;
pub const TRB_TYPE_DATA_STAGE: u32 = 3;
pub const TRB_TYPE_STATUS_STAGE: u32 = 4;
pub const TRB_TYPE_ISOCH: u32 = 5;
pub const TRB_TYPE_LINK: u32 = 6;
pub const TRB_TYPE_EVENT_DATA: u32 = 7;
pub const TRB_TYPE_NO_OP: u32 = 8;

// Command TRB types
pub const TRB_TYPE_ENABLE_SLOT: u32 = 9;
pub const TRB_TYPE_DISABLE_SLOT: u32 = 10;
pub const TRB_TYPE_ADDRESS_DEVICE: u32 = 11;
pub const TRB_TYPE_CONFIGURE_ENDPOINT: u32 = 12;
pub const TRB_TYPE_EVALUATE_CONTEXT: u32 = 13;
pub const TRB_TYPE_RESET_ENDPOINT: u32 = 14;
pub const TRB_TYPE_STOP_ENDPOINT: u32 = 15;
pub const TRB_TYPE_SET_TR_DEQUEUE: u32 = 0x10;
pub const TRB_TYPE_RESET_DEVICE: u32 = 0x11;
pub const TRB_TYPE_NO_OP_CMD: u32 = 0x17;

// Event TRB types
pub const TRB_TYPE_TRANSFER_EVENT: u32 = 0x20;
pub const TRB_TYPE_COMMAND_COMPLETION: u32 = 0x21;
pub const TRB_TYPE_PORT_STATUS_CHANGE: u32 = 0x22;
pub const TRB_TYPE_BANDWIDTH_REQUEST: u32 = 0x23;
pub const TRB_TYPE_HOST_CONTROLLER: u32 = 0x25;
pub const TRB_TYPE_DEVICE_NOTIFICATION: u32 = 0x26;
pub const TRB_TYPE_MFINDEX_WRAP: u32 = 0x27;

// ---------------------------------------------------------------------------
// TRB Completion Codes
// ---------------------------------------------------------------------------

pub const TRB_COMPLETION_INVALID: u8 = 0;
pub const TRB_COMPLETION_SUCCESS: u8 = 1;
pub const TRB_COMPLETION_DATA_BUFFER_ERROR: u8 = 2;
pub const TRB_COMPLETION_BABBLE: u8 = 3;
pub const TRB_COMPLETION_USB_TRANSACTION_ERROR: u8 = 4;
pub const TRB_COMPLETION_TRB_ERROR: u8 = 5;
pub const TRB_COMPLETION_STALL: u8 = 6;
pub const TRB_COMPLETION_SHORT_PACKET: u8 = 13;
pub const TRB_COMPLETION_RING_UNDERRUN: u8 = 14;
pub const TRB_COMPLETION_RING_OVERRUN: u8 = 15;
pub const TRB_COMPLETION_EVENT_RING_FULL: u8 = 0x15;
pub const TRB_COMPLETION_COMMAND_RING_STOPPED: u8 = 0x18;
pub const TRB_COMPLETION_COMMAND_ABORTED: u8 = 0x19;
pub const TRB_COMPLETION_STOPPED: u8 = 0x1a;
pub const TRB_COMPLETION_STOPPED_LENGTH_INVALID: u8 = 0x1b;

// ---------------------------------------------------------------------------
// TRB field masks and shifts
// ---------------------------------------------------------------------------

/// TRB type field: bits 15:10 of dword 3 (control)
pub const TRB_TYPE_SHIFT: u32 = 10;
pub const TRB_TYPE_MASK: u32 = 0xfc00;

/// Cycle bit: bit 0 of dword 3
pub const TRB_CYCLE_BIT: u32 = 1;

/// Toggle Cycle bit (Link TRB): bit 1 of dword 3
pub const TRB_TOGGLE_CYCLE: u32 = 2;

/// Interrupt-on-Completion: bit 5 of dword 3
pub const TRB_IOC: u32 = 0x20;

/// Interrupt-on-Short-Packet: bit 2 of dword 3 (transfer TRBs)
pub const TRB_ISP: u32 = 4;

/// Chain bit: bit 4 of dword 3
pub const TRB_CHAIN: u32 = 0x10;

/// Immediate Data (IDT): bit 6 of dword 3 (Setup Stage TRB)
pub const TRB_IDT: u32 = 0x40;

/// Block Set Address Request (BSR): bit 9 of dword 3 (Address Device command)
pub const TRB_BSR: u32 = 0x200;

/// Transfer direction in Data Stage / Status Stage: bit 16 of dword 3
pub const TRB_DIR_IN: u32 = 0x10000;

/// Completion code field: bits 31:24 of dword 2 in event TRBs
pub const TRB_COMPLETION_CODE_SHIFT: u32 = 24;
pub const TRB_COMPLETION_CODE_MASK: u32 = 0xff000000;

/// Slot ID field: bits 31:24 of dword 3 in command/event TRBs
pub const TRB_SLOT_ID_SHIFT: u32 = 24;
pub const TRB_SLOT_ID_MASK: u32 = 0xff000000;

/// Endpoint ID field: bits 20:16 of dword 3 in some event TRBs
pub const TRB_ENDPOINT_ID_SHIFT: u32 = 16;
pub const TRB_ENDPOINT_ID_MASK: u32 = 0x1f0000;

/// TRB Transfer Length field: bits 23:0 of dword 2 in transfer event TRBs
pub const TRB_TRANSFER_LENGTH_MASK: u32 = 0xffffff;

/// Setup Stage TRB: Transfer Type (TRT) bits 17:16 of dword 3
pub const TRB_TRT_NO_DATA: u32 = 0;
pub const TRB_TRT_OUT: u32 = 0x20000;
pub const TRB_TRT_IN: u32 = 0x30000;

// ---------------------------------------------------------------------------

// ---------------------------------------------------------------------------
// TRB structure — 16 bytes, 4 DWORDs
// ---------------------------------------------------------------------------

/// A single Transfer Request Block (TRB). All TRBs are exactly 16 bytes:
/// DW0 `parameter_lo`, DW1 `parameter_hi`, DW2 `status`, DW3 `control`.
#[derive(Debug, Clone, Copy)]
pub struct Trb {
    /// Parameter low (DW0) — meaning depends on TRB type
    pub parameter_lo: u32,
    /// Parameter high (DW1) — meaning depends on TRB type
    pub parameter_hi: u32,
    /// Status (DW2) — transfer length, completion code, interrupter target
    pub status: u32,
    /// Control (DW3) — TRB type, cycle bit, flags
    pub control: u32,
}

/// The cycle bit's contribution to a control dword for cycle state `cycle`.
pub open spec fn cycle_flag(cycle: bool) -> int {
    flag(cycle, TRB_CYCLE_BIT as int)
}

/// A TRB whose 64-bit parameter is `param` and whose status and control dwords are given.
pub open spec fn trb_with(param: int, status: int, control: int) -> Trb {
    Trb {
        parameter_lo: (param % 0x1_0000_0000) as u32,
        parameter_hi: (param / 0x1_0000_0000) as u32,
        status: status as u32,
        control: control as u32,
    }
}

/// `control` with its cycle bit set to `cycle`; every other bit kept.
pub open spec fn with_cycle(control: int, cycle: bool) -> int {
    control - field(control, 1, 2) + cycle_flag(cycle)
}

/// The Setup Stage TRB of a control transfer (see `Trb::setup_stage`).
pub open spec fn setup_stage_trb(
    request_type: u8,
    request: u8,
    value: u16,
    index: u16,
    length: u16,
    trt: u32,
    cycle: bool,
) -> Trb {
    Trb {
        parameter_lo: (request_type + request * 0x100 + value * 0x1_0000) as u32,
        parameter_hi: (index + length * 0x1_0000) as u32,
        status: 8,
        control: ((TRB_TYPE_SETUP_STAGE * 0x400 + TRB_IDT + cycle_flag(cycle)) as u32 | trt),
    }
}

/// The Data Stage TRB of a control transfer (see `Trb::data_stage`).
pub open spec fn data_stage_trb(data_phys: u64, length: u32, dir_in: bool, cycle: bool) -> Trb {
    trb_with(
        data_phys as int,
        length as int % 0x2_0000,
        TRB_TYPE_DATA_STAGE * 0x400 + flag(dir_in, TRB_DIR_IN as int) + cycle_flag(cycle),
    )
}

/// The Status Stage TRB of a control transfer (see `Trb::status_stage`).
pub open spec fn status_stage_trb(dir_in: bool, cycle: bool) -> Trb {
    trb_with(
        0,
        0,
        TRB_TYPE_STATUS_STAGE * 0x400 + TRB_IOC + flag(dir_in, TRB_DIR_IN as int) + cycle_flag(cycle),
    )
}

/// A Normal TRB (see `Trb::normal`).
pub open spec fn normal_trb(data_phys: u64, length: u32, ioc: bool, cycle: bool) -> Trb {
    trb_with(
        data_phys as int,
        length as int % 0x2_0000,
        TRB_TYPE_NORMAL * 0x400 + flag(ioc, TRB_IOC as int) + TRB_ISP + cycle_flag(cycle),
    )
}

/// A Link TRB back to `ring_phys` that toggles the cycle, with cycle bit `cycle`.
pub open spec fn link_trb_for(ring_phys: u64, cycle: bool) -> Trb {
    trb_with(ring_phys as int, 0, TRB_TYPE_LINK * 0x400 + TRB_TOGGLE_CYCLE + cycle_flag(cycle))
}

impl Trb {
    pub const SIZE: usize = 16;

    /// The 64-bit parameter field (DW1:DW0).
    pub open spec fn spec_parameter(self) -> int {
        self.parameter_hi * 0x1_0000_0000 + self.parameter_lo
    }

    /// TRB Type (bits 15:10 of the control dword).
    pub open spec fn spec_trb_type(self) -> int {
        field(self.control as int, 0x400, 0x40)
    }

    /// Cycle bit (bit 0 of the control dword).
    pub open spec fn spec_cycle_bit(self) -> bool {
        field(self.control as int, 1, 2) == 1
    }

    /// Completion Code (bits 31:24 of the status dword) of an event TRB.
    pub open spec fn spec_completion_code(self) -> int {
        field(self.status as int, 0x100_0000, 0x100)
    }

    /// Slot ID (bits 31:24 of the control dword).
    pub open spec fn spec_slot_id(self) -> int {
        field(self.control as int, 0x100_0000, 0x100)
    }

    /// Endpoint ID (bits 20:16 of the control dword).
    pub open spec fn spec_endpoint_id(self) -> int {
        field(self.control as int, 0x1_0000, 0x20)
    }

    /// The zeroed TRB.
    pub open spec fn zeroed_spec() -> Trb {
        trb_with(0, 0, 0)
    }

    /// Create a zeroed TRB
    pub fn zeroed() -> (r: Self)
        ensures
            r == Trb::zeroed_spec(),
    {
        Self { parameter_lo: 0, parameter_hi: 0, status: 0, control: 0 }
    }

    /// Get the 64-bit parameter field
    pub fn parameter(&self) -> (r: u64)
        ensures
            r == self.spec_parameter(),
    {
        (self.parameter_hi as u64) * 0x1_0000_0000 + (self.parameter_lo as u64)
    }

    /// Set the 64-bit parameter field
    pub fn set_parameter(&mut self, val: u64)
        ensures
            final(self).parameter_lo == val % 0x1_0000_0000,
            final(self).parameter_hi == val / 0x1_0000_0000,
            final(self).status == old(self).status,
            final(self).control == old(self).control,
            final(self).spec_parameter() == val,
    {
        self.parameter_lo = (val % 0x1_0000_0000) as u32;
        self.parameter_hi = (val / 0x1_0000_0000) as u32;
    }

    /// Get the TRB type
    pub fn trb_type(&self) -> (r: u32)
        ensures
            r == self.spec_trb_type(),
    {
        get_field32(self.control, 0x400, 0x40)
    }

    /// Get the cycle bit
    pub fn cycle_bit(&self) -> (r: bool)
        ensures
            r == self.spec_cycle_bit(),
    {
        get_field32(self.control, 1, 2) != 0
    }

    /// Get completion code from an event TRB
    pub fn completion_code(&self) -> (r: u8)
        ensures
            r == self.spec_completion_code(),
    {
        get_field32(self.status, 0x100_0000, 0x100) as u8
    }

    /// Get slot ID from a command completion event or command TRB
    pub fn slot_id(&self) -> (r: u8)
        ensures
            r == self.spec_slot_id(),
    {
        get_field32(self.control, 0x100_0000, 0x100) as u8
    }

    /// Get endpoint ID from transfer event
    pub fn endpoint_id(&self) -> (r: u8)
        ensures
            r == self.spec_endpoint_id(),
    {
        get_field32(self.control, 0x1_0000, 0x20) as u8
    }

    /// Get transfer length residual from transfer event
    pub fn transfer_length(&self) -> (r: u32)
        ensures
            r == field(self.status as int, 1, 0x100_0000),
    {
        get_field32(self.status, 1, 0x100_0000)
    }

    /// Build a No-Op command TRB
    pub fn no_op_cmd(cycle: bool) -> (r: Self)
        ensures
            r == trb_with(0, 0, TRB_TYPE_NO_OP_CMD * 0x400 + cycle_flag(cycle)),
    {
        Self {
            parameter_lo: 0,
            parameter_hi: 0,
            status: 0,
            control: TRB_TYPE_NO_OP_CMD * 0x400 + (if cycle { TRB_CYCLE_BIT } else { 0 }),
        }
    }

    /// Build an Enable Slot command TRB
    pub fn enable_slot(cycle: bool) -> (r: Self)
        ensures
            r == trb_with(0, 0, TRB_TYPE_ENABLE_SLOT * 0x400 + cycle_flag(cycle)),
    {
        Self {
            parameter_lo: 0,
            parameter_hi: 0,
            status: 0,
            control: TRB_TYPE_ENABLE_SLOT * 0x400 + (if cycle { TRB_CYCLE_BIT } else { 0 }),
        }
    }

    /// Build an Address Device command TRB
    pub fn address_device(input_ctx_phys: u64, slot_id: u8, bsr: bool, cycle: bool) -> (r: Self)
        ensures
            r == trb_with(
                input_ctx_phys as int,
                0,
                TRB_TYPE_ADDRESS_DEVICE * 0x400 + slot_id * 0x100_0000 + flag(bsr, TRB_BSR as int)
                    + cycle_flag(cycle),
            ),
    {
        let mut trb = Self::zeroed();
        trb.set_parameter(input_ctx_phys);
        trb.control = TRB_TYPE_ADDRESS_DEVICE * 0x400 + (slot_id as u32) * 0x100_0000 + (if bsr {
            TRB_BSR
        } else {
            0
        }) + (if cycle { TRB_CYCLE_BIT } else { 0 });
        trb
    }

    /// Build a Configure Endpoint command TRB
    pub fn configure_endpoint(input_ctx_phys: u64, slot_id: u8, cycle: bool) -> (r: Self)
        ensures
            r == trb_with(
                input_ctx_phys as int,
                0,
                TRB_TYPE_CONFIGURE_ENDPOINT * 0x400 + slot_id * 0x100_0000 + cycle_flag(cycle),
            ),
    {
        let mut trb = Self::zeroed();
        trb.set_parameter(input_ctx_phys);
        trb.control = TRB_TYPE_CONFIGURE_ENDPOINT * 0x400 + (slot_id as u32) * 0x100_0000 + (if cycle {
            TRB_CYCLE_BIT
        } else {
            0
        });
        trb
    }

    /// Build an Evaluate Context command TRB
    pub fn evaluate_context(input_ctx_phys: u64, slot_id: u8, cycle: bool) -> (r: Self)
        ensures
            r == trb_with(
                input_ctx_phys as int,
                0,
                TRB_TYPE_EVALUATE_CONTEXT * 0x400 + slot_id * 0x100_0000 + cycle_flag(cycle),
            ),
    {
        let mut trb = Self::zeroed();
        trb.set_parameter(input_ctx_phys);
        trb.control = TRB_TYPE_EVALUATE_CONTEXT * 0x400 + (slot_id as u32) * 0x100_0000 + (if cycle {
            TRB_CYCLE_BIT
        } else {
            0
        });
        trb
    }

    /// Build a Reset Endpoint command TRB
    pub fn reset_endpoint(slot_id: u8, endpoint_id: u8, cycle: bool) -> (r: Self)
        ensures
            r == trb_with(
                0,
                0,
                TRB_TYPE_RESET_ENDPOINT * 0x400 + slot_id * 0x100_0000 + endpoint_id * 0x1_0000
                    + cycle_flag(cycle),
            ),
    {
        Self {
            parameter_lo: 0,
            parameter_hi: 0,
            status: 0,
            control: TRB_TYPE_RESET_ENDPOINT * 0x400 + (slot_id as u32) * 0x100_0000 + (endpoint_id as u32)
                * 0x1_0000 + (if cycle { TRB_CYCLE_BIT } else { 0 }),
        }
    }

    /// Build a Link TRB pointing to `next_segment_phys`, optionally toggling cycle
    pub fn link(next_segment_phys: u64, toggle_cycle: bool, cycle: bool) -> (r: Self)
        ensures
            r == trb_with(
                next_segment_phys as int,
                0,
                TRB_TYPE_LINK * 0x400 + flag(toggle_cycle, TRB_TOGGLE_CYCLE as int) + cycle_flag(cycle),
            ),
            toggle_cycle ==> r == link_trb_for(next_segment_phys, cycle),
    {
        let mut trb = Self::zeroed();
        trb.set_parameter(next_segment_phys);
        trb.control = TRB_TYPE_LINK * 0x400 + (if toggle_cycle { TRB_TOGGLE_CYCLE } else { 0 }) + (if cycle {
            TRB_CYCLE_BIT
        } else {
            0
        });
        trb
    }

    /// Build a Setup Stage TRB for a control transfer.
    /// `request_type`, `request`, `value`, `index`, `length` are the USB setup packet fields.
    /// `trt` is the transfer type (TRB_TRT_NO_DATA, TRB_TRT_IN, TRB_TRT_OUT).
    pub fn setup_stage(
        request_type: u8,
        request: u8,
        value: u16,
        index: u16,
        length: u16,
        trt: u32,
        cycle: bool,
    ) -> (r: Self)
        ensures
            r == setup_stage_trb(request_type, request, value, index, length, trt, cycle),
    {
        Self {
            parameter_lo: (request_type as u32) + (request as u32) * 0x100 + (value as u32) * 0x1_0000,
            parameter_hi: (index as u32) + (length as u32) * 0x1_0000,
            status: 8,  // always 8 bytes for setup packet
            control: (TRB_TYPE_SETUP_STAGE * 0x400 + TRB_IDT + (if cycle { TRB_CYCLE_BIT } else { 0 }))
                | trt,
        }
    }

    /// Build a Data Stage TRB.
    /// `data_phys` is the physical address of the data buffer.
    /// `length` is the transfer length in bytes.
    /// `dir_in` is true for IN (device to host), false for OUT.
    pub fn data_stage(data_phys: u64, length: u32, dir_in: bool, cycle: bool) -> (r: Self)
        ensures
            r == data_stage_trb(data_phys, length, dir_in, cycle),
    {
        let mut trb = Self::zeroed();
        trb.set_parameter(data_phys);
        trb.status = length % 0x2_0000;  // bits 16:0 = TRB transfer length (max 64K)
        trb.control = TRB_TYPE_DATA_STAGE * 0x400 + (if dir_in { TRB_DIR_IN } else { 0 }) + (if cycle {
            TRB_CYCLE_BIT
        } else {
            0
        });
        trb
    }

    /// Build a Status Stage TRB.
    /// `dir_in` = true means status stage direction is IN (used for OUT data transfers).
    pub fn status_stage(dir_in: bool, cycle: bool) -> (r: Self)
        ensures
            r == status_stage_trb(dir_in, cycle),
    {
        Self {
            parameter_lo: 0,
            parameter_hi: 0,
            status: 0,
            control: TRB_TYPE_STATUS_STAGE * 0x400 + TRB_IOC + (if dir_in { TRB_DIR_IN } else { 0 }) + (
            if cycle {
                TRB_CYCLE_BIT
            } else {
                0
            }),
        }
    }

    /// Build a Normal TRB for bulk/interrupt transfers.
    pub fn normal(data_phys: u64, length: u32, ioc: bool, cycle: bool) -> (r: Self)
        ensures
            r == normal_trb(data_phys, length, ioc, cycle),
    {
        let mut trb = Self::zeroed();
        trb.set_parameter(data_phys);
        trb.status = length % 0x2_0000;
        trb.control = TRB_TYPE_NORMAL * 0x400 + (if ioc { TRB_IOC } else { 0 }) + TRB_ISP + (if cycle {
            TRB_CYCLE_BIT
        } else {
            0
        });
        trb
    }

    /// This TRB with its cycle bit set to `cycle`, every other bit kept.
    pub open spec fn with_cycle_bit_spec(self, cycle: bool) -> Trb {
        Trb { control: with_cycle(self.control as int, cycle) as u32, ..self }
    }

    /// This TRB with its cycle bit set to `cycle`, every other bit kept.
    pub fn with_cycle_bit(self, cycle: bool) -> (r: Self)
        ensures
            r.parameter_lo == self.parameter_lo,
            r.parameter_hi == self.parameter_hi,
            r.status == self.status,
            r.control == with_cycle(self.control as int, cycle),
            r == self.with_cycle_bit_spec(cycle),
    {
        let mut trb = self;
        let bit = get_field32(trb.control, 1, 2);
        trb.control = trb.control - bit + (if cycle { TRB_CYCLE_BIT } else { 0 });
        trb
    }
}


/// A TRB given a cycle bit carries exactly that cycle bit, and keeps its type,
/// slot, endpoint, completion code and parameter.
pub proof fn lemma_with_cycle_bit(t: Trb, cycle: bool)
    ensures
        t.with_cycle_bit_spec(cycle).spec_cycle_bit() == cycle,
        t.with_cycle_bit_spec(cycle).spec_trb_type() == t.spec_trb_type(),
        t.with_cycle_bit_spec(cycle).spec_slot_id() == t.spec_slot_id(),
        t.with_cycle_bit_spec(cycle).spec_endpoint_id() == t.spec_endpoint_id(),
        t.with_cycle_bit_spec(cycle).spec_completion_code() == t.spec_completion_code(),
        t.with_cycle_bit_spec(cycle).spec_parameter() == t.spec_parameter(),
{
    let c = t.control as int;
    let v = cycle_flag(cycle);
    assert(with_cycle(c, cycle) == with_field(c, 1, 2, v));
    lemma_with_field(c, 1, 2, v);
    lemma_with_field_bound(c, 1, 2, v, 0x1_0000_0000);
    lemma_with_field_keeps_other(c, 1, 2, v, 0x400, 0x40);
    lemma_with_field_keeps_other(c, 1, 2, v, 0x100_0000, 0x100);
    lemma_with_field_keeps_other(c, 1, 2, v, 0x1_0000, 0x20);
}

/// A TRB built from a type, a slot ID, flag bits between the cycle bit and the
/// type field, and a cycle state reads back that type, slot ID and cycle bit, and
/// its 64-bit parameter.
pub proof fn lemma_trb_fields(param: u64, status: int, trb_type: int, slot_id: u8, flags: int, cycle: bool)
    requires
        0 <= status < 0x1_0000_0000,
        0 <= trb_type < 0x40,
        0 <= flags < 0x400,
        flags % 2 == 0,
    ensures
        ({
            let t = trb_with(param as int, status, trb_type * 0x400 + slot_id * 0x100_0000 + flags + cycle_flag(cycle));
            &&& t.spec_trb_type() == trb_type
            &&& t.spec_slot_id() == slot_id
            &&& t.spec_cycle_bit() == cycle
            &&& t.spec_parameter() == param
            &&& t.status == status
        }),
{
    let c = trb_type * 0x400 + slot_id * 0x100_0000 + flags + cycle_flag(cycle);
    assert(c < 0x1_0000_0000);
    assert(field(c, 0x400, 0x40) == trb_type);
    assert(field(c, 0x100_0000, 0x100) == slot_id);
    assert(field(c, 1, 2) == cycle_flag(cycle));
}

// ---------------------------------------------------------------------------
// Ring allocation constants
// ---------------------------------------------------------------------------

/// Default number of TRBs per ring segment (including the Link TRB at the end)
pub const RING_SEGMENT_TRBS: usize = 256;

/// Total size of a ring segment in bytes
pub const RING_SEGMENT_SIZE: usize = RING_SEGMENT_TRBS * Trb::SIZE;

// ---------------------------------------------------------------------------
// Ring cursors
// ---------------------------------------------------------------------------

/// One step of a cursor over `slots` ring slots: the next slot, or slot 0 with the
/// cycle state flipped after the last one.
pub open spec fn cursor_step(index: int, cycle: bool, slots: int) -> (int, bool) {
    if index + 1 >= slots {
        (0, !cycle)
    } else {
        (index + 1, cycle)
    }
}

/// The cursor after `n` steps.
pub open spec fn cursor_steps(index: int, cycle: bool, slots: int, n: nat) -> (int, bool)
    decreases n,
{
    if n == 0 {
        (index, cycle)
    } else {
        let prev = cursor_steps(index, cycle, slots, (n - 1) as nat);
        cursor_step(prev.0, prev.1, slots)
    }
}

/// After `n` steps a cursor is at slot `(index + n) % slots`, and its cycle state has
/// flipped once for every time it went past the last slot.
pub proof fn lemma_cursor_steps(index: int, cycle: bool, slots: int, n: nat)
    requires
        0 <= index < slots,
    ensures
        cursor_steps(index, cycle, slots, n).0 == (index + n) % slots,
        cursor_steps(index, cycle, slots, n).1 == (cycle != (((index + n) / slots) % 2 == 1)),
    decreases n,
{
    if n == 0 {
        lemma_fundamental_div_mod_converse(index, slots, 0, index);
    } else {
        lemma_cursor_steps(index, cycle, slots, (n - 1) as nat);
        let x = index + n - 1;
        let q = x / slots;
        let r = x % slots;
        vstd::arithmetic::div_mod::lemma_fundamental_div_mod(x, slots);
        if r + 1 >= slots {
            assert(x + 1 == (q + 1) * slots + 0) by (nonlinear_arith)
                requires
                    x == slots * q + r,
                    r + 1 == slots,
            {
            }
            lemma_fundamental_div_mod_converse(x + 1, slots, q + 1, 0);
        } else {
            assert(x + 1 == q * slots + (r + 1)) by (nonlinear_arith)
                requires
                    x == slots * q + r,
            {
            }
            lemma_fundamental_div_mod_converse(x + 1, slots, q, r + 1);
        }
    }
}

/// A full lap of `slots` steps brings a cursor back to its slot with its cycle state flipped.
pub proof fn lemma_cursor_full_lap(index: int, cycle: bool, slots: int)
    requires
        0 <= index < slots,
    ensures
        cursor_steps(index, cycle, slots, slots as nat) == (index, !cycle),
{
    lemma_cursor_steps(index, cycle, slots, slots as nat);
    lemma_fundamental_div_mod_converse(index + slots, slots, 1, index);
}

/// What a producer ring asks to be written for one enqueued TRB.
#[derive(Debug, Clone, Copy)]
pub struct Enqueued {
    /// The ring slot that receives `trb`
    pub index: usize,
    /// The TRB to write, its cycle bit set to the producer cycle state
    pub trb: Trb,
    /// Physical address of that slot
    pub phys: u64,
    /// When the enqueue pointer wrapped: the Link TRB to write at the last slot
    pub link: Option<Trb>,
    /// Physical address of the last slot, where the Link TRB lives
    pub link_phys: u64,
}

/// Number of slots a producer cycles through: every slot but the Link TRB's.
pub open spec fn producer_slots() -> int {
    RING_SEGMENT_TRBS - 1
}

/// What a producer at slot `index` with cycle state `cycle` writes for `trb` in the
/// segment at `ring_phys`: the TRB with its cycle bit set to `cycle`, and the Link
/// TRB when this enqueue completes a lap.
pub open spec fn producer_write(ring_phys: u64, index: int, cycle: bool, trb: Trb) -> Enqueued {
    Enqueued {
        index: index as usize,
        trb: trb.with_cycle_bit_spec(cycle),
        phys: (ring_phys + index * Trb::SIZE) as u64,
        link: if cursor_step(index, cycle, producer_slots()).0 == 0 {
            Some(link_trb_for(ring_phys, cycle))
        } else {
            None
        },
        link_phys: (ring_phys + (RING_SEGMENT_TRBS - 1) * Trb::SIZE) as u64,
    }
}

/// A producer ring that has taken `k` enqueues since it was made (enqueue index
/// 0 and cycle state 1, as `new` leaves it) writes its next TRB in slot
/// `k % 255`, at `ring_phys + 16 * (k % 255)` and never in the Link TRB's slot,
/// with cycle bit 1 exactly in even laps; the enqueue that ends a lap also writes
/// the Link TRB with the cycle state of that lap.
pub proof fn lemma_producer_after_enqueues(ring_phys: u64, k: nat, trb: Trb)
    requires
        segment_fits(ring_phys),
    ensures
        ({
            let p = cursor_steps(0, true, producer_slots(), k);
            let w = producer_write(ring_phys, p.0, p.1, trb);
            &&& p.0 == k % 255
            &&& p.1 == ((k / 255) % 2 == 0)
            &&& w.phys == ring_phys + 16 * (k % 255)
            &&& w.phys < ring_phys + 16 * (RING_SEGMENT_TRBS - 1)
            &&& w.trb.spec_cycle_bit() == ((k / 255) % 2 == 0)
            &&& (k % 255 == 254 ==> w.link == Some(link_trb_for(ring_phys, p.1)))
            &&& (k % 255 != 254 ==> w.link is None)
        }),
{
    lemma_cursor_steps(0, true, producer_slots(), k);
    let p = cursor_steps(0, true, producer_slots(), k);
    lemma_with_cycle_bit(trb, p.1);
    assert(0 <= k % 255 < 255);
}

// ---------------------------------------------------------------------------
// Command Ring
// ---------------------------------------------------------------------------

/// Producer ring for software-initiated commands to the host controller.
pub struct CommandRing {
    /// Physical address of the ring segment (for CRCR register)
    ring_phys: u64,
    /// Number of TRBs in the segment (including Link TRB)
    segment_len: usize,
    /// Current enqueue index
    enqueue_idx: usize,
    /// Producer Cycle State (PCS)
    cycle: bool,
}

/// A ring segment of `RING_SEGMENT_TRBS` TRBs at `ring_phys` lies in the
/// address space and is aligned as the controller requires (64 bytes).
pub open spec fn segment_fits(ring_phys: u64) -> bool {
    &&& ring_phys % 64 == 0
    &&& ring_phys + RING_SEGMENT_SIZE <= u64::MAX
}

impl CommandRing {
    #[verifier::type_invariant]
    spec fn inv(self) -> bool {
        &&& segment_fits(self.ring_phys)
        &&& self.segment_len == RING_SEGMENT_TRBS
        &&& self.enqueue_idx < self.segment_len - 1
    }

    /// Physical address of the ring segment.
    pub closed spec fn spec_ring_phys(self) -> u64 {
        self.ring_phys
    }

    /// Slot the next TRB goes into.
    pub closed spec fn spec_enqueue_idx(self) -> int {
        self.enqueue_idx as int
    }

    /// Producer Cycle State.
    pub closed spec fn spec_cycle(self) -> bool {
        self.cycle
    }

    /// A command ring over the zeroed segment at `ring_phys`, with enqueue index 0
    /// and cycle state 1. The caller writes `link_trb()` at `link_index()` before use.
    pub fn new(ring_phys: u64) -> (r: Self)
        requires
            segment_fits(ring_phys),
        ensures
            r.spec_ring_phys() == ring_phys,
            r.spec_enqueue_idx() == 0,
            r.spec_cycle() == true,
    {
        Self { ring_phys, segment_len: RING_SEGMENT_TRBS, enqueue_idx: 0, cycle: true }
    }

    /// Slot of the Link TRB: the last slot of the segment.
    pub fn link_index(&self) -> (r: usize)
        ensures
            r == RING_SEGMENT_TRBS - 1,
    {
        proof {
            use_type_invariant(self);
        }
        self.segment_len - 1
    }

    /// The Link TRB for the current cycle state: points back to the segment start
    /// and toggles the cycle.
    pub fn link_trb(&self) -> (r: Trb)
        ensures
            r == link_trb_for(self.spec_ring_phys(), self.spec_cycle()),
    {
        Trb::link(self.ring_phys, true, self.cycle)
    }

    /// Physical address of the ring (for programming into CRCR).
    /// Includes the initial cycle bit in bit 0.
    pub fn phys_addr_with_cycle(&self) -> (r: u64)
        ensures
            r == self.spec_ring_phys() + cycle_flag(self.spec_cycle()),
    {
        proof {
            use_type_invariant(self);
        }
        self.ring_phys + (if self.cycle { 1 } else { 0 })
    }

    /// Enqueue a TRB onto the command ring: the TRB, its cycle bit set to the
    /// producer cycle state, goes into the enqueue slot, whose physical address is
    /// returned; the enqueue pointer then advances, wrapping at the Link TRB.
    pub fn enqueue(&mut self, trb: Trb) -> (r: Enqueued)
        ensures
            r == producer_write(
                old(self).spec_ring_phys(),
                old(self).spec_enqueue_idx(),
                old(self).spec_cycle(),
                trb,
            ),
            r.index < RING_SEGMENT_TRBS - 1,
            0 <= old(self).spec_enqueue_idx() < RING_SEGMENT_TRBS - 1,
            r.phys == old(self).spec_ring_phys() + Trb::SIZE * old(self).spec_enqueue_idx(),
            0 <= final(self).spec_enqueue_idx() < RING_SEGMENT_TRBS - 1,
            final(self).spec_ring_phys() == old(self).spec_ring_phys(),
            (final(self).spec_enqueue_idx(), final(self).spec_cycle()) == cursor_step(
                old(self).spec_enqueue_idx(),
                old(self).spec_cycle(),
                producer_slots(),
            ),
    {
        proof {
            use_type_invariant(&*self);
        }
        let trb = trb.with_cycle_bit(self.cycle);
        let index = self.enqueue_idx;
        let phys = self.ring_phys + (index * Trb::SIZE) as u64;
        let link_phys = self.ring_phys + ((self.segment_len - 1) * Trb::SIZE) as u64;
        let link = self.advance_enqueue();
        Enqueued { index, trb, phys, link, link_phys }
    }

    /// Advance the enqueue pointer, wrapping at the Link TRB. On a wrap, returns the
    /// Link TRB carrying the cycle state that ends this lap.
    fn advance_enqueue(&mut self) -> (r: Option<Trb>)
        ensures
            final(self).spec_ring_phys() == old(self).spec_ring_phys(),
            (final(self).spec_enqueue_idx(), final(self).spec_cycle()) == cursor_step(
                old(self).spec_enqueue_idx(),
                old(self).spec_cycle(),
                producer_slots(),
            ),
            r == producer_write(
                old(self).spec_ring_phys(),
                old(self).spec_enqueue_idx(),
                old(self).spec_cycle(),
                Trb::zeroed_spec(),
            ).link,
    {
        proof {
            use_type_invariant(&*self);
        }
        if self.enqueue_idx + 1 >= self.segment_len - 1 {
            // Update the Link TRB's cycle bit before wrapping
            let link = Trb::link(self.ring_phys, true, self.cycle);
            self.enqueue_idx = 0;
            self.cycle = !self.cycle;
            Some(link)
        } else {
            self.enqueue_idx = self.enqueue_idx + 1;
            None
        }
    }
}

// ---------------------------------------------------------------------------
// Event Ring Segment Table Entry
// ---------------------------------------------------------------------------

/// Event Ring Segment Table Entry (ERSTE) — 16 bytes per xHCI spec 6.5:
/// the segment base address (64-bit), then its size in TRBs (16-bit), then zeros.
#[derive(Debug, Clone, Copy)]
pub struct EventRingSegmentTableEntry {
    /// Ring Segment Base Address (physical, 64-byte aligned)
    pub ring_segment_base: u64,
    /// Ring Segment Size (number of TRBs in this segment)
    pub ring_segment_size: u16,
    /// Reserved (zero)
    pub _reserved1: u16,
    /// Reserved (zero)
    pub _reserved2: u32,
}

// ---------------------------------------------------------------------------
// Event Ring
// ---------------------------------------------------------------------------

/// Consumer ring for events posted by the host controller.
pub struct EventRing {
    /// Physical address of the event ring segment
    ring_phys: u64,
    /// Physical address of the segment table (for ERSTBA)
    erst_phys: u64,
    /// Number of TRBs in the segment
    segment_len: usize,
    /// Current dequeue index
    dequeue_idx: usize,
    /// Consumer Cycle State (CCS)
    cycle: bool,
}

impl EventRing {
    #[verifier::type_invariant]
    spec fn inv(self) -> bool {
        &&& segment_fits(self.ring_phys)
        &&& self.segment_len == RING_SEGMENT_TRBS
        &&& self.dequeue_idx < self.segment_len
    }

    /// Physical address of the event ring segment.
    pub closed spec fn spec_ring_phys(self) -> u64 {
        self.ring_phys
    }

    /// Physical address of the segment table.
    pub closed spec fn spec_erst_phys(self) -> u64 {
        self.erst_phys
    }

    /// Slot the next event is read from.
    pub closed spec fn spec_dequeue_idx(self) -> int {
        self.dequeue_idx as int
    }

    /// Consumer Cycle State.
    pub closed spec fn spec_cycle(self) -> bool {
        self.cycle
    }

    /// An event ring over the zeroed segment at `ring_phys`, described by the
    /// one-entry segment table at `erst_phys`, with dequeue index 0 and cycle state 1.
    /// The caller writes `segment_table_entry()` at `erst_phys`.
    pub fn new(ring_phys: u64, erst_phys: u64) -> (r: Self)
        requires
            segment_fits(ring_phys),
        ensures
            r.spec_ring_phys() == ring_phys,
            r.spec_erst_phys() == erst_phys,
            r.spec_dequeue_idx() == 0,
            r.spec_cycle() == true,
    {
        Self { ring_phys, erst_phys, segment_len: RING_SEGMENT_TRBS, dequeue_idx: 0, cycle: true }
    }

    /// The segment table entry that describes this ring's one segment.
    pub fn segment_table_entry(&self) -> (r: EventRingSegmentTableEntry)
        ensures
            r.ring_segment_base == self.spec_ring_phys(),
            r.ring_segment_size == RING_SEGMENT_TRBS,
            r._reserved1 == 0,
            r._reserved2 == 0,
    {
        EventRingSegmentTableEntry {
            ring_segment_base: self.ring_phys,
            ring_segment_size: RING_SEGMENT_TRBS as u16,
            _reserved1: 0,
            _reserved2: 0,
        }
    }

    /// Physical address of the ERST (for programming ERSTBA)
    pub fn erst_phys(&self) -> (r: u64)
        ensures
            r == self.spec_erst_phys(),
    {
        self.erst_phys
    }

    /// Number of segments (always 1 for now)
    pub fn erst_size(&self) -> (r: u32)
        ensures
            r == 1,
    {
        1
    }

    /// Slot of the segment the next event is read from.
    pub fn dequeue_index(&self) -> (r: usize)
        ensures
            r == self.spec_dequeue_idx(),
            r < RING_SEGMENT_TRBS,
    {
        proof {
            use_type_invariant(self);
        }
        self.dequeue_idx
    }

    /// Current dequeue pointer physical address (for programming ERDP)
    pub fn dequeue_phys(&self) -> (r: u64)
        ensures
            r == self.spec_ring_phys() + self.spec_dequeue_idx() * Trb::SIZE,
            r + Trb::SIZE <= self.spec_ring_phys() + RING_SEGMENT_SIZE,
            self.spec_ring_phys() + RING_SEGMENT_SIZE <= u64::MAX,
    {
        proof {
            use_type_invariant(self);
        }
        self.ring_phys + (self.dequeue_idx * Trb::SIZE) as u64
    }

    /// Try to dequeue an event TRB, given the TRB found at the dequeue slot.
    /// Returns `Some(trb)` if an event is pending, `None` if the ring is empty
    /// (cycle bit mismatch).
    pub fn dequeue(&mut self, trb: Trb) -> (r: Option<Trb>)
        ensures
            final(self).spec_ring_phys() == old(self).spec_ring_phys(),
            final(self).spec_erst_phys() == old(self).spec_erst_phys(),
            trb.spec_cycle_bit() != old(self).spec_cycle() ==> {
                &&& r is None
                &&& *final(self) == *old(self)
            },
            trb.spec_cycle_bit() == old(self).spec_cycle() ==> {
                &&& r == Some(trb)
                &&& (final(self).spec_dequeue_idx(), final(self).spec_cycle()) == cursor_step(
                    old(self).spec_dequeue_idx(),
                    old(self).spec_cycle(),
                    RING_SEGMENT_TRBS as int,
                )
            },
    {
        proof {
            use_type_invariant(&*self);
        }
        // Check if this TRB's cycle bit matches our expected CCS
        if trb.cycle_bit() != self.cycle {
            return None;
        }
        if self.dequeue_idx + 1 >= self.segment_len {
            self.dequeue_idx = 0;
            self.cycle = !self.cycle;
        } else {
            self.dequeue_idx = self.dequeue_idx + 1;
        }
        Some(trb)
    }

    /// Check if there is a pending event without consuming it, given the TRB found
    /// at the dequeue slot.
    pub fn has_pending(&self, trb: Trb) -> (r: bool)
        ensures
            r == (trb.spec_cycle_bit() == self.spec_cycle()),
    {
        trb.cycle_bit() == self.cycle
    }
}

// ---------------------------------------------------------------------------
// Transfer Ring
// ---------------------------------------------------------------------------

/// Whether a USB request type asks for device-to-host data (bit 7 set).
pub open spec fn request_is_in(request_type: u8) -> bool {
    request_type >= 0x80
}

/// The TRBs of a control transfer in ring order, each with cycle bit 0: a Setup
/// Stage, a Data Stage when there is data, and a Status Stage whose direction is
/// opposite to the data (IN when there is no data).
pub open spec fn control_transfer_trbs(
    request_type: u8,
    request: u8,
    value: u16,
    index: u16,
    data_phys: u64,
    data_len: u16,
) -> Seq<Trb> {
    let dir_in = request_is_in(request_type);
    let trt = if data_len == 0 {
        TRB_TRT_NO_DATA
    } else if dir_in {
        TRB_TRT_IN
    } else {
        TRB_TRT_OUT
    };
    let setup = setup_stage_trb(request_type, request, value, index, data_len, trt, false);
    let status = status_stage_trb(if data_len == 0 { true } else { !dir_in }, false);
    if data_len > 0 {
        seq![setup, data_stage_trb(data_phys, data_len as u32, dir_in, false), status]
    } else {
        seq![setup, status]
    }
}

/// What a producer starting at slot `index` with cycle state `cycle` writes for
/// `trbs`, enqueued one after the other.
pub open spec fn producer_writes(ring_phys: u64, index: int, cycle: bool, trbs: Seq<Trb>) -> Seq<
    Enqueued,
> {
    Seq::new(
        trbs.len(),
        |k: int|
            {
                let p = cursor_steps(index, cycle, producer_slots(), k as nat);
                producer_write(ring_phys, p.0, p.1, trbs[k])
            },
    )
}

/// Producer ring for endpoint data transfers (control, bulk, interrupt).
pub struct TransferRing {
    /// Physical address of the ring segment
    ring_phys: u64,
    /// Number of TRBs in the segment (including Link TRB)
    segment_len: usize,
    /// Current enqueue index
    enqueue_idx: usize,
    /// Producer Cycle State
    cycle: bool,
}

impl TransferRing {
    #[verifier::type_invariant]
    spec fn inv(self) -> bool {
        &&& segment_fits(self.ring_phys)
        &&& self.segment_len == RING_SEGMENT_TRBS
        &&& self.enqueue_idx < self.segment_len - 1
    }

    /// Physical address of the ring segment.
    pub closed spec fn spec_ring_phys(self) -> u64 {
        self.ring_phys
    }

    /// Slot the next TRB goes into.
    pub closed spec fn spec_enqueue_idx(self) -> int {
        self.enqueue_idx as int
    }

    /// Producer Cycle State.
    pub closed spec fn spec_cycle(self) -> bool {
        self.cycle
    }

    /// A transfer ring over the zeroed segment at `ring_phys`, with enqueue index 0
    /// and cycle state 1. The caller writes `link_trb()` at `link_index()` before use.
    pub fn new(ring_phys: u64) -> (r: Self)
        requires
            segment_fits(ring_phys),
        ensures
            r.spec_ring_phys() == ring_phys,
            r.spec_enqueue_idx() == 0,
            r.spec_cycle() == true,
    {
        Self { ring_phys, segment_len: RING_SEGMENT_TRBS, enqueue_idx: 0, cycle: true }
    }

    /// Slot of the Link TRB: the last slot of the segment.
    pub fn link_index(&self) -> (r: usize)
        ensures
            r == RING_SEGMENT_TRBS - 1,
    {
        proof {
            use_type_invariant(self);
        }
        self.segment_len - 1
    }

    /// The Link TRB for the current cycle state: points back to the segment start
    /// and toggles the cycle.
    pub fn link_trb(&self) -> (r: Trb)
        ensures
            r == link_trb_for(self.spec_ring_phys(), self.spec_cycle()),
    {
        Trb::link(self.ring_phys, true, self.cycle)
    }

    /// Physical address of the ring start (for TR Dequeue Pointer in endpoint context).
    /// Includes cycle bit in bit 0 and DCS (Dequeue Cycle State).
    pub fn phys_addr_with_dcs(&self) -> (r: u64)
        ensures
            r == self.spec_ring_phys() + cycle_flag(self.spec_cycle()),
    {
        proof {
            use_type_invariant(self);
        }
        self.ring_phys + (if self.cycle { 1 } else { 0 })
    }

    /// Enqueue a TRB onto the transfer ring. Sets the cycle bit appropriately.
    pub fn enqueue(&mut self, trb: Trb) -> (r: Enqueued)
        ensures
            r == producer_write(
                old(self).spec_ring_phys(),
                old(self).spec_enqueue_idx(),
                old(self).spec_cycle(),
                trb,
            ),
            r.index < RING_SEGMENT_TRBS - 1,
            0 <= old(self).spec_enqueue_idx() < RING_SEGMENT_TRBS - 1,
            r.phys == old(self).spec_ring_phys() + Trb::SIZE * old(self).spec_enqueue_idx(),
            0 <= final(self).spec_enqueue_idx() < RING_SEGMENT_TRBS - 1,
            final(self).spec_ring_phys() == old(self).spec_ring_phys(),
            (final(self).spec_enqueue_idx(), final(self).spec_cycle()) == cursor_step(
                old(self).spec_enqueue_idx(),
                old(self).spec_cycle(),
                producer_slots(),
            ),
    {
        proof {
            use_type_invariant(&*self);
        }
        let trb = trb.with_cycle_bit(self.cycle);
        let index = self.enqueue_idx;
        let phys = self.ring_phys + (index * Trb::SIZE) as u64;
        let link_phys = self.ring_phys + ((self.segment_len - 1) * Trb::SIZE) as u64;
        let link = self.advance_enqueue();
        Enqueued { index, trb, phys, link, link_phys }
    }

    /// Enqueue a control transfer (Setup + optional Data + Status).
    /// Returns the physical address of the Status Stage TRB and the writes, in order.
    pub fn enqueue_control_transfer(
        &mut self,
        request_type: u8,
        request: u8,
        value: u16,
        index: u16,
        data_phys: u64,
        data_len: u16,
    ) -> (r: (u64, Vec<Enqueued>))
        ensures
            r.1@ == producer_writes(
                old(self).spec_ring_phys(),
                old(self).spec_enqueue_idx(),
                old(self).spec_cycle(),
                control_transfer_trbs(request_type, request, value, index, data_phys, data_len),
            ),
            r.0 == r.1@.last().phys,
            final(self).spec_ring_phys() == old(self).spec_ring_phys(),
            (final(self).spec_enqueue_idx(), final(self).spec_cycle()) == cursor_steps(
                old(self).spec_enqueue_idx(),
                old(self).spec_cycle(),
                producer_slots(),
                control_transfer_trbs(
                    request_type,
                    request,
                    value,
                    index,
                    data_phys,
                    data_len,
                ).len(),
            ),
    {
        let ghost trbs = control_transfer_trbs(
            request_type,
            request,
            value,
            index,
            data_phys,
            data_len,
        );
        let ghost phys0 = self.spec_ring_phys();
        let ghost idx0 = self.spec_enqueue_idx();
        let ghost cyc0 = self.spec_cycle();
        proof {
            reveal_with_fuel(cursor_steps, 4);
        }
        let dir_in = request_type >= 0x80;

        // Determine Transfer Type for Setup Stage
        let trt = if data_len == 0 {
            TRB_TRT_NO_DATA
        } else if dir_in {
            TRB_TRT_IN
        } else {
            TRB_TRT_OUT
        };

        let mut writes: Vec<Enqueued> = Vec::new();

        // Setup Stage TRB
        let setup = Trb::setup_stage(request_type, request, value, index, data_len, trt, false);
        let w = self.enqueue(setup);
        writes.push(w);
        assert(writes@ =~= producer_writes(phys0, idx0, cyc0, trbs.take(1)));

        // Data Stage TRB (if needed)
        if data_len > 0 {
            let data = Trb::data_stage(data_phys, data_len as u32, dir_in, false);
            let w = self.enqueue(data);
            writes.push(w);
            assert(writes@ =~= producer_writes(phys0, idx0, cyc0, trbs.take(2)));
        }
        // Status Stage TRB — direction is opposite of data stage
        // (or IN if no data stage)

        let status_dir = if data_len == 0 {
            true
        } else {
            !dir_in
        };
        let status = Trb::status_stage(status_dir, false);
        let w = self.enqueue(status);
        let status_phys = w.phys;
        writes.push(w);
        assert(writes@ =~= producer_writes(phys0, idx0, cyc0, trbs));
        (status_phys, writes)
    }

    /// Enqueue an interrupt IN transfer (e.g., for HID keyboard polling).
    /// `data_phys` is the buffer physical address, `length` is the max bytes to read.
    pub fn enqueue_interrupt_in(&mut self, data_phys: u64, length: u32) -> (r: Enqueued)
        ensures
            r == producer_write(
                old(self).spec_ring_phys(),
                old(self).spec_enqueue_idx(),
                old(self).spec_cycle(),
                normal_trb(data_phys, length, true, false),
            ),
            final(self).spec_ring_phys() == old(self).spec_ring_phys(),
            (final(self).spec_enqueue_idx(), final(self).spec_cycle()) == cursor_step(
                old(self).spec_enqueue_idx(),
                old(self).spec_cycle(),
                producer_slots(),
            ),
    {
        let trb = Trb::normal(data_phys, length, true, false);
        self.enqueue(trb)
    }

    /// Advance the enqueue pointer, handling Link TRB wrap.
    fn advance_enqueue(&mut self) -> (r: Option<Trb>)
        ensures
            final(self).spec_ring_phys() == old(self).spec_ring_phys(),
            (final(self).spec_enqueue_idx(), final(self).spec_cycle()) == cursor_step(
                old(self).spec_enqueue_idx(),
                old(self).spec_cycle(),
                producer_slots(),
            ),
            r == producer_write(
                old(self).spec_ring_phys(),
                old(self).spec_enqueue_idx(),
                old(self).spec_cycle(),
                Trb::zeroed_spec(),
            ).link,
    {
        proof {
            use_type_invariant(&*self);
        }
        if self.enqueue_idx + 1 >= self.segment_len - 1 {
            // Update Link TRB cycle bit
            let link = Trb::link(self.ring_phys, true, self.cycle);
            self.enqueue_idx = 0;
            self.cycle = !self.cycle;
            Some(link)
        } else {
            self.enqueue_idx = self.enqueue_idx + 1;
            None
        }
    }
}

} // verus!
