//! xHCI Device Context, Endpoint Context, and Input Context structures
//!
//! Per xHCI spec section 6.2, contexts are the data structures the controller uses
//! to track device state. The context size is either 32 or 64 bytes depending on
//! the CSZ flag in HCCPARAMS1.
//!
//! Layout:
//! - **Device Context**: Slot Context + 31 Endpoint Contexts
//! - **Input Context**: Input Control Context + Slot Context + 31 Endpoint Contexts
//! - **DCBAA**: Array of 64-bit pointers to Device Contexts, indexed by slot ID
//!
//! Context memory is identity-mapped DMA memory owned by the caller: the types
//! here build context contents and give the addresses they go to.
use vstd::prelude::*;
use crate::fields::{field, with_field, flag, get_field32, set_field32};

verus! {

// ---------------------------------------------------------------------------
// Slot Context fields (32 bytes, Table 6-4 in xHCI spec)
// ---------------------------------------------------------------------------
// DW0: Route String (bits 19:0), Speed (bits 23:20), MTT (bit 25),
//      Hub (bit 26), Context Entries (bits 31:27)
// DW1: Max Exit Latency (bits 15:0), Root Hub Port Number (bits 23:16),
//      Number of Ports (bits 31:24)
// DW2: TT Hub Slot ID (bits 7:0), TT Port Number (bits 15:8),
//      TTT (bits 17:16), Interrupter Target (bits 31:22)
// DW3: USB Device Address (bits 7:0), Slot State (bits 31:27)
pub const SLOT_CTX_DW0_ROUTE_STRING_MASK: u32 = 0xfffff;
pub const SLOT_CTX_DW0_SPEED_SHIFT: u32 = 20;
pub const SLOT_CTX_DW0_SPEED_MASK: u32 = 0xf00000;
pub const SLOT_CTX_DW0_MTT: u32 = 0x2000000;
pub const SLOT_CTX_DW0_HUB: u32 = 0x4000000;
pub const SLOT_CTX_DW0_CONTEXT_ENTRIES_SHIFT: u32 = 27;
pub const SLOT_CTX_DW0_CONTEXT_ENTRIES_MASK: u32 = 0xf8000000;

pub const SLOT_CTX_DW1_MAX_EXIT_LATENCY_MASK: u32 = 0xffff;
pub const SLOT_CTX_DW1_ROOT_HUB_PORT_SHIFT: u32 = 16;
pub const SLOT_CTX_DW1_ROOT_HUB_PORT_MASK: u32 = 0xff0000;
pub const SLOT_CTX_DW1_NUM_PORTS_SHIFT: u32 = 24;
pub const SLOT_CTX_DW1_NUM_PORTS_MASK: u32 = 0xff000000;

pub const SLOT_CTX_DW3_DEVICE_ADDRESS_MASK: u32 = 0xff;
pub const SLOT_CTX_DW3_SLOT_STATE_SHIFT: u32 = 27;
pub const SLOT_CTX_DW3_SLOT_STATE_MASK: u32 = 0xf8000000;

/// Slot states per xHCI spec Table 6-6
pub const SLOT_STATE_DISABLED: u32 = 0;
pub const SLOT_STATE_DEFAULT: u32 = 1;
pub const SLOT_STATE_ADDRESSED: u32 = 2;
pub const SLOT_STATE_CONFIGURED: u32 = 3;

/// Speed values for slot context
pub const SPEED_FULL: u32 = 1;
pub const SPEED_LOW: u32 = 2;
pub const SPEED_HIGH: u32 = 3;
pub const SPEED_SUPER: u32 = 4;

// ---------------------------------------------------------------------------
// Endpoint Context fields (32 bytes, Table 6-7 in xHCI spec)
// ---------------------------------------------------------------------------
// DW0: EP State (bits 2:0), Mult (bits 9:8), MaxPStreams (bits 14:10),
//      Interval (bits 23:16), Max ESIT Payload Hi (bits 31:24)
// DW1: CErr (bits 2:1), EP Type (bits 5:3), Max Burst Size (bits 15:8),
//      Max Packet Size (bits 31:16)
// DW2-3: TR Dequeue Pointer (64-bit, bits 63:4), DCS (bit 0)
// DW4: Average TRB Length (bits 15:0), Max ESIT Payload Lo (bits 31:16)
pub const EP_CTX_DW0_STATE_MASK: u32 = 7;
pub const EP_CTX_DW0_MULT_SHIFT: u32 = 8;
pub const EP_CTX_DW0_MULT_MASK: u32 = 0x300;
pub const EP_CTX_DW0_MAX_P_STREAMS_SHIFT: u32 = 10;
pub const EP_CTX_DW0_MAX_P_STREAMS_MASK: u32 = 0x7c00;
pub const EP_CTX_DW0_INTERVAL_SHIFT: u32 = 16;
pub const EP_CTX_DW0_INTERVAL_MASK: u32 = 0xff0000;

pub const EP_CTX_DW1_CERR_SHIFT: u32 = 1;
pub const EP_CTX_DW1_CERR_MASK: u32 = 6;
pub const EP_CTX_DW1_EP_TYPE_SHIFT: u32 = 3;
pub const EP_CTX_DW1_EP_TYPE_MASK: u32 = 0x38;
pub const EP_CTX_DW1_MAX_BURST_SHIFT: u32 = 8;
pub const EP_CTX_DW1_MAX_BURST_MASK: u32 = 0xff00;
pub const EP_CTX_DW1_MAX_PACKET_SIZE_SHIFT: u32 = 16;
pub const EP_CTX_DW1_MAX_PACKET_SIZE_MASK: u32 = 0xffff0000;

pub const EP_CTX_DW4_AVG_TRB_LENGTH_MASK: u32 = 0xffff;
pub const EP_CTX_DW4_MAX_ESIT_PAYLOAD_MASK: u32 = 0xffff0000;

/// Endpoint states per xHCI spec Table 6-8
pub const EP_STATE_DISABLED: u32 = 0;
pub const EP_STATE_RUNNING: u32 = 1;
pub const EP_STATE_HALTED: u32 = 2;
pub const EP_STATE_STOPPED: u32 = 3;
pub const EP_STATE_ERROR: u32 = 4;

/// Endpoint types per xHCI spec Table 6-9 (EP Type field, 3 bits)
pub const EP_TYPE_NOT_VALID: u32 = 0;
pub const EP_TYPE_ISOCH_OUT: u32 = 1;
pub const EP_TYPE_BULK_OUT: u32 = 2;
pub const EP_TYPE_INTERRUPT_OUT: u32 = 3;
pub const EP_TYPE_CONTROL: u32 = 4;
pub const EP_TYPE_ISOCH_IN: u32 = 5;
pub const EP_TYPE_BULK_IN: u32 = 6;
pub const EP_TYPE_INTERRUPT_IN: u32 = 7;

// ---------------------------------------------------------------------------
// Input Control Context fields (Table 6-2 in xHCI spec)
// ---------------------------------------------------------------------------

/// Input Control Context DW0: Drop Context flags (bits 31:2)
pub const INPUT_CTX_DROP_SHIFT: u32 = 0;
// Input Control Context DW1: Add Context flags (bits 31:0)
// Bit 0 = Slot Context, Bit 1 = EP0, Bit 2 = EP1 OUT, Bit 3 = EP1 IN, etc.

// ---------------------------------------------------------------------------
// Context wrapper: raw 32-byte or 64-byte context as DWORDs
// ---------------------------------------------------------------------------

/// A raw xHCI context (Slot, Endpoint, or Input Control Context).
/// Stored as an array of DWORDs for direct field manipulation.
#[derive(Clone, Copy)]
pub struct RawContext {
    /// DWORDs (8 for 32-byte context, 16 for 64-byte context)
    pub dwords: [u32; 16],
    /// Context size: 32 or 64 bytes
    pub ctx_size: usize,
}

/// A context size the controller supports: 32 or 64 bytes.
pub open spec fn valid_ctx_size(ctx_size: usize) -> bool {
    ctx_size == 32 || ctx_size == 64
}

/// The 64-bit value held by dwords `lo` (low half) and `lo + 1` (high half).
pub open spec fn qword_of(dwords: Seq<u32>, lo: int) -> int {
    dwords[lo + 1] * 0x1_0000_0000 + dwords[lo]
}

impl RawContext {
    /// Create a zeroed context of the given size (32 or 64 bytes).
    pub fn new(ctx_size: usize) -> (r: Self)
        requires
            valid_ctx_size(ctx_size),
        ensures
            r.dwords@ == Seq::new(16, |i: int| 0u32),
            r.ctx_size == ctx_size,
    {
        let r = Self { dwords: [0u32; 16], ctx_size };
        assert(r.dwords@ =~= Seq::new(16, |i: int| 0u32));
        r
    }

    /// Number of DWORDs the context occupies in memory.
    pub fn dword_count(&self) -> (r: usize)
        ensures
            r == self.ctx_size / 4,
    {
        self.ctx_size / 4
    }

    /// Read a DWORD field.
    pub fn dw(&self, index: usize) -> (r: u32)
        requires
            index < 16,
        ensures
            r == self.dwords@[index as int],
    {
        self.dwords[index]
    }

    /// Write a DWORD field.
    pub fn set_dw(&mut self, index: usize, val: u32)
        requires
            index < 16,
        ensures
            final(self).dwords@ == old(self).dwords@.update(index as int, val),
            final(self).ctx_size == old(self).ctx_size,
    {
        self.dwords[index] = val;
    }

    /// Read a 64-bit field from two consecutive DWORDs.
    pub fn qw(&self, lo_index: usize) -> (r: u64)
        requires
            lo_index + 1 < 16,
        ensures
            r == qword_of(self.dwords@, lo_index as int),
    {
        (self.dwords[lo_index + 1] as u64) * 0x1_0000_0000 + (self.dwords[lo_index] as u64)
    }

    /// Write a 64-bit field to two consecutive DWORDs.
    pub fn set_qw(&mut self, lo_index: usize, val: u64)
        requires
            lo_index + 1 < 16,
        ensures
            final(self).dwords@ == old(self).dwords@.update(
                lo_index as int,
                (val % 0x1_0000_0000) as u32,
            ).update(lo_index + 1, (val / 0x1_0000_0000) as u32),
            final(self).ctx_size == old(self).ctx_size,
            qword_of(final(self).dwords@, lo_index as int) == val,
    {
        self.dwords[lo_index] = (val % 0x1_0000_0000) as u32;
        self.dwords[lo_index + 1] = (val / 0x1_0000_0000) as u32;
    }
}

/// The context dwords after replacing field (`unit`, `size`) of dword `i` with `value`.
pub open spec fn dwords_with_field(dwords: Seq<u32>, i: int, unit: int, size: int, value: int) -> Seq<
    u32,
> {
    dwords.update(i, with_field(dwords[i] as int, unit, size, value) as u32)
}

// ---------------------------------------------------------------------------
// Slot Context builder
// ---------------------------------------------------------------------------

/// Builder for a Slot Context.
pub struct SlotContext {
    pub raw: RawContext,
}

impl SlotContext {
    pub fn new(ctx_size: usize) -> (r: Self)
        requires
            valid_ctx_size(ctx_size),
        ensures
            r.raw.dwords@ == Seq::new(16, |i: int| 0u32),
            r.raw.ctx_size == ctx_size,
    {
        Self { raw: RawContext::new(ctx_size) }
    }

    /// Replace field (`unit`, `size`) of dword `i` with `value`.
    fn update_field(&mut self, i: usize, unit: u32, size: u32, value: u32)
        requires
            i < 16,
            0 < unit,
            0 < size,
            0x1_0000_0000int % (unit as int * size as int) == 0,
        ensures
            final(self).raw.dwords@ == dwords_with_field(
                old(self).raw.dwords@,
                i as int,
                unit as int,
                size as int,
                value as int,
            ),
            final(self).raw.ctx_size == old(self).raw.ctx_size,
    {
        let v = set_field32(self.raw.dw(i), unit, size, value);
        self.raw.set_dw(i, v);
    }

    /// Set route string (bits 19:0 of DW0)
    pub fn set_route_string(&mut self, route: u32) -> (r: &mut Self)
        ensures
            r.raw.dwords@ == dwords_with_field(old(self).raw.dwords@, 0, 0x1, 0x10_0000, route as int),
            r.raw.ctx_size == old(self).raw.ctx_size,
            *final(self) == *final(r),
    {
        self.update_field(0, 0x1, 0x10_0000, route);
        self
    }

    /// Set device speed (bits 23:20 of DW0)
    pub fn set_speed(&mut self, speed: u32) -> (r: &mut Self)
        ensures
            r.raw.dwords@ == dwords_with_field(old(self).raw.dwords@, 0, 0x10_0000, 0x10, speed as int),
            r.raw.ctx_size == old(self).raw.ctx_size,
            *final(self) == *final(r),
    {
        self.update_field(0, 0x10_0000, 0x10, speed as u32);
        self
    }

    /// Set Context Entries (bits 31:27 of DW0) — highest valid endpoint context index
    pub fn set_context_entries(&mut self, entries: u8) -> (r: &mut Self)
        ensures
            r.raw.dwords@ == dwords_with_field(old(self).raw.dwords@, 0, 0x800_0000, 0x20, entries as int),
            r.raw.ctx_size == old(self).raw.ctx_size,
            *final(self) == *final(r),
    {
        self.update_field(0, 0x800_0000, 0x20, entries as u32);
        self
    }

    /// Set Root Hub Port Number (bits 23:16 of DW1)
    pub fn set_root_hub_port(&mut self, port: u8) -> (r: &mut Self)
        ensures
            r.raw.dwords@ == dwords_with_field(old(self).raw.dwords@, 1, 0x1_0000, 0x100, port as int),
            r.raw.ctx_size == old(self).raw.ctx_size,
            *final(self) == *final(r),
    {
        self.update_field(1, 0x1_0000, 0x100, port as u32);
        self
    }

    /// Set Max Exit Latency (bits 15:0 of DW1)
    pub fn set_max_exit_latency(&mut self, latency: u16) -> (r: &mut Self)
        ensures
            r.raw.dwords@ == dwords_with_field(old(self).raw.dwords@, 1, 0x1, 0x1_0000, latency as int),
            r.raw.ctx_size == old(self).raw.ctx_size,
            *final(self) == *final(r),
    {
        self.update_field(1, 0x1, 0x1_0000, latency as u32);
        self
    }

    /// Set Number of Ports (bits 31:24 of DW1, for hub devices)
    pub fn set_num_ports(&mut self, n: u8) -> (r: &mut Self)
        ensures
            r.raw.dwords@ == dwords_with_field(old(self).raw.dwords@, 1, 0x100_0000, 0x100, n as int),
            r.raw.ctx_size == old(self).raw.ctx_size,
            *final(self) == *final(r),
    {
        self.update_field(1, 0x100_0000, 0x100, n as u32);
        self
    }

    /// Set Hub flag (bit 26 of DW0)
    pub fn set_hub(&mut self, is_hub: bool) -> (r: &mut Self)
        ensures
            r.raw.dwords@ == dwords_with_field(old(self).raw.dwords@, 0, 0x400_0000, 0x2, flag(is_hub, 1)),
            r.raw.ctx_size == old(self).raw.ctx_size,
            *final(self) == *final(r),
    {
        self.update_field(0, 0x400_0000, 0x2, if is_hub { 1 } else { 0 });
        self
    }

    /// Set Multi-TT flag (bit 25 of DW0)
    pub fn set_mtt(&mut self, mtt: bool) -> (r: &mut Self)
        ensures
            r.raw.dwords@ == dwords_with_field(old(self).raw.dwords@, 0, 0x200_0000, 0x2, flag(mtt, 1)),
            r.raw.ctx_size == old(self).raw.ctx_size,
            *final(self) == *final(r),
    {
        self.update_field(0, 0x200_0000, 0x2, if mtt { 1 } else { 0 });
        self
    }

    /// Get device address from DW3
    pub fn device_address(&self) -> (r: u8)
        ensures
            r == field(self.raw.dwords@[3] as int, 0x1, 0x100),
    {
        get_field32(self.raw.dw(3), 0x1, 0x100) as u8
    }

    /// Get slot state from DW3
    pub fn slot_state(&self) -> (r: u32)
        ensures
            r == field(self.raw.dwords@[3] as int, 0x800_0000, 0x20),
    {
        get_field32(self.raw.dw(3), 0x800_0000, 0x20)
    }
}

// ---------------------------------------------------------------------------
// Endpoint Context builder
// ---------------------------------------------------------------------------

/// Builder for an Endpoint Context.
pub struct EndpointContext {
    pub raw: RawContext,
}

impl EndpointContext {
    pub fn new(ctx_size: usize) -> (r: Self)
        requires
            valid_ctx_size(ctx_size),
        ensures
            r.raw.dwords@ == Seq::new(16, |i: int| 0u32),
            r.raw.ctx_size == ctx_size,
    {
        Self { raw: RawContext::new(ctx_size) }
    }

    /// Replace field (`unit`, `size`) of dword `i` with `value`.
    fn update_field(&mut self, i: usize, unit: u32, size: u32, value: u32)
        requires
            i < 16,
            0 < unit,
            0 < size,
            0x1_0000_0000int % (unit as int * size as int) == 0,
        ensures
            final(self).raw.dwords@ == dwords_with_field(
                old(self).raw.dwords@,
                i as int,
                unit as int,
                size as int,
                value as int,
            ),
            final(self).raw.ctx_size == old(self).raw.ctx_size,
    {
        let v = set_field32(self.raw.dw(i), unit, size, value);
        self.raw.set_dw(i, v);
    }

    /// Set endpoint type (bits 5:3 of DW1)
    pub fn set_ep_type(&mut self, ep_type: u32) -> (r: &mut Self)
        ensures
            r.raw.dwords@ == dwords_with_field(old(self).raw.dwords@, 1, 0x8, 0x8, ep_type as int),
            r.raw.ctx_size == old(self).raw.ctx_size,
            *final(self) == *final(r),
    {
        self.update_field(1, 0x8, 0x8, ep_type as u32);
        self
    }

    /// Set max packet size (bits 31:16 of DW1)
    pub fn set_max_packet_size(&mut self, size: u16) -> (r: &mut Self)
        ensures
            r.raw.dwords@ == dwords_with_field(old(self).raw.dwords@, 1, 0x1_0000, 0x1_0000, size as int),
            r.raw.ctx_size == old(self).raw.ctx_size,
            *final(self) == *final(r),
    {
        self.update_field(1, 0x1_0000, 0x1_0000, size as u32);
        self
    }

    /// Set max burst size (bits 15:8 of DW1)
    pub fn set_max_burst(&mut self, burst: u8) -> (r: &mut Self)
        ensures
            r.raw.dwords@ == dwords_with_field(old(self).raw.dwords@, 1, 0x100, 0x100, burst as int),
            r.raw.ctx_size == old(self).raw.ctx_size,
            *final(self) == *final(r),
    {
        self.update_field(1, 0x100, 0x100, burst as u32);
        self
    }

    /// Set CErr (error count, bits 2:1 of DW1) — usually 3 for non-isoch
    pub fn set_cerr(&mut self, cerr: u8) -> (r: &mut Self)
        ensures
            r.raw.dwords@ == dwords_with_field(old(self).raw.dwords@, 1, 0x2, 0x4, cerr as int),
            r.raw.ctx_size == old(self).raw.ctx_size,
            *final(self) == *final(r),
    {
        self.update_field(1, 0x2, 0x4, cerr as u32);
        self
    }

    /// Set interval (bits 23:16 of DW0) — encoded as 2^(interval-1) * 125us for HS/SS
    pub fn set_interval(&mut self, interval: u8) -> (r: &mut Self)
        ensures
            r.raw.dwords@ == dwords_with_field(old(self).raw.dwords@, 0, 0x1_0000, 0x100, interval as int),
            r.raw.ctx_size == old(self).raw.ctx_size,
            *final(self) == *final(r),
    {
        self.update_field(0, 0x1_0000, 0x100, interval as u32);
        self
    }

    /// Set Mult (bits 9:8 of DW0) — for isoch endpoints
    pub fn set_mult(&mut self, mult: u8) -> (r: &mut Self)
        ensures
            r.raw.dwords@ == dwords_with_field(old(self).raw.dwords@, 0, 0x100, 0x4, mult as int),
            r.raw.ctx_size == old(self).raw.ctx_size,
            *final(self) == *final(r),
    {
        self.update_field(0, 0x100, 0x4, mult as u32);
        self
    }

    /// Set TR Dequeue Pointer (DW2-DW3, 64-bit, bits 63:4 + DCS in bit 0)
    pub fn set_tr_dequeue_pointer(&mut self, phys_with_dcs: u64) -> (r: &mut Self)
        ensures
            r.raw.dwords@ == old(self).raw.dwords@.update(2, (phys_with_dcs % 0x1_0000_0000) as u32).update(
                3,
                (phys_with_dcs / 0x1_0000_0000) as u32,
            ),
            r.raw.ctx_size == old(self).raw.ctx_size,
            qword_of(r.raw.dwords@, 2) == phys_with_dcs,
            *final(self) == *final(r),
    {
        self.raw.set_qw(2, phys_with_dcs);
        self
    }

    /// Set Average TRB Length (bits 15:0 of DW4)
    pub fn set_average_trb_length(&mut self, len: u16) -> (r: &mut Self)
        ensures
            r.raw.dwords@ == dwords_with_field(old(self).raw.dwords@, 4, 0x1, 0x1_0000, len as int),
            r.raw.ctx_size == old(self).raw.ctx_size,
            *final(self) == *final(r),
    {
        self.update_field(4, 0x1, 0x1_0000, len as u32);
        self
    }

    /// Set Max ESIT Payload Lo (bits 31:16 of DW4)
    pub fn set_max_esit_payload_lo(&mut self, payload: u16) -> (r: &mut Self)
        ensures
            r.raw.dwords@ == dwords_with_field(old(self).raw.dwords@, 4, 0x1_0000, 0x1_0000, payload as int),
            r.raw.ctx_size == old(self).raw.ctx_size,
            *final(self) == *final(r),
    {
        self.update_field(4, 0x1_0000, 0x1_0000, payload as u32);
        self
    }

    /// Get endpoint state (bits 2:0 of DW0)
    pub fn ep_state(&self) -> (r: u32)
        ensures
            r == field(self.raw.dwords@[0] as int, 0x1, 0x8),
    {
        get_field32(self.raw.dw(0), 0x1, 0x8)
    }
}

// ---------------------------------------------------------------------------
// Input Context
// ---------------------------------------------------------------------------

/// Number of context entries in an Input Context: Input Control + Slot + 31 EPs.
pub const INPUT_CONTEXT_ENTRIES: usize = 33;

/// Number of context entries in a Device Context: Slot + 31 EPs.
pub const DEVICE_CONTEXT_ENTRIES: usize = 32;

/// An xHCI Input Context: Input Control Context + Device Context (Slot + 31 EPs).
///
/// The Input Context is used for Address Device, Configure Endpoint, and Evaluate
/// Context commands. It includes add/drop flags that tell the controller which
/// contexts to update. Its memory (`33 * ctx_size` bytes, 64-byte aligned,
/// identity-mapped) belongs to the caller.
pub struct InputContext {
    /// Physical address of the buffer
    phys: u64,
    /// Context size (32 or 64 bytes per context entry)
    ctx_size: usize,
}

impl InputContext {
    #[verifier::type_invariant]
    spec fn inv(self) -> bool {
        &&& valid_ctx_size(self.ctx_size)
        &&& self.phys + INPUT_CONTEXT_ENTRIES * self.ctx_size <= u64::MAX
    }

    /// Physical address of the Input Context.
    pub closed spec fn spec_phys(self) -> u64 {
        self.phys
    }

    /// Context size (32 or 64 bytes per context entry).
    pub closed spec fn spec_ctx_size(self) -> usize {
        self.ctx_size
    }

    /// Bytes an Input Context occupies: (1 + 1 + 31) * ctx_size.
    pub fn total_size(ctx_size: usize) -> (r: usize)
        requires
            valid_ctx_size(ctx_size),
        ensures
            r == INPUT_CONTEXT_ENTRIES * ctx_size,
    {
        INPUT_CONTEXT_ENTRIES * ctx_size
    }

    /// The Input Context in the zeroed buffer at `phys`.
    pub fn new(phys: u64, ctx_size: usize) -> (r: Self)
        requires
            valid_ctx_size(ctx_size),
            phys + INPUT_CONTEXT_ENTRIES * ctx_size <= u64::MAX,
        ensures
            r.spec_phys() == phys,
            r.spec_ctx_size() == ctx_size,
    {
        Self { phys, ctx_size }
    }

    /// Physical address of the Input Context (for command TRBs).
    pub fn phys_addr(&self) -> (r: u64)
        ensures
            r == self.spec_phys(),
    {
        self.phys
    }

    /// Address of the Input Control Context (entry 0).
    pub fn input_control_addr(&self) -> (r: u64)
        ensures
            r == self.spec_phys(),
    {
        self.phys
    }

    /// Address of the Drop Context flags (DW0 of the Input Control Context).
    pub fn drop_flags_addr(&self) -> (r: u64)
        ensures
            r == self.spec_phys(),
    {
        self.input_control_addr()
    }

    /// Address of the Add Context flags (DW1 of the Input Control Context).
    /// Bit 0 = add Slot Context, Bit 1 = add EP0 Context, etc.
    pub fn add_flags_addr(&self) -> (r: u64)
        ensures
            r == self.spec_phys() + 4,
    {
        proof {
            use_type_invariant(self);
        }
        self.input_control_addr() + 4
    }

    /// Address of context entry `n` (0 = Input Control, 1 = Slot, 2 = EP0, ...).
    pub fn entry_addr(&self, n: usize) -> (r: u64)
        requires
            n < INPUT_CONTEXT_ENTRIES,
        ensures
            r == self.spec_phys() + n * self.spec_ctx_size(),
    {
        proof {
            use_type_invariant(self);
            assert(n * self.ctx_size <= INPUT_CONTEXT_ENTRIES * self.ctx_size) by (nonlinear_arith)
                requires
                    n < INPUT_CONTEXT_ENTRIES,
            {
            }
        }
        self.phys + (n * self.ctx_size) as u64
    }

    /// Address where the Slot Context goes: entry 1 of the Input Context.
    pub fn slot_context_addr(&self) -> (r: u64)
        ensures
            r == self.spec_phys() + self.spec_ctx_size(),
    {
        self.entry_addr(1)
    }

    /// Address where the Endpoint Context of `dci` goes: entry (dci + 1).
    /// `dci` is the Device Context Index (1 = EP0, 2 = EP1 OUT, 3 = EP1 IN, ...).
    pub fn endpoint_context_addr(&self, dci: u8) -> (r: u64)
        requires
            dci < DEVICE_CONTEXT_ENTRIES,
        ensures
            r == self.spec_phys() + (dci + 1) * self.spec_ctx_size(),
    {
        self.entry_addr(dci as usize + 1)
    }
}

// ---------------------------------------------------------------------------
// Device Context Base Address Array (DCBAA)
// ---------------------------------------------------------------------------

/// Largest Device Context size: 32 entries of 64 bytes.
pub const MAX_DEVICE_CONTEXT_SIZE: u64 = 2048;

/// The DCBAA is an array of 64-bit physical pointers to Device Contexts.
/// Entry 0 is the Scratchpad Buffer Array pointer (or 0 if no scratchpad).
/// Entries 1..MaxSlots are device slot contexts.
pub struct Dcbaa {
    /// Physical address (for DCBAAP register)
    phys: u64,
    /// Max slots (determines array size)
    max_slots: u8,
    /// Physical addresses of the device contexts, per slot
    device_contexts: Vec<Option<u64>>,
}

impl Dcbaa {
    /// The array has an entry per slot plus entry 0, fits in the address space, and
    /// every registered Device Context fits in the address space.
    pub closed spec fn wf(self) -> bool {
        &&& self.device_contexts@.len() == self.max_slots + 1
        &&& self.phys + 8 * (self.max_slots + 1) <= u64::MAX
        &&& forall|i: int|
            0 <= i < self.device_contexts@.len() && #[trigger] self.device_contexts@[i] is Some
                ==> self.device_contexts@[i]->Some_0 + MAX_DEVICE_CONTEXT_SIZE <= u64::MAX
    }

    /// Physical address of the array.
    pub closed spec fn spec_phys(self) -> u64 {
        self.phys
    }

    /// Number of device slots.
    pub closed spec fn spec_max_slots(self) -> u8 {
        self.max_slots
    }

    /// Physical address of the Device Context registered for each slot (index 0 unused).
    pub closed spec fn spec_device_contexts(self) -> Seq<Option<u64>> {
        self.device_contexts@
    }

    /// Bytes the array occupies: one 64-bit entry per slot plus entry 0.
    pub fn array_size(max_slots: u8) -> (r: usize)
        ensures
            r == 8 * (max_slots + 1),
    {
        (max_slots as usize + 1) * 8
    }

    /// Bytes a Device Context occupies: Slot + 31 Endpoint Contexts.
    pub fn device_context_size(ctx_size: usize) -> (r: usize)
        requires
            valid_ctx_size(ctx_size),
        ensures
            r == DEVICE_CONTEXT_ENTRIES * ctx_size,
    {
        DEVICE_CONTEXT_ENTRIES * ctx_size
    }

    /// The DCBAA in the zeroed array at `phys`, with no device context registered.
    /// The caller writes the scratchpad buffer array pointer, if any, at `phys`.
    pub fn new(phys: u64, max_slots: u8) -> (r: Self)
        requires
            phys + 8 * (max_slots + 1) <= u64::MAX,
        ensures
            r.spec_phys() == phys,
            r.spec_max_slots() == max_slots,
            r.spec_device_contexts() == Seq::new((max_slots + 1) as nat, |i: int| None::<u64>),
            r.wf(),
    {
        let entry_count = max_slots as usize + 1;  // slot 0 = scratchpad
        let mut device_contexts: Vec<Option<u64>> = Vec::with_capacity(entry_count);
        let mut i: usize = 0;
        while i < entry_count
            invariant
                i <= entry_count,
                entry_count == max_slots + 1,
                device_contexts@ == Seq::new(i as nat, |j: int| None::<u64>),
            decreases entry_count - i,
        {
            device_contexts.push(None);
            i = i + 1;
            assert(device_contexts@ =~= Seq::new(i as nat, |j: int| None::<u64>));
        }
        Self { phys, max_slots, device_contexts }
    }

    /// Physical address of the DCBAA (for programming DCBAAP).
    pub fn phys_addr(&self) -> (r: u64)
        ensures
            r == self.spec_phys(),
    {
        self.phys
    }

    /// Register the Device Context at `dc_phys` for `slot_id`. Returns the address
    /// of the DCBAA entry, where the caller writes `dc_phys`.
    pub fn register_device_context(&mut self, slot_id: u8, dc_phys: u64) -> (r: u64)
        requires
            old(self).wf(),
            1 <= slot_id <= old(self).spec_max_slots(),
            dc_phys + MAX_DEVICE_CONTEXT_SIZE <= u64::MAX,
        ensures
            r == old(self).spec_phys() + 8 * slot_id,
            final(self).spec_phys() == old(self).spec_phys(),
            final(self).spec_max_slots() == old(self).spec_max_slots(),
            final(self).spec_device_contexts() == old(self).spec_device_contexts().update(
                slot_id as int,
                Some(dc_phys),
            ),
            final(self).wf(),
    {
        self.device_contexts.set(slot_id as usize, Some(dc_phys));
        self.phys + (slot_id as u64) * 8
    }

    /// Get the physical address of a device context for a slot.
    pub fn device_context_phys(&self, slot_id: u8) -> (r: Option<u64>)
        ensures
            r == (if slot_id < self.spec_device_contexts().len() {
                self.spec_device_contexts()[slot_id as int]
            } else {
                None
            }),
    {
        if (slot_id as usize) < self.device_contexts.len() {
            self.device_contexts[slot_id as usize]
        } else {
            None
        }
    }

    /// Address of the Slot Context of a slot's device context, if one is registered.
    pub fn slot_context_addr(&self, slot_id: u8) -> (r: Option<u64>)
        ensures
            r == (if slot_id < self.spec_device_contexts().len() {
                self.spec_device_contexts()[slot_id as int]
            } else {
                None
            }),
    {
        self.device_context_phys(slot_id)
    }

    /// Address of the Endpoint Context `dci` of a slot's device context, if one is
    /// registered. `dci` is the Device Context Index (1 = EP0, 2 = EP1 OUT, etc.).
    pub fn endpoint_context_addr(&self, slot_id: u8, dci: u8, ctx_size: usize) -> (r: Option<u64>)
        requires
            self.wf(),
            dci < DEVICE_CONTEXT_ENTRIES,
            valid_ctx_size(ctx_size),
        ensures
            r == (if slot_id < self.spec_device_contexts().len()
                && self.spec_device_contexts()[slot_id as int] is Some {
                Some((self.spec_device_contexts()[slot_id as int]->Some_0 + dci * ctx_size) as u64)
            } else {
                None
            }),
    {
        match self.device_context_phys(slot_id) {
            Some(dc) => {
                proof {
                    assert(self.device_contexts@[slot_id as int] is Some);
                    assert(dci * ctx_size <= 2048) by (nonlinear_arith)
                        requires
                            dci < 32,
                            ctx_size <= 64,
                    {
                    }
                }
                Some(dc + (dci as usize * ctx_size) as u64)
            },
            None => None,
        }
    }
}


/// The device context registered last for `slot` among `writes` (each a slot ID
/// and a device context address, in call order), if any.
pub open spec fn last_registered(writes: Seq<(u8, u64)>, slot: int) -> Option<u64>
    decreases writes.len(),
{
    if writes.len() == 0 {
        None
    } else if writes.last().0 == slot {
        Some(writes.last().1)
    } else {
        last_registered(writes.drop_last(), slot)
    }
}

/// What `device_context_phys` reads for `slot` from the DCBAA entries `entries`.
pub open spec fn entry_lookup(entries: Seq<Option<u64>>, slot: int) -> Option<u64> {
    if 0 <= slot < entries.len() {
        entries[slot]
    } else {
        None
    }
}

/// Last write wins: starting from the empty entries of a new DCBAA (`tables[0]`)
/// and registering `writes[i]` to go from `tables[i]` to `tables[i + 1]`, as
/// `register_device_context` does, the entry of every slot is the device context
/// registered last for it, and none for a slot never registered (slot 0 and
/// slots past the array among them).
pub proof fn lemma_last_registration_wins(
    tables: Seq<Seq<Option<u64>>>,
    writes: Seq<(u8, u64)>,
    slot: int,
)
    requires
        tables.len() == writes.len() + 1,
        forall|j: int| 0 <= j < tables[0].len() ==> #[trigger] tables[0][j] is None,
        forall|i: int|
            0 <= i < writes.len() ==> 1 <= #[trigger] writes[i].0 < tables[i].len() && tables[i + 1]
                == tables[i].update(writes[i].0 as int, Some(writes[i].1)),
    ensures
        entry_lookup(tables.last(), slot) == last_registered(writes, slot),
        tables.last().len() == tables[0].len(),
    decreases writes.len(),
{
    if writes.len() > 0 {
        let n = writes.len() - 1;
        let t2 = tables.drop_last();
        let w2 = writes.drop_last();
        assert forall|i: int| 0 <= i < w2.len() implies 1 <= #[trigger] w2[i].0 < t2[i].len() && t2[i + 1]
            == t2[i].update(w2[i].0 as int, Some(w2[i].1)) by {
            assert(writes[i] == w2[i]);
        }
        lemma_last_registration_wins(t2, w2, slot);
        assert(writes[n as int] == writes.last());
        assert(tables[n + 1] == tables.last());
    }
}

} // verus!
