use xhci_nostd::ring::{
    CommandRing, EventRing, TransferRing, Trb, RING_SEGMENT_SIZE, RING_SEGMENT_TRBS, TRB_BSR,
    TRB_CYCLE_BIT, TRB_DIR_IN, TRB_IDT, TRB_IOC, TRB_ISP, TRB_TOGGLE_CYCLE, TRB_TRT_IN,
    TRB_TRT_NO_DATA, TRB_TRT_OUT, TRB_TYPE_ADDRESS_DEVICE, TRB_TYPE_CONFIGURE_ENDPOINT,
    TRB_TYPE_DATA_STAGE, TRB_TYPE_ENABLE_SLOT, TRB_TYPE_EVALUATE_CONTEXT, TRB_TYPE_LINK,
    TRB_TYPE_NORMAL, TRB_TYPE_NO_OP_CMD, TRB_TYPE_RESET_ENDPOINT, TRB_TYPE_SETUP_STAGE,
    TRB_TYPE_SHIFT, TRB_TYPE_STATUS_STAGE,
};

#[test]
fn trb_parameter_round_trip() {
    let mut t = Trb::zeroed();
    t.status = 7;
    t.control = 9;
    t.set_parameter(0x1234_5678_9ABC_DEF0);
    assert_eq!(t.parameter_lo, 0x9ABC_DEF0);
    assert_eq!(t.parameter_hi, 0x1234_5678);
    assert_eq!(t.parameter(), 0x1234_5678_9ABC_DEF0);
    assert_eq!(t.status, 7);
    assert_eq!(t.control, 9);
}

#[test]
fn trb_event_field_getters() {
    let t = Trb {
        parameter_lo: 0,
        parameter_hi: 0,
        status: (13 << 24) | 0x00_0123,
        control: (5 << 24) | (3 << 16) | (32 << 10) | 1,
    };
    assert_eq!(t.completion_code(), 13);
    assert_eq!(t.transfer_length(), 0x123);
    assert_eq!(t.slot_id(), 5);
    assert_eq!(t.endpoint_id(), 3);
    assert_eq!(t.trb_type(), 32);
    assert!(t.cycle_bit());
}

#[test]
fn command_trbs_encode() {
    let n = Trb::no_op_cmd(true);
    assert_eq!(n.control, (TRB_TYPE_NO_OP_CMD << TRB_TYPE_SHIFT) | TRB_CYCLE_BIT);
    let e = Trb::enable_slot(false);
    assert_eq!(e.control, TRB_TYPE_ENABLE_SLOT << TRB_TYPE_SHIFT);
    assert_eq!(e.parameter(), 0);

    let a = Trb::address_device(0xDEAD_BEEF_0000_0040, 7, true, true);
    assert_eq!(a.parameter(), 0xDEAD_BEEF_0000_0040);
    assert_eq!(
        a.control,
        (TRB_TYPE_ADDRESS_DEVICE << TRB_TYPE_SHIFT) | (7 << 24) | TRB_BSR | TRB_CYCLE_BIT
    );
    assert_eq!(a.trb_type(), TRB_TYPE_ADDRESS_DEVICE);
    assert_eq!(a.slot_id(), 7);

    let c = Trb::configure_endpoint(0x4000, 3, false);
    assert_eq!(c.control, (TRB_TYPE_CONFIGURE_ENDPOINT << TRB_TYPE_SHIFT) | (3 << 24));
    assert_eq!(c.parameter(), 0x4000);
    let v = Trb::evaluate_context(0x8000, 2, true);
    assert_eq!(v.control, (TRB_TYPE_EVALUATE_CONTEXT << TRB_TYPE_SHIFT) | (2 << 24) | 1);
    let r = Trb::reset_endpoint(4, 3, true);
    assert_eq!(
        r.control,
        (TRB_TYPE_RESET_ENDPOINT << TRB_TYPE_SHIFT) | (4 << 24) | (3 << 16) | 1
    );
    assert_eq!(r.endpoint_id(), 3);
}

#[test]
fn link_trb_encodes() {
    let l = Trb::link(0x10_0000, true, false);
    assert_eq!(l.parameter(), 0x10_0000);
    assert_eq!(l.control, (TRB_TYPE_LINK << TRB_TYPE_SHIFT) | TRB_TOGGLE_CYCLE);
    let l2 = Trb::link(0x10_0000, false, true);
    assert_eq!(l2.control, (TRB_TYPE_LINK << TRB_TYPE_SHIFT) | TRB_CYCLE_BIT);
}

#[test]
fn transfer_trbs_encode() {
    let s = Trb::setup_stage(0x80, 6, 0x0100, 0, 18, TRB_TRT_IN, true);
    assert_eq!(s.parameter_lo, 0x80 | (6 << 8) | (0x0100 << 16));
    assert_eq!(s.parameter_hi, 18 << 16);
    assert_eq!(s.status, 8);
    assert_eq!(
        s.control,
        (TRB_TYPE_SETUP_STAGE << TRB_TYPE_SHIFT) | TRB_IDT | TRB_TRT_IN | TRB_CYCLE_BIT
    );
    let d = Trb::data_stage(0x5000, 0x2_0005, true, false);
    assert_eq!(d.status, 0x2_0005 & 0x1FFFF);
    assert_eq!(d.control, (TRB_TYPE_DATA_STAGE << TRB_TYPE_SHIFT) | TRB_DIR_IN);
    assert_eq!(d.parameter(), 0x5000);
    let st = Trb::status_stage(false, true);
    assert_eq!(st.control, (TRB_TYPE_STATUS_STAGE << TRB_TYPE_SHIFT) | TRB_IOC | TRB_CYCLE_BIT);
    let n = Trb::normal(0x6000, 8, true, false);
    assert_eq!(n.status, 8);
    assert_eq!(n.control, (TRB_TYPE_NORMAL << TRB_TYPE_SHIFT) | TRB_IOC | TRB_ISP);
    let n2 = Trb::normal(0x6000, 8, false, true);
    assert_eq!(n2.control, (TRB_TYPE_NORMAL << TRB_TYPE_SHIFT) | TRB_ISP | TRB_CYCLE_BIT);
}

#[test]
fn with_cycle_bit_sets_and_clears() {
    let t = Trb { parameter_lo: 1, parameter_hi: 2, status: 3, control: 0xFC01 };
    assert_eq!(t.with_cycle_bit(false).control, 0xFC00);
    assert_eq!(t.with_cycle_bit(true).control, 0xFC01);
    let u = Trb { parameter_lo: 1, parameter_hi: 2, status: 3, control: 0xFC00 };
    assert_eq!(u.with_cycle_bit(true).control, 0xFC01);
    assert_eq!(u.with_cycle_bit(true).status, 3);
}

#[test]
fn segment_constants() {
    assert_eq!(RING_SEGMENT_TRBS, 256);
    assert_eq!(RING_SEGMENT_SIZE, 4096);
    assert_eq!(Trb::SIZE, 16);
}

#[test]
fn command_ring_enqueue_sets_cycle_and_address() {
    let mut ring = CommandRing::new(0x10_0000);
    assert_eq!(ring.phys_addr_with_cycle(), 0x10_0001);
    assert_eq!(ring.link_index(), 255);
    let link = ring.link_trb();
    assert_eq!(link.parameter(), 0x10_0000);
    assert_eq!(link.control, (TRB_TYPE_LINK << TRB_TYPE_SHIFT) | TRB_TOGGLE_CYCLE | 1);

    let w = ring.enqueue(Trb::enable_slot(false));
    assert_eq!(w.index, 0);
    assert_eq!(w.phys, 0x10_0000);
    assert!(w.trb.cycle_bit());
    assert_eq!(w.trb.trb_type(), 9);
    assert!(w.link.is_none());
    assert_eq!(w.link_phys, 0x10_0000 + 255 * 16);
    let w2 = ring.enqueue(Trb::no_op_cmd(true));
    assert_eq!(w2.index, 1);
    assert_eq!(w2.phys, 0x10_0010);
}

#[test]
fn command_ring_wraps_at_link_trb() {
    let mut ring = CommandRing::new(0x20_0000);
    let mut last = None;
    for i in 0..255usize {
        let w = ring.enqueue(Trb::no_op_cmd(false));
        assert_eq!(w.index, i);
        assert!(w.trb.cycle_bit());
        if i < 254 {
            assert!(w.link.is_none());
        } else {
            last = w.link;
        }
    }
    // The Link TRB written at the wrap carries the cycle state of the lap just ended.
    let link = last.expect("wrap writes the Link TRB");
    assert_eq!(link.parameter(), 0x20_0000);
    assert_eq!(link.control, (TRB_TYPE_LINK << TRB_TYPE_SHIFT) | TRB_TOGGLE_CYCLE | 1);
    assert_eq!(ring.phys_addr_with_cycle(), 0x20_0000);
    // A full lap later the producer is back at slot 0 with its cycle state flipped.
    let w = ring.enqueue(Trb::no_op_cmd(true));
    assert_eq!(w.index, 0);
    assert!(!w.trb.cycle_bit());
}

fn event_with_cycle(ty: u32, cycle: bool) -> Trb {
    Trb { parameter_lo: 0, parameter_hi: 0, status: 1 << 24, control: (ty << 10) | (cycle as u32) }
}

#[test]
fn event_ring_dequeue_follows_cycle() {
    let mut ring = EventRing::new(0x30_0000, 0x31_0000);
    assert_eq!(ring.erst_phys(), 0x31_0000);
    assert_eq!(ring.erst_size(), 1);
    let entry = ring.segment_table_entry();
    assert_eq!(entry.ring_segment_base, 0x30_0000);
    assert_eq!(entry.ring_segment_size, 256);
    assert_eq!(ring.dequeue_phys(), 0x30_0000);

    // An empty slot (cycle bit 0) is not an event.
    assert!(!ring.has_pending(Trb::zeroed()));
    assert!(ring.dequeue(Trb::zeroed()).is_none());
    assert_eq!(ring.dequeue_index(), 0);

    let evt = event_with_cycle(33, true);
    assert!(ring.has_pending(evt));
    let got = ring.dequeue(evt).expect("event pending");
    assert_eq!(got.trb_type(), 33);
    assert_eq!(ring.dequeue_index(), 1);
    assert_eq!(ring.dequeue_phys(), 0x30_0010);
}

#[test]
fn event_ring_wraps_and_flips_cycle() {
    let mut ring = EventRing::new(0x40_0000, 0x41_0000);
    for _ in 0..256 {
        assert!(ring.dequeue(event_with_cycle(32, true)).is_some());
    }
    assert_eq!(ring.dequeue_index(), 0);
    // After a full lap, events carry cycle bit 0.
    assert!(ring.dequeue(event_with_cycle(32, true)).is_none());
    assert!(ring.dequeue(event_with_cycle(32, false)).is_some());
}

#[test]
fn transfer_ring_control_transfer_in_with_data() {
    let mut ring = TransferRing::new(0x50_0000);
    assert_eq!(ring.phys_addr_with_dcs(), 0x50_0001);
    let (status_phys, writes) = ring.enqueue_control_transfer(0x80, 6, 0x0100, 0, 0x7000, 18);
    assert_eq!(writes.len(), 3);
    assert_eq!(writes[0].trb.trb_type(), 2);
    assert_eq!(writes[0].trb.control & (3 << 16), TRB_TRT_IN);
    assert!(writes[0].trb.cycle_bit());
    assert_eq!(writes[1].trb.trb_type(), 3);
    assert_eq!(writes[1].trb.control & TRB_DIR_IN, TRB_DIR_IN);
    assert_eq!(writes[1].trb.status, 18);
    assert_eq!(writes[1].trb.parameter(), 0x7000);
    assert_eq!(writes[2].trb.trb_type(), 4);
    // Status stage goes the other way: OUT for an IN data stage.
    assert_eq!(writes[2].trb.control & TRB_DIR_IN, 0);
    assert_eq!(writes[2].index, 2);
    assert_eq!(status_phys, 0x50_0020);
}

#[test]
fn transfer_ring_control_transfer_without_data() {
    let mut ring = TransferRing::new(0x60_0000);
    let (status_phys, writes) = ring.enqueue_control_transfer(0x00, 9, 1, 0, 0, 0);
    assert_eq!(writes.len(), 2);
    assert_eq!(writes[0].trb.control & (3 << 16), TRB_TRT_NO_DATA);
    assert_eq!(writes[1].trb.trb_type(), 4);
    // No data: the status stage is IN.
    assert_eq!(writes[1].trb.control & TRB_DIR_IN, TRB_DIR_IN);
    assert_eq!(status_phys, 0x60_0010);
}

#[test]
fn transfer_ring_control_transfer_out_with_data() {
    let mut ring = TransferRing::new(0x70_0000);
    let (_, writes) = ring.enqueue_control_transfer(0x21, 9, 0x0200, 0, 0x8000, 1);
    assert_eq!(writes.len(), 3);
    assert_eq!(writes[0].trb.control & (3 << 16), TRB_TRT_OUT);
    assert_eq!(writes[1].trb.control & TRB_DIR_IN, 0);
    assert_eq!(writes[2].trb.control & TRB_DIR_IN, TRB_DIR_IN);
}

#[test]
fn transfer_ring_interrupt_in() {
    let mut ring = TransferRing::new(0x80_0000);
    let w = ring.enqueue_interrupt_in(0x9000, 8);
    assert_eq!(w.index, 0);
    assert_eq!(w.trb.trb_type(), 1);
    assert_eq!(w.trb.status, 8);
    assert_eq!(w.trb.parameter(), 0x9000);
    assert!(w.trb.cycle_bit());
    assert_eq!(w.trb.control & TRB_IOC, TRB_IOC);
    let link = ring.link_trb();
    assert_eq!(link.parameter(), 0x80_0000);
}
