use xhci_nostd::context::{
    Dcbaa, EndpointContext, InputContext, RawContext, SlotContext, EP_TYPE_CONTROL,
    EP_TYPE_INTERRUPT_IN, SLOT_STATE_ADDRESSED,
};

#[test]
fn raw_context_dwords_and_qwords() {
    let mut raw = RawContext::new(32);
    assert_eq!(raw.ctx_size, 32);
    assert_eq!(raw.dword_count(), 8);
    assert_eq!(raw.dw(5), 0);
    raw.set_dw(5, 0xAABB_CCDD);
    assert_eq!(raw.dw(5), 0xAABB_CCDD);
    raw.set_qw(2, 0x1122_3344_5566_7788);
    assert_eq!(raw.dw(2), 0x5566_7788);
    assert_eq!(raw.dw(3), 0x1122_3344);
    assert_eq!(raw.qw(2), 0x1122_3344_5566_7788);
    assert_eq!(raw.dw(5), 0xAABB_CCDD);
    assert_eq!(RawContext::new(64).dword_count(), 16);
}

#[test]
fn slot_context_builder() {
    let mut slot = SlotContext::new(32);
    slot.set_route_string(0x12345)
        .set_speed(3)
        .set_context_entries(5)
        .set_root_hub_port(7)
        .set_max_exit_latency(0x1234)
        .set_num_ports(4)
        .set_hub(true)
        .set_mtt(true);
    let dw0 = slot.raw.dw(0);
    assert_eq!(dw0 & 0xF_FFFF, 0x12345);
    assert_eq!((dw0 >> 20) & 0xF, 3);
    assert_eq!(dw0 >> 27, 5);
    assert_ne!(dw0 & (1 << 26), 0);
    assert_ne!(dw0 & (1 << 25), 0);
    let dw1 = slot.raw.dw(1);
    assert_eq!(dw1 & 0xFFFF, 0x1234);
    assert_eq!((dw1 >> 16) & 0xFF, 7);
    assert_eq!(dw1 >> 24, 4);
    slot.set_hub(false).set_speed(0x1F);
    let dw0 = slot.raw.dw(0);
    assert_eq!(dw0 & (1 << 26), 0);
    // Only the low four bits of the speed are kept; other fields stay.
    assert_eq!((dw0 >> 20) & 0xF, 0xF);
    assert_eq!(dw0 & 0xF_FFFF, 0x12345);
    assert_ne!(dw0 & (1 << 25), 0);
}

#[test]
fn slot_context_readback_fields() {
    let mut slot = SlotContext::new(64);
    slot.raw.set_dw(3, (SLOT_STATE_ADDRESSED << 27) | 0x2A);
    assert_eq!(slot.device_address(), 0x2A);
    assert_eq!(slot.slot_state(), SLOT_STATE_ADDRESSED);
}

#[test]
fn endpoint_context_builder() {
    let mut ep = EndpointContext::new(32);
    ep.set_ep_type(EP_TYPE_INTERRUPT_IN)
        .set_max_packet_size(8)
        .set_max_burst(2)
        .set_cerr(3)
        .set_interval(10)
        .set_mult(1)
        .set_tr_dequeue_pointer(0x1_0000_2001)
        .set_average_trb_length(8)
        .set_max_esit_payload_lo(0x40);
    let dw0 = ep.raw.dw(0);
    let dw1 = ep.raw.dw(1);
    assert_eq!((dw1 >> 3) & 0x7, EP_TYPE_INTERRUPT_IN);
    assert_eq!(dw1 >> 16, 8);
    assert_eq!((dw1 >> 8) & 0xFF, 2);
    assert_eq!((dw1 >> 1) & 0x3, 3);
    assert_eq!((dw0 >> 16) & 0xFF, 10);
    assert_eq!((dw0 >> 8) & 0x3, 1);
    assert_eq!(ep.raw.qw(2), 0x1_0000_2001);
    assert_eq!(ep.raw.dw(4), (0x40 << 16) | 8);
    ep.raw.set_dw(0, dw0 | 0x3);
    assert_eq!(ep.ep_state(), 3);
    ep.set_ep_type(EP_TYPE_CONTROL);
    assert_eq!((ep.raw.dw(1) >> 3) & 0x7, EP_TYPE_CONTROL);
    assert_eq!(ep.raw.dw(1) >> 16, 8);
}

#[test]
fn input_context_addresses() {
    assert_eq!(InputContext::total_size(32), 33 * 32);
    let ic = InputContext::new(0x9000, 64);
    assert_eq!(ic.phys_addr(), 0x9000);
    assert_eq!(ic.drop_flags_addr(), 0x9000);
    assert_eq!(ic.add_flags_addr(), 0x9004);
    assert_eq!(ic.slot_context_addr(), 0x9040);
    assert_eq!(ic.endpoint_context_addr(1), 0x9080);
    assert_eq!(ic.entry_addr(32), 0x9000 + 32 * 64);
}

#[test]
fn dcbaa_tracks_device_contexts() {
    assert_eq!(Dcbaa::array_size(8), 72);
    assert_eq!(Dcbaa::device_context_size(64), 2048);
    let mut d = Dcbaa::new(0xA000, 8);
    assert_eq!(d.phys_addr(), 0xA000);
    assert_eq!(d.device_context_phys(3), None);
    assert_eq!(d.device_context_phys(200), None);
    let entry = d.register_device_context(3, 0xB000);
    assert_eq!(entry, 0xA000 + 3 * 8);
    assert_eq!(d.device_context_phys(3), Some(0xB000));
    assert_eq!(d.slot_context_addr(3), Some(0xB000));
    assert_eq!(d.endpoint_context_addr(3, 1, 32), Some(0xB020));
    assert_eq!(d.endpoint_context_addr(4, 1, 32), None);
}
