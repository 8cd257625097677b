use xhci_nostd::registers::{
    hccparams1_ac64, hccparams1_csz, hccparams1_xecp, hcsparams1_max_intrs, hcsparams1_max_ports,
    hcsparams1_max_slots, hcsparams2_max_scratchpad, hcsparams2_max_scratchpad_hi,
    hcsparams2_max_scratchpad_lo, CapabilityRegs, DoorbellRegs, OperationalRegs, RuntimeRegs,
    IR_ERDP, OP_USBSTS, PORTSC_OFFSET, PORTSC_CHANGE_BITS, PORTSC_CSC, PORTSC_PEC, PORTSC_WRC,
    PORTSC_OCC, PORTSC_PRC, PORTSC_PLC, PORTSC_CEC, USBSTS_CNR, USBSTS_HCH, PORTLI_OFFSET,
};

#[test]
fn hcsparams1_fields() {
    // MaxSlots = 0x20, MaxIntrs = 0x401, MaxPorts = 0x0F
    let val: u32 = (0x0F << 24) | (0x401 << 8) | 0x20;
    assert_eq!(hcsparams1_max_slots(val), 0x20);
    assert_eq!(hcsparams1_max_intrs(val), 0x401);
    assert_eq!(hcsparams1_max_ports(val), 0x0F);
    assert_eq!(hcsparams1_max_ports(0xFFFF_FFFF), 0xFF);
    assert_eq!(hcsparams1_max_intrs(0xFFFF_FFFF), 0x7FF);
}

#[test]
fn hcsparams2_scratchpad_fields() {
    // hi = 0x03 (bits 25:21), lo = 0x11 (bits 31:27)
    let val: u32 = (0x11 << 27) | (0x03 << 21) | 0x1F;
    assert_eq!(hcsparams2_max_scratchpad_hi(val), 0x03);
    assert_eq!(hcsparams2_max_scratchpad_lo(val), 0x11);
    assert_eq!(hcsparams2_max_scratchpad(val), (0x03 << 5) | 0x11);
    assert_eq!(hcsparams2_max_scratchpad(0), 0);
    assert_eq!(hcsparams2_max_scratchpad(0xFFFF_FFFF), 0x3FF);
}

#[test]
fn hccparams1_fields() {
    assert!(hccparams1_ac64(0x1));
    assert!(!hccparams1_ac64(0x4));
    assert!(hccparams1_csz(0x4));
    assert!(!hccparams1_csz(0x3));
    assert_eq!(hccparams1_xecp(0xABCD_0005), 0xABCD);
}

fn sample_caps() -> CapabilityRegs {
    CapabilityRegs::new(
        0x1000_0000,
        [
            0x0100_0020,                      // HCIVERSION 1.0, CAPLENGTH 0x20
            (8 << 24) | (1 << 8) | 16,        // 8 ports, 1 interrupter, 16 slots
            (0x1 << 27) | (0x1 << 21),        // scratchpad hi 1, lo 1 → 33
            0x0,
            0x4 | 0x1,                        // CSZ, AC64
            0x3003,                           // DBOFF with reserved bits set
            0x201F,                           // RTSOFF with reserved bits set
            0x0,
        ],
    )
}

#[test]
fn capability_registers_decode() {
    let cap = sample_caps();
    assert_eq!(cap.caplength(), 0x20);
    assert_eq!(cap.hciversion(), 0x0100);
    assert_eq!(cap.max_slots(), 16);
    assert_eq!(cap.max_ports(), 8);
    assert_eq!(cap.max_intrs(), 1);
    assert_eq!(cap.context_size(), 64);
    assert_eq!(cap.max_scratchpad_buffers(), 33);
    assert_eq!(cap.dboff(), 0x3000);
    assert_eq!(cap.rtsoff(), 0x2000);
    assert_eq!(cap.operational_base(), 0x1000_0020);
    assert_eq!(cap.runtime_base(), 0x1000_2000);
    assert_eq!(cap.doorbell_base(), 0x1000_3000);
    assert_eq!(cap.hcsparams1(), (8 << 24) | (1 << 8) | 16);
    assert_eq!(cap.hccparams1(), 0x5);
}

#[test]
fn context_size_without_csz_is_32() {
    let cap = CapabilityRegs::new(0, [0, 0, 0, 0, 0x1, 0, 0, 0]);
    assert_eq!(cap.context_size(), 32);
}

#[test]
fn operational_register_addresses() {
    let op = OperationalRegs::new(0x2000);
    assert_eq!(op.register_addr(OP_USBSTS), 0x2004);
    assert_eq!(op.port_register_addr(1, PORTSC_OFFSET), 0x2400);
    assert_eq!(op.port_register_addr(3, PORTLI_OFFSET), 0x2400 + 0x20 + 0x8);
}

#[test]
fn usbsts_and_portsc_decoding() {
    assert!(OperationalRegs::is_halted(USBSTS_HCH));
    assert!(!OperationalRegs::is_halted(0));
    assert!(OperationalRegs::is_ready(0));
    assert!(!OperationalRegs::is_ready(USBSTS_CNR));
    // speed 3 (high speed), link state 5 (RxDetect)
    let portsc: u32 = (3 << 10) | (5 << 5) | 0x1;
    assert_eq!(OperationalRegs::port_speed(portsc), 3);
    assert_eq!(OperationalRegs::port_link_state(portsc), 5);
}

#[test]
fn change_bits_constant() {
    assert_eq!(
        PORTSC_CHANGE_BITS,
        PORTSC_CSC | PORTSC_PEC | PORTSC_WRC | PORTSC_OCC | PORTSC_PRC | PORTSC_PLC | PORTSC_CEC
    );
}

#[test]
fn runtime_interrupter_addresses() {
    let rt = RuntimeRegs::new(0x8000);
    assert_eq!(rt.ir_base(0), 0x8020);
    assert_eq!(rt.ir_base(2), 0x8060);
    assert_eq!(rt.interrupter_register_addr(0, IR_ERDP), 0x8038);
}

#[test]
fn doorbell_writes() {
    let db = DoorbellRegs::new(0x3000);
    let w = db.ring(5, 3, 0x1234);
    assert_eq!(w.addr, 0x3000 + 20);
    assert_eq!(w.value, (0x1234 << 16) | 3);
    let c = db.ring_command();
    assert_eq!(c.addr, 0x3000);
    assert_eq!(c.value, 0);
    let e = db.ring_endpoint(2, 1);
    assert_eq!(e.addr, 0x3008);
    assert_eq!(e.value, 1);
}
