//! USB standard requests and descriptor fields the driver needs to bring a
//! device up: request types, request codes, descriptor types and sizes.
use vstd::prelude::*;
use crate::context::EP_TYPE_CONTROL;

verus! {

/// bmRequestType direction: host to device.
pub const USB_DIR_OUT: u8 = 0x00;
/// bmRequestType direction: device to host.
pub const USB_DIR_IN: u8 = 0x80;
/// bmRequestType type: standard request.
pub const USB_TYPE_STANDARD: u8 = 0x00;
/// bmRequestType type: class request.
pub const USB_TYPE_CLASS: u8 = 0x20;
/// bmRequestType recipient: device.
pub const USB_RECIP_DEVICE: u8 = 0x00;
/// bmRequestType recipient: interface.
pub const USB_RECIP_INTERFACE: u8 = 0x01;

/// Standard request: GET_DESCRIPTOR.
pub const USB_REQ_GET_DESCRIPTOR: u8 = 0x06;
/// Standard request: SET_CONFIGURATION.
pub const USB_REQ_SET_CONFIGURATION: u8 = 0x09;

/// Descriptor type: device.
pub const USB_DESC_DEVICE: u8 = 0x01;
/// Descriptor type: configuration.
pub const USB_DESC_CONFIGURATION: u8 = 0x02;

/// Bytes of a device descriptor.
pub const DEVICE_DESCRIPTOR_SIZE: u16 = 18;
/// Bytes of a configuration descriptor on its own (its header: wTotalLength
/// says how long the whole set with interfaces and endpoints is).
pub const CONFIG_HEADER_SIZE: u16 = 9;

/// wTotalLength (bytes 2 and 3, little-endian) of a configuration descriptor
/// header, if the header is long enough to hold it.
pub fn config_total_length(header: &[u8]) -> (r: Option<u16>)
    ensures
        header@.len() >= 4 ==> r == Some((header@[2] + 256 * header@[3]) as u16),
        header@.len() < 4 ==> r is None,
{
    if header.len() < 4 {
        None
    } else {
        Some(header[2] as u16 + 256 * header[3] as u16)
    }
}

/// Default maximum packet size of the default control endpoint for a port
/// speed ID (1 Full, 2 Low, 3 High, 4 and above SuperSpeed), used until the
/// device descriptor is read: 8 bytes at Low Speed and for an unknown speed,
/// 64 at Full and High Speed, 512 at SuperSpeed.
pub fn default_max_packet_size0(port_speed: u32) -> (r: u16)
    ensures
        r == (if port_speed == 1 || port_speed == 3 {
            64u16
        } else if port_speed >= 4 {
            512u16
        } else {
            8u16
        }),
{
    if port_speed == 1 || port_speed == 3 {
        64
    } else if port_speed >= 4 {
        512
    } else {
        8
    }
}

/// An endpoint to configure, as its endpoint descriptor describes it, with the
/// dequeue pointer (and DCS) of the transfer ring set up for it.
#[derive(Debug, Clone, Copy)]
pub struct EndpointSetup {
    /// Device Context Index
    pub dci: u8,
    /// xHCI endpoint type (`EP_TYPE_*`)
    pub ep_type: u32,
    /// wMaxPacketSize
    pub max_packet_size: u16,
    /// bInterval
    pub interval: u8,
    /// Whether it is an interrupt endpoint
    pub is_interrupt: bool,
    /// TR Dequeue Pointer with DCS
    pub tr_dequeue: u64,
}

/// A device's configuration as its configuration descriptor set describes it,
/// with the transfer ring set up for each endpoint once rings are set up.
pub struct DeviceConfiguration {
    /// bConfigurationValue of the configuration
    pub config_value: u8,
    /// The configuration's endpoints (all interfaces)
    pub endpoints: Vec<EndpointSetup>,
    /// The HID boot keyboard interface and the DCI of its interrupt IN endpoint,
    /// if the configuration has one
    pub keyboard: Option<(u8, u8)>,
}


/// Descriptor type: interface.
pub const USB_DESC_INTERFACE: u8 = 0x04;
/// Descriptor type: endpoint.
pub const USB_DESC_ENDPOINT: u8 = 0x05;
/// Interface class: HID.
pub const USB_CLASS_HID: u8 = 0x03;
/// HID interface subclass: boot interface.
pub const HID_SUBCLASS_BOOT: u8 = 0x01;
/// HID interface protocol: keyboard.
pub const HID_PROTOCOL_KEYBOARD: u8 = 0x01;

/// A standard device descriptor (USB 2.0 section 9.6.1).
#[derive(Debug, Clone, Copy, PartialEq, Eq, Structural)]
pub struct DeviceDescriptor {
    pub b_length: u8,
    pub b_descriptor_type: u8,
    pub bcd_usb: u16,
    pub b_device_class: u8,
    pub b_device_sub_class: u8,
    pub b_device_protocol: u8,
    pub b_max_packet_size0: u8,
    pub id_vendor: u16,
    pub id_product: u16,
    pub bcd_device: u16,
    pub i_manufacturer: u8,
    pub i_product: u8,
    pub i_serial_number: u8,
    pub b_num_configurations: u8,
}

/// The little-endian 16-bit value at `pos` of `d`.
pub open spec fn le16(d: Seq<u8>, pos: int) -> u16 {
    (d[pos] + 256 * d[pos + 1]) as u16
}

/// The device descriptor `d` holds: at least 18 bytes, bLength at least 18 and
/// bDescriptorType DEVICE; `None` otherwise.
pub open spec fn device_descriptor_of(d: Seq<u8>) -> Option<DeviceDescriptor> {
    if d.len() < 18 || d[0] < 18 || d[1] != USB_DESC_DEVICE {
        None
    } else {
        Some(
            DeviceDescriptor {
                b_length: d[0],
                b_descriptor_type: d[1],
                bcd_usb: le16(d, 2),
                b_device_class: d[4],
                b_device_sub_class: d[5],
                b_device_protocol: d[6],
                b_max_packet_size0: d[7],
                id_vendor: le16(d, 8),
                id_product: le16(d, 10),
                bcd_device: le16(d, 12),
                i_manufacturer: d[14],
                i_product: d[15],
                i_serial_number: d[16],
                b_num_configurations: d[17],
            },
        )
    }
}

/// The little-endian 16-bit value at `pos` of `data`.
fn read_le16(data: &[u8], pos: usize) -> (r: u16)
    requires
        pos + 1 < data@.len(),
    ensures
        r == le16(data@, pos as int),
{
    data[pos] as u16 + 256 * data[pos + 1] as u16
}

/// Parse a device descriptor.
pub fn parse_device_descriptor(data: &[u8]) -> (r: Option<DeviceDescriptor>)
    ensures
        r == device_descriptor_of(data@),
{
    if data.len() < 18 || data[0] < 18 || data[1] != USB_DESC_DEVICE {
        return None;
    }
    Some(
        DeviceDescriptor {
            b_length: data[0],
            b_descriptor_type: data[1],
            bcd_usb: read_le16(data, 2),
            b_device_class: data[4],
            b_device_sub_class: data[5],
            b_device_protocol: data[6],
            b_max_packet_size0: data[7],
            id_vendor: read_le16(data, 8),
            id_product: read_le16(data, 10),
            bcd_device: read_le16(data, 12),
            i_manufacturer: data[14],
            i_product: data[15],
            i_serial_number: data[16],
            b_num_configurations: data[17],
        },
    )
}

/// xHCI endpoint type of a USB transfer type (bmAttributes bits 1:0: 0 control,
/// 1 isochronous, 2 bulk, 3 interrupt) and direction.
pub open spec fn ep_type_of(transfer_type: int, dir_in: bool) -> u32 {
    if transfer_type == 0 {
        EP_TYPE_CONTROL
    } else if dir_in {
        (transfer_type + 4) as u32
    } else {
        transfer_type as u32
    }
}

/// The endpoint the endpoint descriptor at `pos` of `d` describes: DCI
/// 2 × endpoint number + direction (1 for IN), no transfer ring yet.
pub open spec fn endpoint_of(d: Seq<u8>, pos: int) -> EndpointSetup {
    let address = d[pos + 2];
    let dir_in = address >= 0x80;
    EndpointSetup {
        dci: (2 * (address % 16) + (if dir_in { 1int } else { 0int })) as u8,
        ep_type: ep_type_of((d[pos + 3] % 4) as int, dir_in),
        max_packet_size: le16(d, pos + 4),
        interval: d[pos + 6],
        is_interrupt: d[pos + 3] % 4 == 3,
        tr_dequeue: 0,
    }
}

/// Walks the descriptors of `d` from `pos` (each `bLength` bytes, type at byte 1)
/// with `iface` the current interface (its number, and whether it is a HID boot
/// keyboard interface), collecting endpoints onto `eps` and the keyboard (its
/// interface and the DCI of its first interrupt IN endpoint) into `kb`. The walk
/// ends at the end of `d` or at a descriptor shorter than 2 bytes or running past
/// the end; interface descriptors shorter than 9 bytes and endpoint descriptors
/// shorter than 7 are passed over like any other descriptor.
pub open spec fn walk_descriptors(
    d: Seq<u8>,
    pos: int,
    iface: Option<(u8, bool)>,
    eps: Seq<EndpointSetup>,
    kb: Option<(u8, u8)>,
) -> (Seq<EndpointSetup>, Option<(u8, u8)>)
    decreases d.len() - pos,
{
    if pos < 0 || pos + 2 > d.len() {
        (eps, kb)
    } else {
        let len = d[pos] as int;
        let ty = d[pos + 1];
        if len < 2 || pos + len > d.len() {
            (eps, kb)
        } else if ty == USB_DESC_INTERFACE && len >= 9 {
            let keyboard = d[pos + 5] == USB_CLASS_HID && d[pos + 6] == HID_SUBCLASS_BOOT && d[pos + 7]
                == HID_PROTOCOL_KEYBOARD;
            walk_descriptors(d, pos + len, Some((d[pos + 2], keyboard)), eps, kb)
        } else if ty == USB_DESC_ENDPOINT && len >= 7 {
            let ep = endpoint_of(d, pos);
            let kb2 = match (kb, iface) {
                (None, Some((n, true))) => if ep.is_interrupt && d[pos + 2] >= 0x80 {
                    Some((n, ep.dci))
                } else {
                    None
                },
                _ => kb,
            };
            walk_descriptors(d, pos + len, iface, eps.push(ep), kb2)
        } else {
            walk_descriptors(d, pos + len, iface, eps, kb)
        }
    }
}

/// The configuration a configuration descriptor set `d` describes: its
/// bConfigurationValue, its endpoints in order, and its HID boot keyboard, if
/// any; `None` unless `d` starts with a configuration descriptor (at least 9
/// bytes, bLength at least 9, bDescriptorType CONFIGURATION).
pub open spec fn configuration_of(d: Seq<u8>) -> Option<(u8, Seq<EndpointSetup>, Option<(u8, u8)>)> {
    if d.len() < 9 || d[0] < 9 || d[1] != USB_DESC_CONFIGURATION {
        None
    } else {
        let (eps, kb) = walk_descriptors(d, d[0] as int, None, seq![], None);
        Some((d[5], eps, kb))
    }
}

/// The endpoint the endpoint descriptor at `pos` of `data` describes.
fn parse_endpoint(data: &[u8], pos: usize) -> (r: EndpointSetup)
    requires
        pos + 7 <= data@.len(),
    ensures
        r == endpoint_of(data@, pos as int),
{
    let n = data.len();
    let address = data[pos + 2];
    let dir_in = address >= 0x80;
    let transfer_type = data[pos + 3] % 4;
    let ep_type: u32 = if transfer_type == 0 {
        EP_TYPE_CONTROL
    } else if dir_in {
        transfer_type as u32 + 4
    } else {
        transfer_type as u32
    };
    EndpointSetup {
        dci: 2 * (address % 16) + (if dir_in { 1u8 } else { 0u8 }),
        ep_type,
        max_packet_size: read_le16(data, pos + 4),
        interval: data[pos + 6],
        is_interrupt: transfer_type == 3,
        tr_dequeue: 0,
    }
}

/// Parse a configuration descriptor set: the configuration value, every
/// endpoint, and the HID boot keyboard (its interface and interrupt IN DCI).
pub fn parse_configuration(data: &[u8]) -> (r: Option<DeviceConfiguration>)
    ensures
        configuration_of(data@) is None <==> r is None,
        r matches Some(c) ==> configuration_of(data@) == Some(
            (c.config_value, c.endpoints@, c.keyboard),
        ),
        r matches Some(c) ==> forall|i: int| 0 <= i < c.endpoints@.len() ==> #[trigger] c.endpoints@[i].dci < 32,
{
    if data.len() < 9 || data[0] < 9 || data[1] != USB_DESC_CONFIGURATION {
        return None;
    }
    if data[0] as usize > data.len() {
        return Some(DeviceConfiguration { config_value: data[5], endpoints: Vec::new(), keyboard: None });
    }
    let mut pos: usize = data[0] as usize;
    let mut iface: Option<(u8, bool)> = None;
    let mut eps: Vec<EndpointSetup> = Vec::new();
    let mut kb: Option<(u8, u8)> = None;
    let ghost whole = walk_descriptors(data@, data@[0] as int, None, seq![], None);
    loop
        invariant
            pos <= data@.len(),
            data@.len() >= 9,
            data@[0] >= 9,
            data@[1] == USB_DESC_CONFIGURATION,
            walk_descriptors(data@, pos as int, iface, eps@, kb) == whole,
            whole == walk_descriptors(data@, data@[0] as int, None, seq![], None),
            forall|i: int| 0 <= i < eps@.len() ==> #[trigger] eps@[i].dci < 32,
        decreases data@.len() - pos,
    {
        if data.len() - pos < 2 {
            return Some(DeviceConfiguration { config_value: data[5], endpoints: eps, keyboard: kb });
        }
        let len = data[pos] as usize;
        if len < 2 || len > data.len() - pos {
            return Some(DeviceConfiguration { config_value: data[5], endpoints: eps, keyboard: kb });
        }
        let ty = data[pos + 1];
        if ty == USB_DESC_INTERFACE && len >= 9 {
            let keyboard = data[pos + 5] == USB_CLASS_HID && data[pos + 6] == HID_SUBCLASS_BOOT
                && data[pos + 7] == HID_PROTOCOL_KEYBOARD;
            iface = Some((data[pos + 2], keyboard));
        } else if ty == USB_DESC_ENDPOINT && len >= 7 {
            let ep = parse_endpoint(data, pos);
            if kb.is_none() {
                match iface {
                    Some((n, true)) => {
                        if ep.is_interrupt && data[pos + 2] >= 0x80 {
                            kb = Some((n, ep.dci));
                        }
                    },
                    _ => {},
                }
            }
            eps.push(ep);
        }
        pos = pos + len;
    }
}


/// The keyboard found so far, if any, is an interrupt IN endpoint among `eps`.
pub open spec fn keyboard_listed(eps: Seq<EndpointSetup>, kb: Option<(u8, u8)>) -> bool {
    kb matches Some((_iface, dci)) ==> exists|k: int|
        0 <= k < eps.len() && #[trigger] eps[k].dci == dci && eps[k].is_interrupt && dci % 2 == 1
}

proof fn lemma_walk_keeps_keyboard_listed(
    d: Seq<u8>,
    pos: int,
    iface: Option<(u8, bool)>,
    eps: Seq<EndpointSetup>,
    kb: Option<(u8, u8)>,
)
    requires
        keyboard_listed(eps, kb),
    ensures
        keyboard_listed(walk_descriptors(d, pos, iface, eps, kb).0, walk_descriptors(d, pos, iface, eps, kb).1),
    decreases d.len() - pos,
{
    if pos < 0 || pos + 2 > d.len() {
    } else {
        let len = d[pos] as int;
        let ty = d[pos + 1];
        if len < 2 || pos + len > d.len() {
        } else if ty == USB_DESC_INTERFACE && len >= 9 {
            let keyboard = d[pos + 5] == USB_CLASS_HID && d[pos + 6] == HID_SUBCLASS_BOOT && d[pos + 7]
                == HID_PROTOCOL_KEYBOARD;
            lemma_walk_keeps_keyboard_listed(d, pos + len, Some((d[pos + 2], keyboard)), eps, kb);
        } else if ty == USB_DESC_ENDPOINT && len >= 7 {
            let ep = endpoint_of(d, pos);
            let kb2 = match (kb, iface) {
                (None, Some((n, true))) => if ep.is_interrupt && d[pos + 2] >= 0x80 {
                    Some((n, ep.dci))
                } else {
                    None
                },
                _ => kb,
            };
            let eps2 = eps.push(ep);
            assert(keyboard_listed(eps2, kb2)) by {
                if kb2 is Some {
                    if kb is Some {
                        let k = choose|k: int|
                            0 <= k < eps.len() && #[trigger] eps[k].dci == kb->Some_0.1 && eps[k].is_interrupt
                                && kb->Some_0.1 % 2 == 1;
                        assert(eps2[k] == eps[k]);
                    } else {
                        let a = d[pos + 2];
                        assert(ep.dci == (2 * (a % 16) + 1) as u8);
                        assert(eps2[eps.len() as int] == ep);
                    }
                }
            }
            lemma_walk_keeps_keyboard_listed(d, pos + len, iface, eps2, kb2);
        } else {
            lemma_walk_keeps_keyboard_listed(d, pos + len, iface, eps, kb);
        }
    }
}

/// A keyboard a configuration descriptor set reveals is one of its endpoints:
/// an interrupt IN endpoint (odd DCI).
pub proof fn lemma_keyboard_is_interrupt_in_endpoint(d: Seq<u8>)
    ensures
        configuration_of(d) matches Some((_value, eps, kb)) ==> keyboard_listed(eps, kb),
{
    if configuration_of(d) is Some {
        lemma_walk_keeps_keyboard_listed(d, d[0] as int, None, seq![], None);
    }
}


/// `d` holds, at `pos`, an interface descriptor (at least 9 bytes, type 4) of
/// interface `n` with class HID (3), subclass boot (1) and protocol keyboard (1).
pub open spec fn keyboard_interface_at(d: Seq<u8>, pos: int, n: u8) -> bool {
    &&& 0 <= pos
    &&& pos + 9 <= d.len()
    &&& d[pos] >= 9
    &&& d[pos + 1] == 4
    &&& d[pos + 2] == n
    &&& d[pos + 5] == 3
    &&& d[pos + 6] == 1
    &&& d[pos + 7] == 1
}

proof fn lemma_walk_keyboard_from_interface(
    d: Seq<u8>,
    pos: int,
    iface: Option<(u8, bool)>,
    ipos: int,
    eps: Seq<EndpointSetup>,
    kb: Option<(u8, u8)>,
    kpos: int,
) -> (w: int)
    requires
        iface matches Some((n, k)) ==> (k ==> keyboard_interface_at(d, ipos, n)),
        kb matches Some((n, _dci)) ==> keyboard_interface_at(d, kpos, n),
    ensures
        walk_descriptors(d, pos, iface, eps, kb).1 matches Some((n, _dci)) ==> keyboard_interface_at(d, w, n),
    decreases d.len() - pos,
{
    if pos < 0 || pos + 2 > d.len() {
        kpos
    } else {
        let len = d[pos] as int;
        let ty = d[pos + 1];
        if len < 2 || pos + len > d.len() {
            kpos
        } else if ty == USB_DESC_INTERFACE && len >= 9 {
            let keyboard = d[pos + 5] == USB_CLASS_HID && d[pos + 6] == HID_SUBCLASS_BOOT && d[pos + 7]
                == HID_PROTOCOL_KEYBOARD;
            lemma_walk_keyboard_from_interface(d, pos + len, Some((d[pos + 2], keyboard)), pos, eps, kb, kpos)
        } else if ty == USB_DESC_ENDPOINT && len >= 7 {
            let ep = endpoint_of(d, pos);
            let kb2 = match (kb, iface) {
                (None, Some((n, true))) => if ep.is_interrupt && d[pos + 2] >= 0x80 {
                    Some((n, ep.dci))
                } else {
                    None
                },
                _ => kb,
            };
            let kpos2 = if kb is None && kb2 is Some {
                ipos
            } else {
                kpos
            };
            lemma_walk_keyboard_from_interface(d, pos + len, iface, ipos, eps.push(ep), kb2, kpos2)
        } else {
            lemma_walk_keyboard_from_interface(d, pos + len, iface, ipos, eps, kb, kpos)
        }
    }
}

/// Only a HID boot keyboard is detected: when a configuration descriptor set
/// reports a keyboard on interface `n`, the set holds an interface descriptor of
/// interface `n` with class HID, subclass boot and protocol keyboard; a set with
/// no such interface (a boot mouse, protocol 2, among them) reports no keyboard.
pub proof fn lemma_keyboard_needs_keyboard_interface(d: Seq<u8>)
    ensures
        configuration_of(d) matches Some((_value, _eps, Some((n, _dci)))) ==> exists|pos: int|
            #[trigger] keyboard_interface_at(d, pos, n),
        (forall|pos: int, n: u8| !#[trigger] keyboard_interface_at(d, pos, n)) ==> (configuration_of(d) matches Some(
            (_value, _eps, kb),
        ) ==> kb is None),
{
    if configuration_of(d) is Some {
        let w = lemma_walk_keyboard_from_interface(d, d[0] as int, None, 0, seq![], None, 0);
        if configuration_of(d)->Some_0.2 is Some {
            assert(keyboard_interface_at(d, w, configuration_of(d)->Some_0.2->Some_0.0));
        }
    }
}

} // verus!
