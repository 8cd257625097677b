# xhci_nostd

Logic of an xHCI (USB 3.0) host controller driver with HID boot-protocol
keyboard support, written in Verus and verified.

The library (`src/`) does no memory-mapped or DMA access. It decodes register
values, encodes TRBs, runs the command, event and transfer rings, builds device,
endpoint and input contexts, turns HID boot keyboard reports into key events,
and takes the driver's decisions: each step takes what was read from the
controller and returns what to write back.

- `fields.rs` — bit fields of hardware words, stated arithmetically, with the
  laws that replacing a field sets it and keeps every other field.
- `registers.rs` — register offsets and bits, capability register decoding,
  register addresses, doorbell writes.
- `ring.rs` — TRBs and their constructors; command, event and transfer rings
  with cycle-bit handling and Link TRB wrap.
- `context.rs` — raw, slot and endpoint contexts; input context and DCBAA layout.
- `hid.rs` — boot keyboard reports, the usage-to-scancode table, and the
  keyboard state that diffs consecutive reports into press/release events.
- `usb.rs` — USB standard requests and descriptor types; the device descriptor
  and configuration descriptor set parsers (endpoints with their DCI and xHCI
  type, and HID boot keyboard detection).
- `driver.rs` — `XhciController`, the driver state and its steps, among them
  controller start-up as a state machine of register reads and writes, device
  bring-up (Address Device, descriptors, SET_CONFIGURATION, Configure Endpoint,
  keyboard set-up) as a state machine of commands and control requests with a
  record per device, the keyboard poll as a state machine, and the bounded
  polls of the waits.

`app/` holds the bare-metal side: volatile register access, DMA allocation,
TRB and context reads and writes, the polling loops and logging; it is
`no_std` with `alloc`.
