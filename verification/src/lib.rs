//! # xhci_nostd — xHCI (USB 3.0) Host Controller Driver logic
//!
//! This crate holds the logic of an xHCI host controller driver targeting USB
//! keyboard support via the HID boot protocol: register field decoding, TRB
//! encoding, command/event/transfer ring management, device and input context
//! building, HID boot protocol report processing, and the driver's decisions.
//! It performs no memory-mapped or DMA access itself: each step takes the values
//! read from the controller and returns what to write.
//!
//! ```text
//! +----------------------------------+
//! |         XhciController           |  driver.rs - top-level state and steps
//! +----------------------------------+
//! |          HID/Keyboard            |  hid.rs
//! +----------------------------------+
//! |  Command Ring | Event Ring | TR  |  ring.rs - TRB ring management
//! +----------------------------------+
//! |  Device/Endpoint/Input Contexts  |  context.rs - xHCI data structures
//! +----------------------------------+
//! |  Capability | Operational | RT   |  registers.rs - register layout
//! +----------------------------------+
//! ```
use vstd::prelude::*;

pub mod fields;
pub mod registers;
pub mod ring;
pub mod context;
pub mod hid;
pub mod usb;
pub mod driver;

pub use driver::XhciController;
pub use hid::KeyEvent;

verus! {

} // verus!
