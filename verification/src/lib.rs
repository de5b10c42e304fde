//! Emulation of a game console's wireless gamepad over a HID gadget link.
//!
//! The crate holds the protocol engine: the packed button/axis state, the
//! canned factory data the console reads back, the outbound report
//! builders, the inbound command dispatcher, a bounded outbound queue,
//! and the controller facade that ties them together, plus the pure
//! planning half of the USB gadget configuration layer.  Device I/O and
//! thread plumbing live outside the crate; everything here is
//! computation on plain bytes and strings.

pub mod controller;
pub mod dispatch;
pub mod gadget;
pub mod inputs;
pub mod magic;
pub mod ns_procon;
pub mod queue;
pub mod report;
pub mod state;
