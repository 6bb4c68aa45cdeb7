//! Normalizes heterogeneous game-controller input into a fixed-rate stream of
//! abstract samples: a direction code (numeric-keypad convention) plus a
//! button bitmask.
//!
//! The crate holds the protocol logic: the two raw-report decoders (XInput
//! gamepad state and DualShock-4-style HID reports), the shared direction
//! encoder both decoders funnel through, device detection over plain device
//! descriptions, and the polling worker's lifecycle and frame bookkeeping.
//! Device I/O (FFI slot queries, HID reads, the clock, the event bus and the
//! worker thread itself) lives outside; it hands this crate plain values and
//! receives plain values back.

pub mod buttons;
pub mod detect;
pub mod direction;
pub mod hid;
pub mod sample;
pub mod source;
pub mod worker;
pub mod xinput;
