//! Adaptive keyboard-backlight dimming.
//!
//! The crate holds the decisions of a backlight dimmer as verified code:
//! how a brightness level decays while the keyboard is idle, how raw input
//! records are classified into activity signals, how the dimming state
//! reacts to signals and timer expiries, which HID feature reports are put
//! on the wire, and in which order a USB interface is claimed and given back.
//! Everything that touches a device, a clock or a thread is left to the
//! caller, which performs the actions this crate decides on and reports
//! their outcomes back.

pub mod dimmer;
pub mod discovery;
pub mod hid;
pub mod input;
pub mod signal;
