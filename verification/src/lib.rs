//! Verified core of a user-space driver for an eGalax USB touchscreen.
//!
//! The library turns the controller's fixed six-byte reports into pointer
//! input: an absolute cursor position, a left click for a finger touch, and a
//! synthesized right click when the finger is held still long enough.  It
//! also contains the solver behind the guided four-point calibration that
//! derives the device-to-monitor coordinate mapping.
//!
//! Everything that touches the operating system (reading the device node,
//! registering the virtual input device, enumerating monitors, loading the
//! configuration file) lives outside this crate; the library works on plain
//! values and is verified end to end.

#![allow(non_camel_case_types)]

pub mod audio;
pub mod calibration;
pub mod cli;
pub mod config;
pub mod driver;
pub mod error;
pub mod geo;
pub mod protocol;
pub mod units;
