//! Host-side driver core for the HackEEG ADS1299 acquisition board.
//!
//! The crate covers the device-protocol client: the wire-mode state machine,
//! the line-oriented command/response transaction protocol, and the binary
//! sample-frame codec.  Serial-port access and base64 handling go through a
//! small set of trusted wrappers; everything else is verified.

pub mod ads1299;
pub mod b64;
pub mod client;
pub mod commands;
pub mod responses;
pub mod sample;
pub mod transport;
pub mod wire;
