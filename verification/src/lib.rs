//! Protocol engine for the Spektrum SRXL2 serial bus, verified with Verus.
//!
//! The crate frames and parses SRXL2 packets, keeps the device and bus data
//! model, runs the per-bus handshake and polling state machine, and tracks
//! the signal quality of redundant receivers. The bit-level helpers that a
//! bit-banged serial transport builds on live beside it.

pub mod types;
pub mod wire;
pub mod crc;
pub mod error;
pub mod flags;
pub mod tx;
pub mod device;
pub mod receiver;
pub mod handshake;
pub mod bind;
pub mod param;
pub mod rssi;
pub mod telemetry;
pub mod vtx;
pub mod fwd_pgm;
pub mod channel;
pub mod internal;
pub mod control;
pub mod packet;
pub mod bus;
pub mod interpreter;
pub mod fns;
pub mod circular_buffer;
pub mod software_serial;
pub mod blink;
pub mod led;
pub mod onboard_leds_buttons;
pub mod robot;

