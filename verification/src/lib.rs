//! Host-side protocol engine for Akko keyboards: the 64-byte packet codec, the
//! opcode catalog, interface discovery over HID feature reports, the command
//! executor and the opcode prober.

pub mod api;
pub mod commands;
pub mod detector;
pub mod error;
pub mod hid;
pub mod models;
pub mod protocol;
pub mod text;

pub use api::{akko_handshake, akko_send_packet};
pub use commands::{CommandResult, ProbeResult};
pub use detector::AkkoModel;
pub use error::AkkoError;
