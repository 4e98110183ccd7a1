//! Host-side protocol engine for the Ryze Tello quadcopter.
//!
//! The library covers the binary frame codec with its two checksums, the
//! command builders, the telemetry and flight-log decoders, the chunked photo
//! reassembly state machine, and the sequential controller engine that turns
//! inbound datagrams into state updates and outbound frames.  Sockets,
//! threads and the file system live outside the library; callers hand in
//! datagram bytes and carry out the actions the engine returns.

pub mod bytes;
pub mod clock;
pub mod commands;
pub mod crc;
pub mod engine;
pub mod files;
pub mod packet;
pub mod telemetry;
