//! The lifecycle of one audio stream between an application's data callback
//! and a sound server: formats and buffering, transport control, the duplex
//! write path with its drain timer, and software gain.

pub mod buffering;
pub mod channels;
pub mod controls;
pub mod cork_state;
pub mod error;
pub mod format;
pub mod gain;
pub mod proofs;
pub mod session;
pub mod setup;
pub mod stream;
pub mod write_path;
