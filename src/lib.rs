//! A session bridge between a native accessory-protocol engine and a UI layer.
//!
//! The library holds the decisions: the session lifecycle, the frame queue
//! that carries compressed video out of the engine's callbacks, the streaming
//! flag and the hardware signal decoding. Calls into the engine, threads and
//! timers belong to the host program.
pub mod frame;
pub mod hardware;
pub mod queue;
pub mod session;
pub mod stream;
