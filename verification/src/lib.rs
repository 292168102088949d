//! Communication and event-dispatch core of an embedded controller for a
//! coin-operated arcade machine.
//!
//! The crate covers the wire-format frame model, the streaming packet codec
//! with checksum validation and byte-level resynchronization, the command
//! router, the per-frame transport decisions, and the bounded event queue
//! that decouples event producers from the single dispatcher.

pub mod bus;
pub mod bytebuf;
pub mod codec;
pub mod connection;
pub mod dispatch;
pub mod drivers;
pub mod error;
pub mod event;
pub mod events;
pub mod handlers;
pub mod manager;
pub mod packet;
pub mod router;
pub mod transport;
