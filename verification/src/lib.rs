//! Core rules of a disguised tunneling relay: protocol sniffing, backend
//! selection, the handshake disguise, the relay and datagram-multiplexing
//! state machines and the multiplex frame format.
//!
//! Everything here works on plain values. Sockets, timers and tasks belong to
//! the program that drives these functions.

pub mod bytes;
pub mod sniff;
pub mod dispatch;
pub mod frame;
pub mod mux;
pub mod relay;
pub mod sha1;
pub mod base64;
pub mod handshake;
pub mod args;
pub mod session;
