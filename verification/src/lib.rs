//! Synthetic network-capture generation for a game-server query client.
//!
//! Instead of sniffing real traffic, this library reconstructs the
//! Ethernet/IP/TCP-or-UDP byte stream that would have carried the
//! application-level payloads a client exchanged over its sockets, and
//! appends the reconstruction to a standard capture container.
//!
//! The header encoders, the per-session sequence-number state and the
//! record synthesis are verified; the capture container itself is written
//! through a thin trusted layer over an outside pcapng writer.

pub mod encode;
pub mod laws;
pub mod packet;
pub mod session;
pub mod sink;
