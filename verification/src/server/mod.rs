//! The server side: its options, the outcome of a call, the packets it sends
//! and reads, the handshake, and the state of each session and of all
//! sessions together.
pub mod error;
pub mod handshake;
pub mod option;
pub mod packets;
pub mod reading;
pub mod result;
pub mod token;
pub mod token_manager;
