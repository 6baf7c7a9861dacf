//! The client side: its options, its session store, the outcome of a call,
//! the packets it sends and reads, the timing out of its requests, and the
//! state of one connection to a server.
pub mod connection;
pub mod controller;
pub mod error;
pub mod option;
pub mod packets;
pub mod reading;
pub mod request_manager;
pub mod result;
pub mod session;
