use vstd::prelude::*;

pub mod codec;
pub mod wire;
pub mod protocol;
pub mod timeouts;
pub mod pending;
pub mod clock;
pub mod client;
pub mod server;
pub mod exchange;
pub mod builder;

verus! {

} // verus!
