//! What can go wrong on the server side.
use vstd::prelude::*;

verus! {

/// The errors of the server.
pub enum Error {
    /// An error that carries its own message.
    Error(anyhow::Error),
    /// An input or output error.
    IOError(std::io::Error),
    /// The request with this serial was dropped before its answer came.
    SerialClose(i64),
    /// The request with this serial waited longer than the request timeout.
    SerialTimeOut(i64),
    /// The session manager is gone.
    ManagerUpgradeFail,
    /// A request with this serial already waits.
    SerialHave,
    /// The session with this id has no connection.
    TokenDisconnect(i64),
    /// The remote side answered with an error id and message.
    CallError(i32, String),
}

} // verus!
