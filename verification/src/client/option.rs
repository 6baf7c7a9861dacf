//! Where and how a client reaches its server.
use vstd::prelude::*;

verus! {

/// How a client secures its connection. This build carries no TLS
/// connector, so the only choice is a plain connection.
#[derive(Clone, Copy)]
pub enum TlsConfig {
    /// A plain TCP connection, with no TLS.
    Plain,
}

/// The server a client talks to.
#[derive(Clone)]
pub struct ServerOption {
    /// The address of the server.
    pub addr: String,
    /// The name of the service, checked by the server.
    pub service_name: String,
    /// The key the server checks before it accepts the client.
    pub verify_key: String,
    /// How long a request waits for its answer, in milliseconds.
    pub request_out_time_ms: u32,
}

impl ServerOption {
    /// Options with the given fields.
    pub fn new(addr: String, service_name: String, verify_key: String, request_out_time_ms: u32) -> (o: ServerOption)
        ensures
            o.addr == addr,
            o.service_name == service_name,
            o.verify_key == verify_key,
            o.request_out_time_ms == request_out_time_ms,
    {
        ServerOption { addr, service_name, verify_key, request_out_time_ms }
    }

    /// A copy whose text fields hold the same text.
    pub fn copy(&self) -> (o: ServerOption)
        ensures
            o.addr@ == self.addr@,
            o.service_name@ == self.service_name@,
            o.verify_key@ == self.verify_key@,
            o.request_out_time_ms == self.request_out_time_ms,
    {
        ServerOption {
            addr: self.addr.clone(),
            service_name: self.service_name.clone(),
            verify_key: self.verify_key.clone(),
            request_out_time_ms: self.request_out_time_ms,
        }
    }

    /// The text that names this server in messages: the service name, then
    /// the address in square brackets.
    pub fn to_string(&self) -> (s: String)
        ensures
            s@ == self.service_name@ + seq!['['] + self.addr@ + seq![']'],
    {
        let mut s = self.service_name.clone();
        s.append("[");
        s.append(self.addr.as_str());
        s.append("]");
        proof {
            reveal_strlit("[");
            reveal_strlit("]");
        }
        s
    }
}

} // verus!
