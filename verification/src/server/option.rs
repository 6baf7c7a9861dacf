//! How a server listens and how long it keeps requests and sessions.
use vstd::prelude::*;

verus! {

/// The options of a server.
pub struct ServerOption {
    /// The address to listen on.
    pub addr: String,
    /// The service name clients must give; empty accepts any.
    pub service_name: String,
    /// The key clients must give; empty accepts any.
    pub verify_key: String,
    /// How long a request waits for its answer, in milliseconds.
    pub request_out_time: u32,
    /// How long a session outlives its connection, in milliseconds.
    pub session_save_time: u32,
    /// The most connections at once; 0 for no limit.
    pub max_connections: usize,
    /// Whether small packets go out at once (TCP_NODELAY).
    pub is_nodelay: bool,
}

impl ServerOption {
    /// Options for the given address, service name and key, with requests
    /// and sessions kept 5000 ms, no connection limit, and Nagle's algorithm on.
    pub fn new(addr: &str, service_name: &str, verify_key: &str) -> (o: ServerOption)
        ensures
            o.addr@ == addr@,
            o.service_name@ == service_name@,
            o.verify_key@ == verify_key@,
            o.request_out_time == 5000,
            o.session_save_time == 5000,
            o.max_connections == 0,
            !o.is_nodelay,
    {
        ServerOption {
            addr: String::from_str(addr),
            service_name: String::from_str(service_name),
            verify_key: String::from_str(verify_key),
            request_out_time: 5000,
            session_save_time: 5000,
            max_connections: 0,
            is_nodelay: false,
        }
    }

    /// The same options with another session keeping time.
    pub fn set_session_save_time(self, session_save_time: u32) -> (o: ServerOption)
        ensures
            o == (ServerOption { session_save_time, ..self }),
    {
        let mut s = self;
        s.session_save_time = session_save_time;
        s
    }

    /// The same options with another request timeout.
    pub fn set_request_out_time(self, request_out_time: u32) -> (o: ServerOption)
        ensures
            o == (ServerOption { request_out_time, ..self }),
    {
        let mut s = self;
        s.request_out_time = request_out_time;
        s
    }

    /// The same options with another connection limit.
    pub fn set_max_connections(self, max_connections: usize) -> (o: ServerOption)
        ensures
            o == (ServerOption { max_connections, ..self }),
    {
        let mut s = self;
        s.max_connections = max_connections;
        s
    }

    /// The same options with TCP_NODELAY on or off.
    pub fn set_nodelay(self, is_nodelay: bool) -> (o: ServerOption)
        ensures
            o == (ServerOption { is_nodelay, ..self }),
    {
        let mut s = self;
        s.is_nodelay = is_nodelay;
        s
    }

    /// A copy whose text fields hold the same text.
    pub fn copy(&self) -> (o: ServerOption)
        ensures
            o.addr@ == self.addr@,
            o.service_name@ == self.service_name@,
            o.verify_key@ == self.verify_key@,
            o.request_out_time == self.request_out_time,
            o.session_save_time == self.session_save_time,
            o.max_connections == self.max_connections,
            o.is_nodelay == self.is_nodelay,
    {
        ServerOption {
            addr: self.addr.clone(),
            service_name: self.service_name.clone(),
            verify_key: self.verify_key.clone(),
            request_out_time: self.request_out_time,
            session_save_time: self.session_save_time,
            max_connections: self.max_connections,
            is_nodelay: self.is_nodelay,
        }
    }
}

} // verus!
