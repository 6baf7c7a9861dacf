//! The state of a client and of its one connection to the server: options,
//! mode, session store, the link to the server, the calls that wait for their
//! answers, the serial counter and the controller that answers the server.
use vstd::prelude::*;

use crate::client::error::Error;
use crate::client::option::{ServerOption, TlsConfig};
use crate::client::session::SessionSave;
use crate::pending::{PendingCalls, SerialCounter};
use crate::wire::anyhow_msg;

verus! {

/// Command tag of the handler run once the connection is up.
pub const CONNECT: i32 = 2147483647;
/// Command tag of the handler run once the connection is down.
pub const DISCONNECT: i32 = 2147483646;
/// Command tag of the handler run when the client is closed.
pub const CLOSED: i32 = 2147483645;

/// A client. `T` keeps the session id, `P` is the link to the server, `W`
/// the watch on the outcome of a connect, `S` what delivers the answer to a
/// waiting call, `C` the controller and `R` the request manager.
pub struct NetXClient<T, P, W, S, C, R> {
    /// The server this client talks to.
    pub server_info: ServerOption,
    /// How the connection is secured.
    pub tls_config: TlsConfig,
    /// 0: packets go out as they are; otherwise behind their length.
    pub mode: u8,
    /// The session store.
    pub session: T,
    net: Option<P>,
    connect_stats: Option<W>,
    result_dict: PendingCalls<S>,
    serial_atomic: SerialCounter,
    request_manager: Option<R>,
    controller: Option<C>,
}

impl<T: SessionSave, P, W, S, C, R> NetXClient<T, P, W, S, C, R> {
    /// The options of the server.
    pub closed spec fn server(&self) -> ServerOption {
        self.server_info
    }

    /// The mode.
    pub closed spec fn current_mode(&self) -> u8 {
        self.mode
    }

    /// The session store.
    pub closed spec fn store(&self) -> T {
        self.session
    }

    /// How the connection is secured.
    pub closed spec fn tls(&self) -> TlsConfig {
        self.tls_config
    }

    /// The link to the server, if connected.
    pub closed spec fn link(&self) -> Option<P> {
        self.net
    }

    /// The watch on the outcome of the current connect, if any.
    pub closed spec fn stats(&self) -> Option<W> {
        self.connect_stats
    }

    /// The calls waiting for their answer, by serial.
    pub closed spec fn waiting(&self) -> Map<i64, S> {
        self.result_dict@
    }

    /// The next serial to hand out.
    pub closed spec fn next_serial(&self) -> i64 {
        self.serial_atomic@
    }

    /// The controller, if one was set.
    pub closed spec fn controller_spec(&self) -> Option<C> {
        self.controller
    }

    /// The request manager, once set.
    pub closed spec fn manager(&self) -> Option<R> {
        self.request_manager
    }

    /// A client of the given server, not connected, in mode 0, with no
    /// waiting calls, no controller and no request manager; its first serial is 1.
    pub fn new(server_info: ServerOption, session: T) -> (c: Self)
        ensures
            c.server() == server_info,
            c.store() == session,
            c.tls() == TlsConfig::Plain,
            c.current_mode() == 0,
            c.link() is None,
            c.stats() is None,
            c.waiting() == Map::<i64, S>::empty(),
            c.next_serial() == 1,
            c.controller_spec() is None,
            c.manager() is None,
    {
        NetXClient {
            server_info,
            tls_config: TlsConfig::Plain,
            mode: 0,
            session,
            net: None,
            connect_stats: None,
            result_dict: PendingCalls::new(),
            serial_atomic: SerialCounter::new(),
            request_manager: None,
            controller: None,
        }
    }

    /// Sets the request manager; once set it stays, and a second one is handed back.
    pub fn set_request_manager(&mut self, manager: R) -> (res: Result<(), R>)
        ensures
            old(self).manager() is None ==> res is Ok && final(self).manager() == Some(manager),
            old(self).manager() is Some ==> res == Err::<(), R>(manager) && final(self).manager()
                == old(self).manager(),
            final(self).link() == old(self).link(),
            final(self).waiting() == old(self).waiting(),
            final(self).next_serial() == old(self).next_serial(),
            final(self).controller_spec() == old(self).controller_spec(),
            final(self).current_mode() == old(self).current_mode(),
    {
        if self.request_manager.is_some() {
            return Err(manager);
        }
        self.request_manager = Some(manager);
        Ok(())
    }

    /// The request manager, once set.
    pub fn request_manager(&self) -> (r: Option<&R>)
        ensures
            r == match self.manager() {
                Some(m) => Some(&m),
                None => None::<&R>,
            },
    {
        match &self.request_manager {
            Some(m) => Some(m),
            None => None,
        }
    }

    /// Sets the controller that answers the server.
    pub fn init(&mut self, controller: C)
        ensures
            final(self).controller_spec() == Some(controller),
            final(self).link() == old(self).link(),
            final(self).waiting() == old(self).waiting(),
            final(self).next_serial() == old(self).next_serial(),
            final(self).current_mode() == old(self).current_mode(),
    {
        self.controller = Some(controller);
    }

    /// The controller, if one was set.
    pub fn controller(&self) -> (c: Option<&C>)
        ensures
            c == match self.controller_spec() {
                Some(x) => Some(&x),
                None => None::<&C>,
            },
    {
        match &self.controller {
            Some(c) => Some(c),
            None => None,
        }
    }

    /// Sets the mode.
    pub fn set_mode(&mut self, mode: u8)
        ensures
            final(self).current_mode() == mode,
            final(self).link() == old(self).link(),
            final(self).waiting() == old(self).waiting(),
            final(self).next_serial() == old(self).next_serial(),
            final(self).controller_spec() == old(self).controller_spec(),
    {
        self.mode = mode;
    }

    /// The mode.
    pub fn get_mode(&self) -> (m: u8)
        ensures
            m == self.current_mode(),
    {
        self.mode
    }

    /// The address of the server.
    pub fn get_addr_string(&self) -> (s: String)
        ensures
            s@ == self.server().addr@,
    {
        self.server_info.addr.clone()
    }

    /// The options of the server.
    pub fn get_service_info(&self) -> (o: ServerOption)
        ensures
            o.addr@ == self.server().addr@,
            o.service_name@ == self.server().service_name@,
            o.verify_key@ == self.server().verify_key@,
            o.request_out_time_ms == self.server().request_out_time_ms,
    {
        self.server_info.copy()
    }

    /// How the connection is secured.
    pub fn get_tls_config(&self) -> (t: TlsConfig)
        ensures
            t == self.tls(),
    {
        self.tls_config
    }

    /// The session id in the store.
    pub fn get_session_id(&self) -> (id: i64)
        ensures
            id == self.store().stored_session_id(),
    {
        self.session.get_session_id()
    }

    /// Keeps a new session id in the store.
    pub fn store_session_id(&mut self, session_id: i64)
        ensures
            final(self).store().stored_session_id() == session_id,
            final(self).link() == old(self).link(),
            final(self).waiting() == old(self).waiting(),
            final(self).next_serial() == old(self).next_serial(),
            final(self).current_mode() == old(self).current_mode(),
    {
        self.session.store_session_id(session_id);
    }

    /// Keeps the link to the server: the client is connected.
    pub fn set_network_client(&mut self, client: P)
        ensures
            final(self).link() == Some(client),
            final(self).stats() == old(self).stats(),
            final(self).waiting() == old(self).waiting(),
            final(self).next_serial() == old(self).next_serial(),
            final(self).current_mode() == old(self).current_mode(),
    {
        self.net = Some(client);
    }

    /// Keeps, or clears, the watch on the outcome of a connect.
    pub fn set_connect_stats(&mut self, stats: Option<W>)
        ensures
            final(self).stats() == stats,
            final(self).link() == old(self).link(),
            final(self).waiting() == old(self).waiting(),
            final(self).next_serial() == old(self).next_serial(),
            final(self).current_mode() == old(self).current_mode(),
    {
        self.connect_stats = stats;
    }

    /// The watch on the outcome of the current connect, if any.
    pub fn connect_stats(&self) -> (w: Option<&W>)
        ensures
            w == match self.stats() {
                Some(x) => Some(&x),
                None => None::<&W>,
            },
    {
        match &self.connect_stats {
            Some(w) => Some(w),
            None => None,
        }
    }

    /// Whether the client holds a link to the server.
    pub fn is_connect(&self) -> (b: bool)
        ensures
            b == self.link() is Some,
    {
        self.net.is_some()
    }

    /// The link to the server, if connected.
    pub fn get_peer(&self) -> (p: Option<&P>)
        ensures
            p == match self.link() {
                Some(x) => Some(&x),
                None => None::<&P>,
            },
    {
        match &self.net {
            Some(p) => Some(p),
            None => None,
        }
    }

    /// Hands out a serial for a new call.
    pub fn new_serial(&mut self) -> (s: i64)
        ensures
            s == old(self).next_serial(),
            final(self).next_serial() == (if s == i64::MAX {
                i64::MIN
            } else {
                (s + 1) as i64
            }),
            final(self).link() == old(self).link(),
            final(self).waiting() == old(self).waiting(),
            final(self).current_mode() == old(self).current_mode(),
    {
        self.serial_atomic.new_serial()
    }

    /// The number of calls waiting for their answer.
    pub fn get_callback_len(&self) -> (n: usize)
        ensures
            n == self.waiting().len(),
    {
        self.result_dict.len()
    }

    /// Registers a call with this serial before it goes out: refused where the
    /// client is not connected or a call with this serial already waits, and
    /// then nothing changes.
    pub fn begin_call(&mut self, serial: i64, tx: S) -> (res: Result<(), Error>)
        ensures
            res is Ok <==> old(self).link() is Some && !old(self).waiting().contains_key(serial),
            res is Ok ==> final(self).waiting() == old(self).waiting().insert(serial, tx),
            res is Err ==> final(self).waiting() == old(self).waiting(),
            res matches Err(e) ==> e is Error,
            final(self).link() == old(self).link(),
            final(self).next_serial() == old(self).next_serial(),
            final(self).current_mode() == old(self).current_mode(),
    {
        if self.net.is_none() {
            return Err(Error::Error(anyhow_msg("not connect")));
        }
        match self.result_dict.register(serial, tx) {
            Ok(()) => Ok(()),
            Err(_) => Err(Error::Error(anyhow_msg("serial is have"))),
        }
    }

    /// Takes out the call waiting under `serial`, to hand it its answer or
    /// its error.
    pub fn take_waiting(&mut self, serial: i64) -> (res: Option<S>)
        ensures
            old(self).waiting().contains_key(serial) ==> res == Some(old(self).waiting()[serial])
                && final(self).waiting() == old(self).waiting().remove(serial),
            !old(self).waiting().contains_key(serial) ==> res is None && final(self).waiting()
                == old(self).waiting(),
            final(self).link() == old(self).link(),
            final(self).next_serial() == old(self).next_serial(),
            final(self).current_mode() == old(self).current_mode(),
    {
        self.result_dict.take(serial)
    }

    /// Drops the link to the server and hands it back, to be disconnected.
    pub fn clean_connect(&mut self) -> (res: Option<P>)
        ensures
            res == old(self).link(),
            final(self).link() is None,
            final(self).waiting() == old(self).waiting(),
            final(self).controller_spec() == old(self).controller_spec(),
            final(self).next_serial() == old(self).next_serial(),
            final(self).current_mode() == old(self).current_mode(),
    {
        self.net.take()
    }

    /// Closing: drops the controller and the link, and hands the link back.
    pub fn close(&mut self) -> (res: Option<P>)
        ensures
            res == old(self).link(),
            final(self).link() is None,
            final(self).controller_spec() is None,
            final(self).waiting() == old(self).waiting(),
            final(self).next_serial() == old(self).next_serial(),
            final(self).current_mode() == old(self).current_mode(),
    {
        self.controller = None;
        self.net.take()
    }
}

/// What a connect comes to once its read loop has answered it: success where
/// the handshake was accepted; else the refusal, with the server's reason.
pub fn connect_outcome(is_connect: bool, msg: String) -> (res: Result<(), Error>)
    ensures
        is_connect ==> res is Ok,
        !is_connect ==> (res matches Err(Error::ConnectError(m)) && m == msg),
{
    if is_connect {
        Ok(())
    } else {
        Err(Error::ConnectError(msg))
    }
}

} // verus!
