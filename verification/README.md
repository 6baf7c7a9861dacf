# netx

A bidirectional RPC framework over TCP: clients call the methods of a server,
and the server calls the methods of its clients over the same connection.
Interfaces are Rust traits whose remote methods carry a `#[tag(..)]` command
number.

The crate is verified with Verus.

- `src/` is the verified library: the wire format of every packet and the
  proofs that each side reads what the other writes (`codec`, `protocol`,
  `client::packets`, `server::packets`, `exchange`), the read-loop decisions
  of both sides (`client::reading`, `server::reading`, `server::handshake`),
  the state of a client, a session and the session table
  (`client::connection`, `server::token`, `server::token_manager`), request
  timeouts (`timeouts`, `pending`, `client::request_manager`), and the
  decisions behind the interface attributes (`builder`). The calls into
  `data_rw`, `bytes`, `anyhow`, `oneshot`, `chrono` and the clock go through
  the trusted wrappers of `wire` and `clock`.
- `app/` is the asynchronous runtime around it: the client and server actors
  on `tokio`, `aqueue`, `tcpclient` and `tcpserver`, the serde forms of the
  options, the error types, the calling macros, and the code generation of
  the interface attributes with `syn` and `quote`.
- `tests/` runs the library on concrete values.
