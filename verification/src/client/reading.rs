//! What a client makes of the packets its server sends: reading one packet,
//! and deciding what to do about it.
use data_rw::DataOwnedReader;
use vstd::prelude::*;

use crate::codec::{i32_from_le, i64_from_le};
use crate::wire::{
    has_len_prefixed, len_prefixed_body, read_bool, read_i32, read_i64, read_text, read_u8,
    reader_bytes, reader_get_offset, reader_len, reader_offset, reader_rest, reader_wf,
};

verus! {

/// A packet from the server, as far as its header goes; the arguments of a
/// call and the outcome of an answer stay unread behind it.
pub enum ServerMessage {
    /// The server accepted the handshake; it may ask for mode 1.
    Verified { msg: String, mode_one: bool },
    /// The server refused the handshake, with its reason.
    Refused { msg: String },
    /// The session id the server assigned.
    SessionId(i64),
    /// A call of one of the client's methods.
    Call { tt: u8, cmd: i32, serial: i64 },
    /// The answer to the client's call with this serial.
    Reply { serial: i64 },
    /// A command the client does not know.
    Unknown(i32),
}

/// The abstract content of a `ServerMessage`.
pub enum ServerMessageSpec {
    Verified { msg: Seq<char>, mode_one: bool },
    Refused { msg: Seq<char> },
    SessionId(i64),
    Call { tt: u8, cmd: i32, serial: i64 },
    Reply { serial: i64 },
    Unknown(i32),
}

impl View for ServerMessage {
    type V = ServerMessageSpec;

    open spec fn view(&self) -> ServerMessageSpec {
        match self {
            ServerMessage::Verified { msg, mode_one } => ServerMessageSpec::Verified {
                msg: msg@,
                mode_one: *mode_one,
            },
            ServerMessage::Refused { msg } => ServerMessageSpec::Refused { msg: msg@ },
            ServerMessage::SessionId(id) => ServerMessageSpec::SessionId(*id),
            ServerMessage::Call { tt, cmd, serial } => ServerMessageSpec::Call {
                tt: *tt,
                cmd: *cmd,
                serial: *serial,
            },
            ServerMessage::Reply { serial } => ServerMessageSpec::Reply { serial: *serial },
            ServerMessage::Unknown(c) => ServerMessageSpec::Unknown(*c),
        }
    }
}

/// Reading a server packet from the front of `rest`: the message and the
/// number of bytes it took, or `None` where the bytes run out or a text is
/// not UTF-8. The handshake answer may end in one byte; a 1 there asks for
/// mode 1.
pub open spec fn parse_server_message(rest: Seq<u8>) -> Option<(ServerMessageSpec, nat)> {
    if rest.len() < 4 {
        None
    } else {
        let cmd = i32_from_le(rest);
        let r = rest.subrange(4, rest.len() as int);
        if cmd == 1000 {
            if r.len() < 1 {
                None
            } else {
                let r2 = r.subrange(1, r.len() as int);
                if !(has_len_prefixed(r2) && vstd::utf8::valid_utf8(len_prefixed_body(r2))) {
                    None
                } else {
                    let body = len_prefixed_body(r2);
                    let msg = vstd::utf8::decode_utf8(body);
                    let used = 9 + body.len();
                    let r3 = r2.subrange(4 + body.len() as int, r2.len() as int);
                    if r[0] != 0 {
                        Some((ServerMessageSpec::Refused { msg }, used))
                    } else if r3.len() == 1 {
                        Some((ServerMessageSpec::Verified { msg, mode_one: r3[0] == 1 }, used + 1))
                    } else {
                        Some((ServerMessageSpec::Verified { msg, mode_one: false }, used))
                    }
                }
            }
        } else if cmd == 2000 {
            if r.len() < 8 {
                None
            } else {
                Some((ServerMessageSpec::SessionId(i64_from_le(r)), 12))
            }
        } else if cmd == 2400 {
            if r.len() < 13 {
                None
            } else {
                Some(
                    (
                        ServerMessageSpec::Call {
                            tt: r[0],
                            cmd: i32_from_le(r.subrange(1, r.len() as int)),
                            serial: i64_from_le(r.subrange(5, r.len() as int)),
                        },
                        17,
                    ),
                )
            }
        } else if cmd == 2500 {
            if r.len() < 8 {
                None
            } else {
                Some((ServerMessageSpec::Reply { serial: i64_from_le(r) }, 12))
            }
        } else {
            Some((ServerMessageSpec::Unknown(cmd), 4))
        }
    }
}

/// Reads the header of one server packet from the unread bytes of `dr`,
/// leaving the rest of the packet unread (see `parse_server_message`).
pub fn read_server_message(dr: &mut DataOwnedReader) -> (res: Result<ServerMessage, anyhow::Error>)
    requires
        reader_wf(*old(dr)),
    ensures
        reader_wf(*final(dr)),
        reader_bytes(*final(dr)) == reader_bytes(*old(dr)),
        res is Ok <==> parse_server_message(reader_rest(*old(dr))) is Some,
        res matches Ok(m) ==> {
            let (spec_m, used) = parse_server_message(reader_rest(*old(dr))).unwrap();
            &&& m@ == spec_m
            &&& reader_offset(*final(dr)) == reader_offset(*old(dr)) + used
        },
{
    let ghost rest = reader_rest(*dr);
    let cmd = read_i32(dr)?;
    let ghost r = rest.subrange(4, rest.len() as int);
    assert(reader_rest(*dr) =~= r);
    if cmd == 1000 {
        let is_err = read_bool(dr)?;
        let ghost r2 = r.subrange(1, r.len() as int);
        assert(reader_rest(*dr) =~= r2);
        let msg = read_text(dr)?;
        proof {
            vstd::utf8::encode_utf8_decode_utf8(msg@);
        }
        if is_err {
            return Ok(ServerMessage::Refused { msg });
        }
        let ghost body = len_prefixed_body(r2);
        assert(reader_rest(*dr) =~= r2.subrange(4 + body.len() as int, r2.len() as int));
        let total = reader_len(dr);
        let offset = reader_get_offset(dr);
        let mut mode_one = false;
        if total - offset == 1 {
            let b = read_u8(dr)?;
            mode_one = b == 1;
        }
        Ok(ServerMessage::Verified { msg, mode_one })
    } else if cmd == 2000 {
        let id = read_i64(dr)?;
        Ok(ServerMessage::SessionId(id))
    } else if cmd == 2400 {
        let tt = read_u8(dr)?;
        assert(reader_rest(*dr) =~= r.subrange(1, r.len() as int));
        let call_cmd = read_i32(dr)?;
        assert(reader_rest(*dr) =~= r.subrange(5, r.len() as int));
        let serial = read_i64(dr)?;
        Ok(ServerMessage::Call { tt, cmd: call_cmd, serial })
    } else if cmd == 2500 {
        let serial = read_i64(dr)?;
        Ok(ServerMessage::Reply { serial })
    } else {
        Ok(ServerMessage::Unknown(cmd))
    }
}

/// What the client does about one packet from its server.
pub enum ClientAction {
    /// The handshake succeeded: switch to mode 1 where asked, send the
    /// session-id request, and where the connect has not been answered yet,
    /// run the connect handler and answer the connect.
    Accept { switch_to_mode_one: bool, notify_connected: bool },
    /// The handshake failed: answer the connect with the reason where it has
    /// not been answered yet, and stop reading.
    Refuse { msg: String, notify: bool },
    /// Keep the session id.
    StoreSession(i64),
    /// Run the controller for the call; send its outcome back where `reply`.
    Execute { tt: u8, cmd: i32, serial: i64, reply: bool },
    /// Hand the answer with this serial to the call that waits for it.
    Deliver(i64),
    /// An unknown command: stop reading.
    Stop(i32),
    /// A call type that does not exist: the read loop ends with an error.
    BadCallType(u8),
}

/// The state of the read loop of one connection: whether the connect still
/// waits for its answer.
pub struct ReadLoop {
    pub connect_pending: bool,
}

impl ReadLoop {
    /// A read loop whose connect waits for its answer.
    pub fn new() -> (l: ReadLoop)
        ensures
            l.connect_pending,
    {
        ReadLoop { connect_pending: true }
    }

    /// Decides what to do about `msg`. The connect is answered once, on the
    /// first handshake answer: once answered, it stays answered.
    pub fn step(&mut self, msg: ServerMessage) -> (a: ClientAction)
        ensures
            !old(self).connect_pending ==> !final(self).connect_pending,
            match msg {
                ServerMessage::Verified { msg: _, mode_one } => a == (ClientAction::Accept {
                    switch_to_mode_one: mode_one,
                    notify_connected: old(self).connect_pending,
                }) && !final(self).connect_pending,
                ServerMessage::Refused { msg } => a == (ClientAction::Refuse {
                    msg,
                    notify: old(self).connect_pending,
                }) && !final(self).connect_pending,
                ServerMessage::SessionId(id) => a == ClientAction::StoreSession(id) && *final(self) == *old(self),
                ServerMessage::Call { tt, cmd, serial } => (if tt == 0 || tt == 1 || tt == 2 {
                    a == (ClientAction::Execute { tt, cmd, serial, reply: tt != 0 })
                } else {
                    a == ClientAction::BadCallType(tt)
                }) && *final(self) == *old(self),
                ServerMessage::Reply { serial } => a == ClientAction::Deliver(serial) && *final(self) == *old(self),
                ServerMessage::Unknown(c) => a == ClientAction::Stop(c) && *final(self) == *old(self),
            },
    {
        match msg {
            ServerMessage::Verified { msg: _, mode_one } => {
                let notify = self.connect_pending;
                self.connect_pending = false;
                ClientAction::Accept { switch_to_mode_one: mode_one, notify_connected: notify }
            },
            ServerMessage::Refused { msg } => {
                let notify = self.connect_pending;
                self.connect_pending = false;
                ClientAction::Refuse { msg, notify }
            },
            ServerMessage::SessionId(id) => ClientAction::StoreSession(id),
            ServerMessage::Call { tt, cmd, serial } => {
                if tt == 0 || tt == 1 || tt == 2 {
                    ClientAction::Execute { tt, cmd, serial, reply: tt != 0 }
                } else {
                    ClientAction::BadCallType(tt)
                }
            },
            ServerMessage::Reply { serial } => ClientAction::Deliver(serial),
            ServerMessage::Unknown(c) => ClientAction::Stop(c),
        }
    }
}

} // verus!
