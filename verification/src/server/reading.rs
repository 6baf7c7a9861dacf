//! What a server makes of the packets a client sends once the handshake is
//! done: reading one packet, and deciding what to do about it.
use data_rw::DataOwnedReader;
use vstd::prelude::*;

use crate::codec::{i32_from_le, i64_from_le};
use crate::wire::{read_i32, read_i64, read_u8, reader_bytes, reader_offset, reader_rest, reader_wf};

verus! {

/// A packet from a client, as far as its header goes; the arguments of a call
/// and the outcome of an answer stay unread behind it.
pub enum ClientMessage {
    /// The client asks for its session id.
    SessionRequest,
    /// A call of one of the server's methods.
    Call { tt: u8, cmd: i32, serial: i64 },
    /// The answer to the server's call with this serial.
    Reply { serial: i64 },
    /// A command the server does not know.
    Unknown(i32),
}

/// Reading a client packet from the front of `rest`: the message and the
/// number of bytes it took, or `None` where the bytes run out.
pub open spec fn parse_client_message(rest: Seq<u8>) -> Option<(ClientMessage, nat)> {
    if rest.len() < 4 {
        None
    } else {
        let cmd = i32_from_le(rest);
        let r = rest.subrange(4, rest.len() as int);
        if cmd == 2000 {
            Some((ClientMessage::SessionRequest, 4))
        } else if cmd == 2400 {
            if r.len() < 13 {
                None
            } else {
                Some(
                    (
                        ClientMessage::Call {
                            tt: r[0],
                            cmd: i32_from_le(r.subrange(1, r.len() as int)),
                            serial: i64_from_le(r.subrange(5, r.len() as int)),
                        },
                        17,
                    ),
                )
            }
        } else if cmd == 2500 {
            if r.len() < 8 {
                None
            } else {
                Some((ClientMessage::Reply { serial: i64_from_le(r) }, 12))
            }
        } else {
            Some((ClientMessage::Unknown(cmd), 4))
        }
    }
}

/// Reads the header of one client packet from the unread bytes of `dr`,
/// leaving the rest of the packet unread (see `parse_client_message`).
pub fn read_client_message(dr: &mut DataOwnedReader) -> (res: Result<ClientMessage, anyhow::Error>)
    requires
        reader_wf(*old(dr)),
    ensures
        reader_wf(*final(dr)),
        reader_bytes(*final(dr)) == reader_bytes(*old(dr)),
        res is Ok <==> parse_client_message(reader_rest(*old(dr))) is Some,
        res matches Ok(m) ==> {
            let (spec_m, used) = parse_client_message(reader_rest(*old(dr))).unwrap();
            &&& m == spec_m
            &&& reader_offset(*final(dr)) == reader_offset(*old(dr)) + used
        },
{
    let ghost rest = reader_rest(*dr);
    let cmd = read_i32(dr)?;
    let ghost r = rest.subrange(4, rest.len() as int);
    assert(reader_rest(*dr) =~= r);
    if cmd == 2000 {
        Ok(ClientMessage::SessionRequest)
    } else if cmd == 2400 {
        let tt = read_u8(dr)?;
        assert(reader_rest(*dr) =~= r.subrange(1, r.len() as int));
        let call_cmd = read_i32(dr)?;
        assert(reader_rest(*dr) =~= r.subrange(5, r.len() as int));
        let serial = read_i64(dr)?;
        Ok(ClientMessage::Call { tt, cmd: call_cmd, serial })
    } else if cmd == 2500 {
        let serial = read_i64(dr)?;
        Ok(ClientMessage::Reply { serial })
    } else {
        Ok(ClientMessage::Unknown(cmd))
    }
}

/// What the server does about one packet from a client.
pub enum ServerAction {
    /// Send the client its session id.
    SendSessionId,
    /// Run the controller for the call; send its outcome back where `reply`.
    Execute { tt: u8, cmd: i32, serial: i64, reply: bool },
    /// A call type that does not exist: note it and read on.
    BadCallType(u8),
    /// Hand the answer with this serial to the call that waits for it.
    Deliver(i64),
    /// An unknown command: note it and read on.
    Unknown(i32),
}

/// Decides what to do about a packet from a client.
pub fn decide(msg: ClientMessage) -> (a: ServerAction)
    ensures
        match msg {
            ClientMessage::SessionRequest => a == ServerAction::SendSessionId,
            ClientMessage::Call { tt, cmd, serial } => if tt == 0 || tt == 1 || tt == 2 {
                a == (ServerAction::Execute { tt, cmd, serial, reply: tt != 0 })
            } else {
                a == ServerAction::BadCallType(tt)
            },
            ClientMessage::Reply { serial } => a == ServerAction::Deliver(serial),
            ClientMessage::Unknown(c) => a == ServerAction::Unknown(c),
        },
{
    match msg {
        ClientMessage::SessionRequest => ServerAction::SendSessionId,
        ClientMessage::Call { tt, cmd, serial } => {
            if tt == 0 || tt == 1 || tt == 2 {
                ServerAction::Execute { tt, cmd, serial, reply: tt != 0 }
            } else {
                ServerAction::BadCallType(tt)
            }
        },
        ClientMessage::Reply { serial } => ServerAction::Deliver(serial),
        ClientMessage::Unknown(c) => ServerAction::Unknown(c),
    }
}

} // verus!
