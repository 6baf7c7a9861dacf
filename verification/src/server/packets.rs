//! The packets a server sends. Each goes behind a `u32` that counts its
//! bytes and itself: the packet is written behind a placeholder, which is
//! then overwritten with the length.
use data_rw::Data;
use vstd::prelude::*;

use crate::codec::{bool_byte, i32_le, i64_le, len_prefixed, u32_le};
use crate::client::packets::{call_header_bytes, CMD_CALL, CMD_RESULT, CMD_SESSION, CMD_VERIFY};
use crate::protocol::{args_view, outcome_bytes, write_outcome};
use crate::server::result::RetResult;
use crate::wire::{
    data_bytes, data_len, data_new, data_with_capacity, put_u32_le_front, write_bool, write_i32,
    write_i64, write_str, write_u32, write_u8,
};

verus! {

/// A packet behind the `u32` that counts its bytes and the four of itself.
pub open spec fn sealed(body: Seq<u8>) -> Seq<u8> {
    u32_le((body.len() + 4) as u32) + body
}

/// The answer to a call of a client: the command, the serial of the call and
/// the outcome.
pub open spec fn result_body_bytes(serial: i64, r: RetResult) -> Seq<u8> {
    u32_le(CMD_RESULT) + i64_le(serial) + outcome_bytes(
        r.is_error,
        r.error_id,
        r.msg@,
        args_view(r.arguments@),
    )
}

/// The session id a client is given.
pub open spec fn session_id_body_bytes(session_id: i64) -> Seq<u8> {
    i32_le(CMD_SESSION) + i64_le(session_id)
}

/// The answer to a handshake: whether it failed, the message, and a final 1
/// that asks the client for mode 1.
pub open spec fn key_verify_body_bytes(is_err: bool, msg: Seq<char>) -> Seq<u8> {
    i32_le(CMD_VERIFY) + bool_byte(is_err) + len_prefixed(vstd::utf8::encode_utf8(msg)) + seq![1u8]
}

/// Overwrites the placeholder at the front of a packet with its length.
pub fn seal(data: &mut Data)
    requires
        data_bytes(*old(data)).len() >= 4,
    ensures
        data_bytes(*final(data)) == sealed(
            data_bytes(*old(data)).subrange(4, data_bytes(*old(data)).len() as int),
        ),
{
    let len = data_len(data);
    put_u32_le_front(data, len as u32);
    proof {
        let b = data_bytes(*old(data));
        assert(b.subrange(4, b.len() as int).len() + 4 == b.len());
    }
}

/// The answer to a call of a client.
pub fn get_result_buff(serial: i64, result: RetResult) -> (d: Data)
    ensures
        data_bytes(d) == sealed(result_body_bytes(serial, result)),
{
    let mut data = data_with_capacity(1024);
    write_u32(&mut data, 0);
    write_u32(&mut data, CMD_RESULT);
    write_i64(&mut data, serial);
    write_outcome(&mut data, result.is_error, result.error_id, &result.msg, &result.arguments);
    proof {
        assert(data_bytes(data).subrange(4, data_bytes(data).len() as int) =~= result_body_bytes(
            serial,
            result,
        ));
    }
    seal(&mut data);
    data
}

/// The packet that gives a client its session id.
pub fn session_id_buff(session_id: i64) -> (d: Data)
    ensures
        data_bytes(d) == sealed(session_id_body_bytes(session_id)),
{
    let mut data = data_new();
    write_u32(&mut data, 0);
    write_i32(&mut data, CMD_SESSION);
    write_i64(&mut data, session_id);
    proof {
        assert(data_bytes(data).subrange(4, data_bytes(data).len() as int) =~= session_id_body_bytes(
            session_id,
        ));
    }
    seal(&mut data);
    data
}

/// The answer to a handshake.
pub fn key_verify_buff(is_err: bool, msg: &str) -> (d: Data)
    ensures
        data_bytes(d) == sealed(key_verify_body_bytes(is_err, msg@)),
{
    let mut data = data_new();
    write_u32(&mut data, 0);
    write_i32(&mut data, CMD_VERIFY);
    write_bool(&mut data, is_err);
    write_str(&mut data, msg);
    write_u8(&mut data, 1);
    proof {
        assert(data_bytes(data).subrange(4, data_bytes(data).len() as int) =~= key_verify_body_bytes(
            is_err,
            msg@,
        ));
    }
    seal(&mut data);
    data
}

/// The start of a call to a client: the length placeholder and the header;
/// the caller appends the packed arguments and then seals the packet.
pub fn call_peer_header(tt: u8, cmd: i32, serial: i64, args_count: i32) -> (d: Data)
    ensures
        data_bytes(d) == u32_le(0) + call_header_bytes(tt, cmd, serial, args_count),
{
    let mut data = data_with_capacity(128);
    write_u32(&mut data, 0);
    write_u32(&mut data, CMD_CALL);
    write_u8(&mut data, tt);
    write_i32(&mut data, cmd);
    write_i64(&mut data, serial);
    write_i32(&mut data, args_count);
    proof {
        assert(data_bytes(data) =~= u32_le(0) + call_header_bytes(tt, cmd, serial, args_count));
    }
    data
}

} // verus!
