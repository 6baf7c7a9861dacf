//! The packets a client sends: the handshake, the session request, the
//! header of a call, and the answer to a call from the server. In mode 0 a
//! packet goes out as it is; in any other mode it goes behind a `u32` that
//! counts its bytes and itself.
use data_rw::Data;
use vstd::prelude::*;

use crate::client::result::RetResult;
use crate::codec::{i32_le, i64_le, len_prefixed, u32_le};
use crate::protocol::{args_view, outcome_bytes, write_outcome};
use crate::wire::{data_bytes, data_len, data_with_capacity, write_i32, write_i64, write_raw, write_str, write_u32, write_u8};

verus! {

/// Command of the handshake.
pub const CMD_VERIFY: i32 = 1000;
/// Command of the session-id request and answer.
pub const CMD_SESSION: i32 = 2000;
/// Command of a call.
pub const CMD_CALL: u32 = 2400;
/// Command of the answer to a call.
pub const CMD_RESULT: u32 = 2500;

/// The bytes of a packet in the given mode.
pub open spec fn framed(mode: u8, body: Seq<u8>) -> Seq<u8> {
    if mode == 0 {
        body
    } else {
        u32_le((body.len() + 4) as u32) + body
    }
}

/// The handshake: the command, the service name, the verify key and the
/// session id to take up (0 for a new session).
pub open spec fn verify_bytes(service_name: Seq<char>, verify_key: Seq<char>, session_id: i64) -> Seq<u8> {
    i32_le(CMD_VERIFY) + len_prefixed(vstd::utf8::encode_utf8(service_name)) + len_prefixed(
        vstd::utf8::encode_utf8(verify_key),
    ) + i64_le(session_id)
}

/// The request for the session id, in the given mode.
pub open spec fn session_request_bytes(mode: u8) -> Seq<u8> {
    framed(mode, i32_le(CMD_SESSION))
}

/// The answer to a call of the server: the command, the serial of the call
/// and the outcome.
pub open spec fn result_body_bytes(session_id: i64, r: RetResult) -> Seq<u8> {
    u32_le(CMD_RESULT) + i64_le(session_id) + outcome_bytes(
        r.is_error,
        r.error_id,
        r.msg@,
        args_view(r.arguments@),
    )
}

/// The header of a call: command, call type, command tag of the method,
/// serial and number of arguments; the packed arguments follow it.
pub open spec fn call_header_bytes(tt: u8, cmd: i32, serial: i64, args_count: i32) -> Seq<u8> {
    u32_le(CMD_CALL) + seq![tt] + i32_le(cmd) + i64_le(serial) + i32_le(args_count)
}

/// The handshake a client sends first.
pub fn get_verify_buff(service_name: &str, verify_key: &str, session_id: i64) -> (d: Data)
    ensures
        data_bytes(d) == verify_bytes(service_name@, verify_key@, session_id),
{
    let mut data = data_with_capacity(128);
    write_i32(&mut data, CMD_VERIFY);
    write_str(&mut data, service_name);
    write_str(&mut data, verify_key);
    write_i64(&mut data, session_id);
    proof {
        assert(data_bytes(data) =~= verify_bytes(service_name@, verify_key@, session_id));
    }
    data
}

/// The request for the session id.
pub fn get_session_id_buff(mode: u8) -> (d: Data)
    ensures
        data_bytes(d) == session_request_bytes(mode),
{
    let mut buff = data_with_capacity(32);
    write_i32(&mut buff, CMD_SESSION);
    assert(data_bytes(buff) =~= i32_le(CMD_SESSION));
    if mode == 0 {
        buff
    } else {
        frame(mode, buff)
    }
}

/// A packet in the given mode: as it is in mode 0, else behind its length.
pub fn frame(mode: u8, buff: Data) -> (d: Data)
    requires
        data_bytes(buff).len() + 4 <= usize::MAX,
    ensures
        data_bytes(d) == framed(mode, data_bytes(buff)),
{
    if mode == 0 {
        buff
    } else {
        let len = data_len(&buff) + 4;
        let mut data = data_with_capacity(len);
        write_u32(&mut data, len as u32);
        let inner = crate::wire::data_into_inner(buff);
        write_raw(&mut data, inner.as_slice());
        proof {
            assert(data_bytes(data) =~= framed(mode, data_bytes(buff)));
        }
        data
    }
}

/// The answer to a call of the server, in the given mode.
pub fn get_result_buff(session_id: i64, result: RetResult, mode: u8) -> (d: Data)
    requires
        result_body_bytes(session_id, result).len() + 4 <= usize::MAX,
    ensures
        data_bytes(d) == framed(mode, result_body_bytes(session_id, result)),
{
    let mut data = data_with_capacity(1024);
    write_u32(&mut data, CMD_RESULT);
    write_i64(&mut data, session_id);
    write_outcome(&mut data, result.is_error, result.error_id, &result.msg, &result.arguments);
    proof {
        assert(data_bytes(data) =~= result_body_bytes(session_id, result));
    }
    frame(mode, data)
}

/// The header of a call; the caller appends the packed arguments.
pub fn call_header(tt: u8, cmd: i32, serial: i64, args_count: i32) -> (d: Data)
    ensures
        data_bytes(d) == call_header_bytes(tt, cmd, serial, args_count),
{
    let mut data = data_with_capacity(128);
    write_u32(&mut data, CMD_CALL);
    write_u8(&mut data, tt);
    write_i32(&mut data, cmd);
    write_i64(&mut data, serial);
    write_i32(&mut data, args_count);
    proof {
        assert(data_bytes(data) =~= call_header_bytes(tt, cmd, serial, args_count));
    }
    data
}

} // verus!
