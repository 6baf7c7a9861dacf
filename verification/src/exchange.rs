//! What each side reads of what the other side writes: the packets of the
//! server as the client reads them, and those of the client as the server
//! reads them.
use vstd::prelude::*;

use crate::client::packets::{call_header_bytes, framed, verify_bytes};
use crate::client::reading::{parse_server_message, ServerMessageSpec};
use crate::codec::{i32_from_le, i32_le, i64_from_le, i64_le, lemma_i32_roundtrip, lemma_i64_roundtrip, lemma_u32_roundtrip, u32_from_le, u32_le};
use crate::protocol::{args_fit, args_view, law_outcome_roundtrip, outcome_bytes, parse_outcome};
use crate::server::handshake::{after_text, parse_verify_request};
use crate::server::packets::{key_verify_body_bytes, sealed, session_id_body_bytes};
use crate::server::reading::{parse_client_message, ClientMessage};

verus! {

proof fn lemma_command_u32_as_i32(c: u32)
    requires
        c <= 0x7fff_ffff,
    ensures
        i32_from_le(u32_le(c)) == c as int,
{
    lemma_u32_roundtrip(c);
    assert(c <= 0x7fff_ffff ==> (c as i32) as int == c as int) by (bit_vector);
}

/// Law: the length field of a framed or sealed packet counts the packet and
/// the four bytes of the field, so the reader takes exactly the body.
pub proof fn law_length_field(mode: u8, body: Seq<u8>)
    requires
        mode != 0,
        body.len() + 4 <= u32::MAX,
    ensures
        framed(mode, body) == sealed(body),
        u32_from_le(sealed(body)) == body.len() + 4,
        sealed(body).subrange(4, sealed(body).len() as int) == body,
{
    lemma_u32_roundtrip((body.len() + 4) as u32);
    assert(u32_from_le(sealed(body)) == u32_from_le(u32_le((body.len() + 4) as u32)));
    assert(sealed(body).subrange(4, sealed(body).len() as int) =~= body);
}

/// Law: a client's answer to a call, in any mode but 0, and the server's answer
/// to a call with the same serial and the same outcome are the same bytes.
pub proof fn law_result_packets_agree(
    mode: u8,
    serial: i64,
    c: crate::client::result::RetResult,
    s: crate::server::result::RetResult,
)
    requires
        mode != 0,
        c.is_error == s.is_error,
        c.error_id == s.error_id,
        c.msg@ == s.msg@,
        args_view(c.arguments@) == args_view(s.arguments@),
    ensures
        framed(mode, crate::client::packets::result_body_bytes(serial, c)) == sealed(
            crate::server::packets::result_body_bytes(serial, s),
        ),
{
    assert(crate::client::packets::result_body_bytes(serial, c) =~= crate::server::packets::result_body_bytes(
        serial,
        s,
    ));
}

/// Law: the client reads the server's answer to its handshake as it was
/// meant: a refusal with its message, or an acceptance with its message that
/// asks for mode 1.
pub proof fn law_handshake_answer_read(is_err: bool, msg: Seq<char>)
    requires
        vstd::utf8::encode_utf8(msg).len() <= u32::MAX,
    ensures
        parse_server_message(key_verify_body_bytes(is_err, msg)) == Some(
            (
                if is_err {
                    ServerMessageSpec::Refused { msg }
                } else {
                    ServerMessageSpec::Verified { msg, mode_one: true }
                },
                if is_err {
                    key_verify_body_bytes(is_err, msg).len() - 1
                } else {
                    key_verify_body_bytes(is_err, msg).len() as int
                } as nat,
            ),
        ),
{
    let b = key_verify_body_bytes(is_err, msg);
    let enc = vstd::utf8::encode_utf8(msg);
    lemma_i32_roundtrip(1000);
    assert(i32_from_le(b) == i32_from_le(i32_le(1000)));
    let r = b.subrange(4, b.len() as int);
    let r2 = r.subrange(1, r.len() as int);
    assert(r2 =~= u32_le(enc.len() as u32) + enc + seq![1u8]);
    lemma_u32_roundtrip(enc.len() as u32);
    assert(u32_from_le(r2) == u32_from_le(u32_le(enc.len() as u32)));
    assert(r2.subrange(4, 4 + u32_from_le(r2)) =~= enc);
    vstd::utf8::encode_utf8_valid_utf8(msg);
    vstd::utf8::encode_utf8_decode_utf8(msg);
    let r3 = r2.subrange(4 + enc.len() as int, r2.len() as int);
    assert(r3 =~= seq![1u8]);
}

/// Law: the server reads the client's handshake as it was written: the
/// verify command, the service name, the key and the session id.
pub proof fn law_verify_request_read(service_name: Seq<char>, verify_key: Seq<char>, session_id: i64)
    requires
        vstd::utf8::encode_utf8(service_name).len() <= u32::MAX,
        vstd::utf8::encode_utf8(verify_key).len() <= u32::MAX,
    ensures
        parse_verify_request(verify_bytes(service_name, verify_key, session_id)) == Some(
            (1000i32, service_name, verify_key, session_id),
        ),
{
    let b = verify_bytes(service_name, verify_key, session_id);
    let e1 = vstd::utf8::encode_utf8(service_name);
    let e2 = vstd::utf8::encode_utf8(verify_key);
    lemma_i32_roundtrip(1000);
    assert(b.subrange(0, 4) =~= i32_le(1000));
    assert(i32_from_le(b) == i32_from_le(i32_le(1000)));
    let r1 = b.subrange(4, b.len() as int);
    assert(r1 =~= u32_le(e1.len() as u32) + e1 + (u32_le(e2.len() as u32) + e2 + i64_le(session_id)));
    lemma_u32_roundtrip(e1.len() as u32);
    assert(u32_from_le(r1) == u32_from_le(u32_le(e1.len() as u32)));
    assert(r1.subrange(4, 4 + u32_from_le(r1)) =~= e1);
    vstd::utf8::encode_utf8_valid_utf8(service_name);
    vstd::utf8::encode_utf8_decode_utf8(service_name);
    let r2 = after_text(r1);
    assert(r2 =~= u32_le(e2.len() as u32) + e2 + i64_le(session_id));
    lemma_u32_roundtrip(e2.len() as u32);
    assert(u32_from_le(r2) == u32_from_le(u32_le(e2.len() as u32)));
    assert(r2.subrange(4, 4 + u32_from_le(r2)) =~= e2);
    vstd::utf8::encode_utf8_valid_utf8(verify_key);
    vstd::utf8::encode_utf8_decode_utf8(verify_key);
    let r3 = after_text(r2);
    assert(r3 =~= i64_le(session_id));
    lemma_i64_roundtrip(session_id);
}

/// Law: the client reads the session id the server sends.
pub proof fn law_session_id_read(session_id: i64)
    ensures
        parse_server_message(session_id_body_bytes(session_id)) == Some(
            (ServerMessageSpec::SessionId(session_id), 12nat),
        ),
{
    let b = session_id_body_bytes(session_id);
    lemma_i32_roundtrip(2000);
    lemma_i64_roundtrip(session_id);
    assert(i32_from_le(b) == i32_from_le(i32_le(2000)));
    assert(b.subrange(4, b.len() as int) =~= i64_le(session_id));
}

/// Law: each side reads the header of the other side's calls as it was
/// written, whatever arguments follow.
pub proof fn law_call_header_read(tt: u8, cmd: i32, serial: i64, args_count: i32, args: Seq<u8>)
    ensures
        parse_server_message(call_header_bytes(tt, cmd, serial, args_count) + args) == Some(
            (ServerMessageSpec::Call { tt, cmd, serial }, 17nat),
        ),
        parse_client_message(call_header_bytes(tt, cmd, serial, args_count) + args) == Some(
            (ClientMessage::Call { tt, cmd, serial }, 17nat),
        ),
{
    let b = call_header_bytes(tt, cmd, serial, args_count) + args;
    lemma_command_u32_as_i32(2400);
    assert(b.subrange(0, 4) =~= u32_le(2400));
    assert(i32_from_le(b) == i32_from_le(u32_le(2400)));
    let r = b.subrange(4, b.len() as int);
    lemma_i32_roundtrip(cmd);
    lemma_i64_roundtrip(serial);
    assert(r[0] == tt);
    assert(r.subrange(1, r.len() as int).subrange(0, 4) =~= i32_le(cmd));
    assert(i32_from_le(r.subrange(1, r.len() as int)) == i32_from_le(i32_le(cmd)));
    assert(r.subrange(5, r.len() as int).subrange(0, 8) =~= i64_le(serial));
    assert(i64_from_le(r.subrange(5, r.len() as int)) == i64_from_le(i64_le(serial)));
}

/// The abstract outcome a reader gets back from an outcome that was written.
pub open spec fn outcome_read_back(is_error: bool, error_id: i32, msg: Seq<char>, args: Seq<Seq<u8>>) -> Option<(bool, i32, Seq<char>, Seq<Seq<u8>>)> {
    if is_error {
        Some((true, error_id, msg, Seq::<Seq<u8>>::empty()))
    } else {
        Some((false, 0i32, Seq::<char>::empty(), args))
    }
}

/// Law: each side reads the other side's answer to a call as it was written:
/// the serial of the call, then the outcome (see `law_outcome_roundtrip`).
pub proof fn law_answer_read(serial: i64, is_error: bool, error_id: i32, msg: Seq<char>, args: Seq<Seq<u8>>)
    requires
        vstd::utf8::encode_utf8(msg).len() <= u32::MAX,
        args.len() <= i32::MAX,
        args_fit(args),
    ensures
        ({
            let b = u32_le(2500) + i64_le(serial) + outcome_bytes(is_error, error_id, msg, args);
            &&& parse_server_message(b) == Some((ServerMessageSpec::Reply { serial }, 12nat))
            &&& parse_client_message(b) == Some((ClientMessage::Reply { serial }, 12nat))
            &&& parse_outcome(b.subrange(12, b.len() as int)) == outcome_read_back(
                is_error,
                error_id,
                msg,
                args,
            )
        }),
{
    let o = outcome_bytes(is_error, error_id, msg, args);
    let b = u32_le(2500) + i64_le(serial) + o;
    lemma_command_u32_as_i32(2500);
    assert(b.subrange(0, 4) =~= u32_le(2500));
    assert(i32_from_le(b) == i32_from_le(u32_le(2500)));
    lemma_i64_roundtrip(serial);
    let r = b.subrange(4, b.len() as int);
    assert(r.subrange(0, 8) =~= i64_le(serial));
    assert(i64_from_le(r) == i64_from_le(i64_le(serial)));
    assert(b.subrange(12, b.len() as int) =~= o + Seq::<u8>::empty());
    law_outcome_roundtrip(is_error, error_id, msg, args, Seq::<u8>::empty());
}

} // verus!
