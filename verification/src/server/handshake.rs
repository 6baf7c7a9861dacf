//! The server's side of the handshake: a client first sends the verify
//! command, its service name, its key and the session id it wants to take
//! up; the server checks them in that order and answers with a message.
use data_rw::DataOwnedReader;
use vstd::prelude::*;

use crate::codec::{i32_from_le, i64_from_le};
use crate::server::option::ServerOption;
use crate::wire::{
    has_len_prefixed, len_prefixed_body, read_i32, read_i64, read_text, reader_bytes,
    reader_offset, reader_rest, reader_wf,
};

verus! {

/// Why the server refused a handshake.
#[derive(PartialEq, Eq, Structural)]
pub enum Refusal {
    /// The first command was not the verify command.
    NotVerifyCommand,
    /// The service name does not match.
    ServiceName,
    /// The key does not match.
    VerifyKey,
}

/// Whether the first command of a connection is the verify command.
pub fn check_command(cmd: i32) -> (res: Result<(), Refusal>)
    ensures
        res is Ok <==> cmd == 1000,
        res is Err ==> res == Err::<(), Refusal>(Refusal::NotVerifyCommand),
{
    if cmd != 1000 {
        Err(Refusal::NotVerifyCommand)
    } else {
        Ok(())
    }
}

/// Whether the client's service name is accepted: any name where the server
/// names no service, else only its own.
pub fn check_service_name(option: &ServerOption, name: &String) -> (res: Result<(), Refusal>)
    ensures
        res is Ok <==> option.service_name@.len() == 0 || name@ == option.service_name@,
        res is Err ==> res == Err::<(), Refusal>(Refusal::ServiceName),
{
    if !option.service_name.as_str().is_empty() && *name != option.service_name {
        Err(Refusal::ServiceName)
    } else {
        Ok(())
    }
}

/// Whether the client's key is accepted: any key where the server sets none,
/// else only its own.
pub fn check_verify_key(option: &ServerOption, password: &String) -> (res: Result<(), Refusal>)
    ensures
        res is Ok <==> option.verify_key@.len() == 0 || password@ == option.verify_key@,
        res is Err ==> res == Err::<(), Refusal>(Refusal::VerifyKey),
{
    if !option.verify_key.as_str().is_empty() && *password != option.verify_key {
        Err(Refusal::VerifyKey)
    } else {
        Ok(())
    }
}

/// The message a refused client is sent.
pub fn refusal_message(r: &Refusal) -> (s: &'static str)
    ensures
        *r == Refusal::NotVerifyCommand ==> s@ == "not verify key"@,
        *r == Refusal::ServiceName ==> s@ == "service name error"@,
        *r == Refusal::VerifyKey ==> s@ == "service verify key error"@,
{
    match r {
        Refusal::NotVerifyCommand => "not verify key",
        Refusal::ServiceName => "service name error",
        Refusal::VerifyKey => "service verify key error",
    }
}

/// The message an accepted client is sent.
pub fn accept_message() -> (s: &'static str)
    ensures
        s@ == "verify success"@,
{
    "verify success"
}

/// A handshake as the server reads it.
pub struct VerifyRequest {
    pub cmd: i32,
    pub service_name: String,
    pub verify_key: String,
    pub session_id: i64,
}

/// A `u32` length followed by that many bytes of UTF-8 at the front of `rest`.
pub open spec fn text_field(rest: Seq<u8>) -> bool {
    has_len_prefixed(rest) && vstd::utf8::valid_utf8(len_prefixed_body(rest))
}

/// What follows a text field at the front of `rest`.
pub open spec fn after_text(rest: Seq<u8>) -> Seq<u8> {
    rest.subrange(4 + len_prefixed_body(rest).len() as int, rest.len() as int)
}

/// Reading a handshake from the front of `rest`: the command, the service
/// name, the verify key and the session id; `None` where the bytes run out or
/// a text is not UTF-8.
pub open spec fn parse_verify_request(rest: Seq<u8>) -> Option<(i32, Seq<char>, Seq<char>, i64)> {
    if rest.len() < 4 {
        None
    } else {
        let r1 = rest.subrange(4, rest.len() as int);
        if !text_field(r1) {
            None
        } else {
            let r2 = after_text(r1);
            if !text_field(r2) {
                None
            } else {
                let r3 = after_text(r2);
                if r3.len() < 8 {
                    None
                } else {
                    Some(
                        (
                            i32_from_le(rest),
                            vstd::utf8::decode_utf8(len_prefixed_body(r1)),
                            vstd::utf8::decode_utf8(len_prefixed_body(r2)),
                            i64_from_le(r3),
                        ),
                    )
                }
            }
        }
    }
}

/// Reads a handshake from the unread bytes of `dr` (see `parse_verify_request`).
pub fn read_verify_request(dr: &mut DataOwnedReader) -> (res: Result<VerifyRequest, anyhow::Error>)
    requires
        reader_wf(*old(dr)),
    ensures
        reader_wf(*final(dr)),
        reader_bytes(*final(dr)) == reader_bytes(*old(dr)),
        res is Ok <==> parse_verify_request(reader_rest(*old(dr))) is Some,
        res matches Ok(v) ==> parse_verify_request(reader_rest(*old(dr))) == Some(
            (v.cmd, v.service_name@, v.verify_key@, v.session_id),
        ),
{
    let ghost rest = reader_rest(*dr);
    let cmd = read_i32(dr)?;
    let ghost r1 = rest.subrange(4, rest.len() as int);
    assert(reader_rest(*dr) =~= r1);
    let service_name = read_text(dr)?;
    proof {
        vstd::utf8::encode_utf8_decode_utf8(service_name@);
    }
    let ghost r2 = after_text(r1);
    assert(reader_rest(*dr) =~= r2);
    let verify_key = read_text(dr)?;
    proof {
        vstd::utf8::encode_utf8_decode_utf8(verify_key@);
    }
    let ghost r3 = after_text(r2);
    assert(reader_rest(*dr) =~= r3);
    let session_id = read_i64(dr)?;
    Ok(VerifyRequest { cmd, service_name, verify_key, session_id })
}

} // verus!
