//! The byte buffers of `data_rw` that packets are written into and read from.
//!
//! `Data` is a growable write buffer and `DataOwnedReader` an owned buffer with
//! a read position. Both are opaque here: what the logic needs of them is named
//! below (`data_bytes`, `reader_bytes`, `reader_offset`) and every operation the
//! library uses goes through one trusted wrapper whose contract says what the
//! operation does to those names, as `data_rw` 1.6.4 implements it (fixed-size
//! numbers little-endian, byte strings and text behind a `u32` length).
use bytes::BufMut;
use anyhow::Error as AnyhowError;
use data_rw::{Data, DataOwnedReader};
use vstd::prelude::*;

use crate::codec::{bool_byte, i32_from_le, i32_le, i64_from_le, i64_le, len_prefixed, u32_from_le, u32_le};

verus! {

#[verifier::external_type_specification]
#[verifier::external_body]
pub struct ExData(Data);

#[verifier::external_type_specification]
#[verifier::external_body]
pub struct ExDataOwnedReader(DataOwnedReader);

#[verifier::external_type_specification]
#[verifier::external_body]
pub struct ExAnyhowError(AnyhowError);

/// The bytes written so far into a `Data`.
pub uninterp spec fn data_bytes(d: Data) -> Seq<u8>;

/// All bytes held by a `DataOwnedReader`, read or not.
pub uninterp spec fn reader_bytes(r: DataOwnedReader) -> Seq<u8>;

/// How many bytes of a `DataOwnedReader` have been read.
pub uninterp spec fn reader_offset(r: DataOwnedReader) -> nat;

/// A reader whose read position lies within its bytes.
pub open spec fn reader_wf(r: DataOwnedReader) -> bool {
    reader_offset(r) <= reader_bytes(r).len()
}

/// The bytes of a reader that are still to be read.
pub open spec fn reader_rest(r: DataOwnedReader) -> Seq<u8> {
    reader_bytes(r).subrange(reader_offset(r) as int, reader_bytes(r).len() as int)
}

/// A read of `n` bytes moved the position of `r` from `old` by `n`, bytes unchanged.
pub open spec fn advanced(old: DataOwnedReader, new: DataOwnedReader, n: nat) -> bool {
    &&& reader_bytes(new) == reader_bytes(old)
    &&& reader_offset(new) == reader_offset(old) + n
}

/// A failed read left `r` where it was.
pub open spec fn unmoved(old: DataOwnedReader, new: DataOwnedReader) -> bool {
    &&& reader_bytes(new) == reader_bytes(old)
    &&& reader_offset(new) == reader_offset(old)
}

/// `Data::with_capacity`: an empty buffer.
#[verifier::external_body]
pub(crate) fn data_with_capacity(cap: usize) -> (d: Data)
    ensures
        data_bytes(d) == Seq::<u8>::empty(),
{
    Data::with_capacity(cap)
}

/// `Data::new`: an empty buffer.
#[verifier::external_body]
pub(crate) fn data_new() -> (d: Data)
    ensures
        data_bytes(d) == Seq::<u8>::empty(),
{
    Data::new()
}

/// `Data::write_fixed` on an `i32`: appends its four little-endian bytes.
#[verifier::external_body]
pub(crate) fn write_i32(d: &mut Data, v: i32)
    ensures
        data_bytes(*final(d)) == data_bytes(*old(d)) + i32_le(v),
{
    d.write_fixed(v)
}

/// `Data::write_fixed` on a `u32`: appends its four little-endian bytes.
#[verifier::external_body]
pub(crate) fn write_u32(d: &mut Data, v: u32)
    ensures
        data_bytes(*final(d)) == data_bytes(*old(d)) + u32_le(v),
{
    d.write_fixed(v)
}

/// `Data::write_fixed` on an `i64`: appends its eight little-endian bytes.
#[verifier::external_body]
pub(crate) fn write_i64(d: &mut Data, v: i64)
    ensures
        data_bytes(*final(d)) == data_bytes(*old(d)) + i64_le(v),
{
    d.write_fixed(v)
}

/// `Data::write_fixed` on a `u8`: appends the byte.
#[verifier::external_body]
pub(crate) fn write_u8(d: &mut Data, v: u8)
    ensures
        data_bytes(*final(d)) == data_bytes(*old(d)).push(v),
{
    d.write_fixed(v)
}

/// `Data::write_fixed` on a `bool`: appends 1 for `true`, 0 for `false`.
#[verifier::external_body]
pub(crate) fn write_bool(d: &mut Data, v: bool)
    ensures
        data_bytes(*final(d)) == data_bytes(*old(d)) + bool_byte(v),
{
    d.write_fixed(v)
}

/// `Data::write_fixed` on a `&str`: appends the length of its UTF-8 bytes as a
/// `u32`, then those bytes.
#[verifier::external_body]
pub(crate) fn write_str(d: &mut Data, v: &str)
    ensures
        data_bytes(*final(d)) == data_bytes(*old(d)) + len_prefixed(vstd::utf8::encode_utf8(v@)),
{
    d.write_fixed(v)
}

/// `Data::write_fixed` on a byte vector: appends its length as a `u32`, then its bytes.
#[verifier::external_body]
pub(crate) fn write_byte_string(d: &mut Data, v: &Vec<u8>)
    ensures
        data_bytes(*final(d)) == data_bytes(*old(d)) + len_prefixed(v@),
{
    d.write_fixed(v)
}

/// `Data::write_buf`: appends the bytes as they are.
#[verifier::external_body]
pub(crate) fn write_raw(d: &mut Data, v: &[u8])
    ensures
        data_bytes(*final(d)) == data_bytes(*old(d)) + v@,
{
    d.write_buf(v)
}

/// The length of a `Data` (through its `Vec<u8>`).
#[verifier::external_body]
pub(crate) fn data_len(d: &Data) -> (n: usize)
    ensures
        n == data_bytes(*d).len(),
{
    d.len()
}

/// `BufMut::put_u32_le` on the first four bytes of a `Data`: overwrites them
/// with the little-endian bytes of `v`. It panics on a buffer shorter than four.
#[verifier::external_body]
pub(crate) fn put_u32_le_front(d: &mut Data, v: u32)
    requires
        data_bytes(*old(d)).len() >= 4,
    ensures
        data_bytes(*final(d)) == u32_le(v) + data_bytes(*old(d)).subrange(
            4,
            data_bytes(*old(d)).len() as int,
        ),
{
    (&mut d[0..4]).put_u32_le(v)
}

/// `Data::into_inner`: the written bytes.
#[verifier::external_body]
pub(crate) fn data_into_inner(d: Data) -> (v: Vec<u8>)
    ensures
        v@ == data_bytes(d),
{
    d.into_inner()
}

/// The number of bytes a reader holds (through its `[u8]`).
#[verifier::external_body]
pub(crate) fn reader_len(r: &DataOwnedReader) -> (n: usize)
    ensures
        n == reader_bytes(*r).len(),
{
    r.len()
}

/// `DataOwnedReader::get_offset`.
#[verifier::external_body]
pub(crate) fn reader_get_offset(r: &DataOwnedReader) -> (n: usize)
    ensures
        n == reader_offset(*r),
{
    r.get_offset()
}

/// `DataOwnedReader::read_fixed::<u8>`: the next byte, if there is one.
#[verifier::external_body]
pub(crate) fn read_u8(r: &mut DataOwnedReader) -> (res: Result<u8, anyhow::Error>)
    requires
        reader_wf(*old(r)),
    ensures
        res is Ok <==> reader_rest(*old(r)).len() >= 1,
        res matches Ok(v) ==> v == reader_rest(*old(r))[0] && advanced(*old(r), *final(r), 1),
        res is Err ==> unmoved(*old(r), *final(r)),
{
    r.read_fixed::<u8>()
}

/// `DataOwnedReader::read_fixed::<bool>`: the next byte, `true` unless it is 0.
#[verifier::external_body]
pub(crate) fn read_bool(r: &mut DataOwnedReader) -> (res: Result<bool, anyhow::Error>)
    requires
        reader_wf(*old(r)),
    ensures
        res is Ok <==> reader_rest(*old(r)).len() >= 1,
        res matches Ok(v) ==> v == (reader_rest(*old(r))[0] != 0) && advanced(
            *old(r),
            *final(r),
            1,
        ),
        res is Err ==> unmoved(*old(r), *final(r)),
{
    r.read_fixed::<bool>()
}

/// `DataOwnedReader::read_fixed::<i32>`: the next four bytes, little-endian.
#[verifier::external_body]
pub(crate) fn read_i32(r: &mut DataOwnedReader) -> (res: Result<i32, anyhow::Error>)
    requires
        reader_wf(*old(r)),
    ensures
        res is Ok <==> reader_rest(*old(r)).len() >= 4,
        res matches Ok(v) ==> v == i32_from_le(reader_rest(*old(r))) && advanced(
            *old(r),
            *final(r),
            4,
        ),
        res is Err ==> unmoved(*old(r), *final(r)),
{
    r.read_fixed::<i32>()
}

/// `DataOwnedReader::read_fixed::<i64>`: the next eight bytes, little-endian.
#[verifier::external_body]
pub(crate) fn read_i64(r: &mut DataOwnedReader) -> (res: Result<i64, anyhow::Error>)
    requires
        reader_wf(*old(r)),
    ensures
        res is Ok <==> reader_rest(*old(r)).len() >= 8,
        res matches Ok(v) ==> v == i64_from_le(reader_rest(*old(r))) && advanced(
            *old(r),
            *final(r),
            8,
        ),
        res is Err ==> unmoved(*old(r), *final(r)),
{
    r.read_fixed::<i64>()
}

/// The unread bytes of `rest` hold a `u32` length `n` followed by at least `n` bytes.
pub open spec fn has_len_prefixed(rest: Seq<u8>) -> bool {
    rest.len() >= 4 && u32_from_le(rest) <= rest.len() - 4
}

/// The `n` bytes behind the length of a length-prefixed byte string.
pub open spec fn len_prefixed_body(rest: Seq<u8>) -> Seq<u8> {
    rest.subrange(4, 4 + u32_from_le(rest))
}

/// `DataOwnedReader::read_fixed_buf`: a `u32` length, then that many bytes.
#[verifier::external_body]
pub(crate) fn read_byte_string(r: &mut DataOwnedReader) -> (res: Result<Vec<u8>, anyhow::Error>)
    requires
        reader_wf(*old(r)),
    ensures
        res is Ok <==> has_len_prefixed(reader_rest(*old(r))),
        res matches Ok(v) ==> v@ == len_prefixed_body(reader_rest(*old(r))) && advanced(
            *old(r),
            *final(r),
            4 + v@.len(),
        ),
        res is Err ==> unmoved(*old(r), *final(r)),
{
    r.read_fixed_buf().map(|b| b.to_vec())
}

/// `DataOwnedReader::read_fixed_str` (with `data_rw`'s `check_utf8`): a `u32`
/// length, then that many bytes, which must be UTF-8; the text they encode.
#[verifier::external_body]
pub(crate) fn read_text(r: &mut DataOwnedReader) -> (res: Result<String, anyhow::Error>)
    requires
        reader_wf(*old(r)),
    ensures
        res is Ok <==> has_len_prefixed(reader_rest(*old(r))) && vstd::utf8::valid_utf8(
            len_prefixed_body(reader_rest(*old(r))),
        ),
        res matches Ok(s) ==> vstd::utf8::encode_utf8(s@) == len_prefixed_body(
            reader_rest(*old(r)),
        ) && advanced(*old(r), *final(r), 4 + len_prefixed_body(reader_rest(*old(r))).len()),
        res is Err ==> unmoved(*old(r), *final(r)),
{
    r.read_fixed_str().map(|s| s.to_string())
}

#[verifier::external_type_specification]
#[verifier::external_body]
pub struct ExIoError(std::io::Error);

/// `anyhow::Error::msg`: an error that carries the given message.
#[verifier::external_body]
pub(crate) fn anyhow_msg(msg: &str) -> anyhow::Error {
    anyhow::Error::msg(msg.to_string())
}

/// `std::io::Error::new` with `ErrorKind::Other` and the given message.
#[verifier::external_body]
pub(crate) fn io_error_other(msg: &str) -> std::io::Error {
    std::io::Error::new(std::io::ErrorKind::Other, msg.to_string())
}

#[verifier::external_type_specification]
#[verifier::external_body]
#[verifier::reject_recursive_types(T)]
pub struct ExOneshotSender<T>(oneshot::Sender<T>);

/// `oneshot::Sender::send`: hands `value` to the waiting receiver; `false`
/// where the receiver is already gone. Which of the two happens depends on
/// the receiving side, so nothing is promised of it.
#[verifier::external_body]
pub(crate) fn send_once<T>(tx: oneshot::Sender<T>, value: T) -> bool {
    tx.send(value).is_ok()
}

} // verus!
