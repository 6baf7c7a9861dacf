//! The layout of an outcome inside a result packet, shared by the client and
//! the server: a flag, then either an error id and message or the packed
//! arguments, and the reading that recovers an outcome from those bytes.
use data_rw::{Data, DataOwnedReader};
use vstd::prelude::*;

use crate::codec::{bool_byte, i32_from_le, i32_le, len_prefixed, lemma_i32_roundtrip, lemma_u32_roundtrip, u32_from_le, u32_le};
use crate::wire::{
    data_bytes, has_len_prefixed, len_prefixed_body, read_bool, read_byte_string, read_i32,
    read_text, reader_offset, reader_rest, reader_wf, reader_bytes, write_bool, write_byte_string,
    write_i32, write_str, write_u32, anyhow_msg,
};

verus! {

/// The abstract content of an outcome: error flag, error id, message, arguments.
pub struct Outcome {
    pub is_error: bool,
    pub error_id: i32,
    pub msg: Seq<char>,
    pub args: Seq<Seq<u8>>,
}

/// The byte strings held by a vector of arguments.
pub open spec fn args_view(args: Seq<Vec<u8>>) -> Seq<Seq<u8>> {
    args.map_values(|a: Vec<u8>| a@)
}

/// The packed arguments one after another, each behind its length.
pub open spec fn packed_args(args: Seq<Seq<u8>>) -> Seq<u8>
    decreases args.len(),
{
    if args.len() == 0 {
        Seq::empty()
    } else {
        packed_args(args.drop_last()) + len_prefixed(args.last())
    }
}

/// The bytes that stand for an outcome in a result packet.
pub open spec fn outcome_bytes(is_error: bool, error_id: i32, msg: Seq<char>, args: Seq<Seq<u8>>) -> Seq<u8> {
    if is_error {
        bool_byte(true) + i32_le(error_id) + len_prefixed(vstd::utf8::encode_utf8(msg))
    } else {
        bool_byte(false) + u32_le(args.len() as u32) + packed_args(args)
    }
}

/// Reading `n` length-prefixed byte strings from the front of `rest`: the
/// strings and the number of bytes they took, or `None` where the bytes run out.
pub open spec fn parse_args(rest: Seq<u8>, n: nat) -> Option<(Seq<Seq<u8>>, nat)>
    decreases n,
{
    if n == 0 {
        Some((Seq::empty(), 0nat))
    } else {
        match parse_args(rest, (n - 1) as nat) {
            Some((args, used)) => {
                let tail = rest.subrange(used as int, rest.len() as int);
                if used <= rest.len() && has_len_prefixed(tail) {
                    let b = len_prefixed_body(tail);
                    Some((args.push(b), used + 4 + b.len()))
                } else {
                    None
                }
            },
            None => None,
        }
    }
}

/// Reading an outcome from the front of `rest`, as the receiving side does:
/// a flag byte; for an error, an `i32` id and a UTF-8 message; otherwise an
/// `i32` count and that many length-prefixed arguments. `None` where the bytes
/// run out, the message is not UTF-8 or the count is negative. The message of
/// a success is not on the wire: the receiver supplies its own text.
pub open spec fn parse_outcome(rest: Seq<u8>) -> Option<(bool, i32, Seq<char>, Seq<Seq<u8>>)> {
    if rest.len() < 1 {
        None
    } else if rest[0] != 0 {
        let r1 = rest.subrange(1, rest.len() as int);
        if r1.len() < 4 {
            None
        } else {
            let id = i32_from_le(r1);
            let r2 = r1.subrange(4, r1.len() as int);
            if has_len_prefixed(r2) && vstd::utf8::valid_utf8(len_prefixed_body(r2)) {
                Some((true, id, vstd::utf8::decode_utf8(len_prefixed_body(r2)), Seq::empty()))
            } else {
                None
            }
        }
    } else {
        let r1 = rest.subrange(1, rest.len() as int);
        if r1.len() < 4 {
            None
        } else {
            let count = i32_from_le(r1);
            let r2 = r1.subrange(4, r1.len() as int);
            if count < 0 {
                None
            } else {
                match parse_args(r2, count as nat) {
                    Some((args, _)) => Some((false, 0i32, Seq::empty(), args)),
                    None => None,
                }
            }
        }
    }
}

/// Appends the bytes of an outcome to `d`.
pub fn write_outcome(d: &mut Data, is_error: bool, error_id: i32, msg: &String, args: &Vec<Vec<u8>>)
    ensures
        data_bytes(*final(d)) == data_bytes(*old(d)) + outcome_bytes(
            is_error,
            error_id,
            msg@,
            args_view(args@),
        ),
{
    let ghost start = data_bytes(*d);
    if is_error {
        write_bool(d, true);
        write_i32(d, error_id);
        write_str(d, msg.as_str());
        assert(data_bytes(*d) =~= start + outcome_bytes(is_error, error_id, msg@, args_view(args@)));
    } else {
        write_bool(d, false);
        write_u32(d, args.len() as u32);
        let ghost head = data_bytes(*d);
        let mut i: usize = 0;
        while i < args.len()
            invariant
                i <= args.len(),
                data_bytes(*d) == head + packed_args(args_view(args@).take(i as int)),
            decreases args.len() - i,
        {
            write_byte_string(d, &args[i]);
            proof {
                let s = args_view(args@);
                assert(s.take(i + 1).drop_last() =~= s.take(i as int));
                assert(s.take(i + 1).last() == args@[i as int]@);
            }
            i = i + 1;
        }
        proof {
            assert(args_view(args@).take(args.len() as int) =~= args_view(args@));
        }
        assert(data_bytes(*d) =~= start + outcome_bytes(is_error, error_id, msg@, args_view(args@)));
    }
}

/// Once the bytes run out for `i` arguments, they run out for more.
proof fn lemma_parse_args_none_stays(rest: Seq<u8>, i: nat, n: nat)
    requires
        parse_args(rest, i) is None,
        i <= n,
    ensures
        parse_args(rest, n) is None,
    decreases n - i,
{
    if i < n {
        lemma_parse_args_none_stays(rest, i, (n - 1) as nat);
    }
}

/// What one reading of an outcome recovered: the flag, the error id, the
/// message (empty for a success) and the arguments.
pub struct OutcomeParts {
    pub is_error: bool,
    pub error_id: i32,
    pub msg: String,
    pub args: Vec<Vec<u8>>,
}

/// The parts read from `rest` are those `parse_outcome` gives.
pub open spec fn parts_match(p: OutcomeParts, rest: Seq<u8>) -> bool {
    match parse_outcome(rest) {
        Some((e, id, m, a)) => p.is_error == e && p.error_id == id && p.msg@ == m
            && args_view(p.args@) == a,
        None => false,
    }
}

/// Reads an outcome from the unread bytes of `dr` (see `parse_outcome`).
pub fn read_outcome(dr: &mut DataOwnedReader) -> (res: Result<OutcomeParts, anyhow::Error>)
    requires
        reader_wf(*old(dr)),
    ensures
        reader_wf(*final(dr)),
        reader_bytes(*final(dr)) == reader_bytes(*old(dr)),
        res is Ok <==> parse_outcome(reader_rest(*old(dr))) is Some,
        res matches Ok(p) ==> parts_match(p, reader_rest(*old(dr))),
{
    let ghost rest = reader_rest(*dr);
    let ghost off0 = reader_offset(*dr);
    let flag = read_bool(dr)?;
    let ghost r1 = rest.subrange(1, rest.len() as int);
    assert(reader_rest(*dr) =~= r1);
    assert(flag == (rest[0] != 0));
    if flag {
        let id = read_i32(dr)?;
        let ghost r2 = r1.subrange(4, r1.len() as int);
        assert(reader_rest(*dr) =~= r2);
        let msg = read_text(dr)?;
        proof {
            vstd::utf8::encode_utf8_decode_utf8(msg@);
        }
        let parts = OutcomeParts { is_error: true, error_id: id, msg, args: Vec::new() };
        assert(args_view(parts.args@) =~= Seq::<Seq<u8>>::empty());
        assert(parts_match(parts, rest));
        Ok(parts)
    } else {
        let count = read_i32(dr)?;
        let ghost r2 = r1.subrange(4, r1.len() as int);
        assert(reader_rest(*dr) =~= r2);
        if count < 0 {
            return Err(anyhow_msg("negative argument count"));
        }
        let ghost off2 = reader_offset(*dr);
        let mut args: Vec<Vec<u8>> = Vec::new();
        let mut i: i32 = 0;
        let ghost mut used: nat = 0;
        while i < count
            invariant
                0 <= i <= count,
                reader_wf(*dr),
                reader_bytes(*dr) == reader_bytes(*old(dr)),
                reader_offset(*dr) == off2 + used,
                off2 + r2.len() == reader_bytes(*dr).len(),
                r2 == reader_bytes(*dr).subrange(off2 as int, reader_bytes(*dr).len() as int),
                rest == reader_rest(*old(dr)),
                r1 == rest.subrange(1, rest.len() as int),
                r2 == r1.subrange(4, r1.len() as int),
                rest.len() >= 1 && rest[0] == 0,
                r1.len() >= 4 && count == i32_from_le(r1),
                used <= r2.len(),
                reader_rest(*dr) == r2.subrange(used as int, r2.len() as int),
                parse_args(r2, i as nat) == Some((args_view(args@), used)),
            decreases count - i,
        {
            let ghost before = *dr;
            match read_byte_string(dr) {
                Ok(b) => {
                    let ghost old_args = args_view(args@);
                    let ghost old_used = used;
                    proof {
                        let tail = r2.subrange(used as int, r2.len() as int);
                        assert(tail == reader_rest(before));
                        used = used + 4 + b@.len();
                    }
                    args.push(b);
                    proof {
                        assert(args_view(args@) =~= old_args.push(b@));
                        assert(parse_args(r2, (i + 1) as nat) == Some((old_args.push(b@), used)));
                    }
                    proof {
                        assert(reader_rest(*dr) =~= r2.subrange(used as int, r2.len() as int));
                    }
                    i = i + 1;
                },
                Err(e) => {
                    proof {
                        let tail = r2.subrange(used as int, r2.len() as int);
                        assert(tail == reader_rest(before));
                        assert(parse_args(r2, (i + 1) as nat) is None);
                        lemma_parse_args_none_stays(r2, (i + 1) as nat, count as nat);
                        assert(parse_outcome(rest) is None);
                    }
                    return Err(e);
                },
            }
        }
        assert(i == count);
        let parts = OutcomeParts { is_error: false, error_id: 0, msg: String::new(), args };
        assert(parts.msg@ =~= Seq::<char>::empty());
        assert(parts_match(parts, rest));
        Ok(parts)
    }
}

proof fn lemma_small_u32_as_i32(n: u32)
    requires
        n <= 0x7fff_ffff,
    ensures
        (n as i32) as int == n as int,
{
    assert(n <= 0x7fff_ffff ==> (n as i32) as int == n as int) by (bit_vector);
}

/// Every argument fits the `u32` length that precedes it on the wire.
pub open spec fn args_fit(args: Seq<Seq<u8>>) -> bool {
    forall|i: int| 0 <= i < args.len() ==> #[trigger] args[i].len() <= u32::MAX
}

/// Reading back packed arguments gives the arguments and the number of bytes
/// they took, whatever follows them.
pub proof fn lemma_parse_packed_args(args: Seq<Seq<u8>>, tail: Seq<u8>)
    requires
        args_fit(args),
    ensures
        parse_args(packed_args(args) + tail, args.len()) == Some((args, packed_args(args).len())),
    decreases args.len(),
{
    if args.len() > 0 {
        let front = args.drop_last();
        let last = args.last();
        let lp = len_prefixed(last);
        assert(args_fit(front)) by {
            assert forall|i: int| 0 <= i < front.len() implies #[trigger] front[i].len() <= u32::MAX by {
                assert(front[i] == args[i]);
            }
        }
        assert(last.len() <= u32::MAX) by {
            assert(last == args[args.len() - 1]);
        }
        lemma_parse_packed_args(front, lp + tail);
        let whole = packed_args(args) + tail;
        assert(whole =~= packed_args(front) + (lp + tail));
        let used = packed_args(front).len();
        let t = whole.subrange(used as int, whole.len() as int);
        assert(t =~= lp + tail);
        lemma_u32_roundtrip(last.len() as u32);
        assert(u32_from_le(t) == u32_from_le(u32_le(last.len() as u32)));
        assert(len_prefixed_body(t) =~= last);
        assert(front.push(last) =~= args);
    }
}

/// Law: the receiving side reads back exactly the outcome the sending side
/// wrote (for a success, its arguments; for an error, its id and message),
/// whatever bytes follow, as long as the lengths fit the fields that carry them.
pub proof fn law_outcome_roundtrip(
    is_error: bool,
    error_id: i32,
    msg: Seq<char>,
    args: Seq<Seq<u8>>,
    tail: Seq<u8>,
)
    requires
        vstd::utf8::encode_utf8(msg).len() <= u32::MAX,
        args.len() <= i32::MAX,
        args_fit(args),
    ensures
        parse_outcome(outcome_bytes(is_error, error_id, msg, args) + tail) == (if is_error {
            Some((true, error_id, msg, Seq::<Seq<u8>>::empty()))
        } else {
            Some((false, 0i32, Seq::<char>::empty(), args))
        }),
{
    let bytes = outcome_bytes(is_error, error_id, msg, args) + tail;
    let r1 = bytes.subrange(1, bytes.len() as int);
    if is_error {
        let enc = vstd::utf8::encode_utf8(msg);
        lemma_i32_roundtrip(error_id);
        assert(r1 =~= i32_le(error_id) + (len_prefixed(enc) + tail));
        assert(i32_from_le(r1) == i32_from_le(i32_le(error_id)));
        let r2 = r1.subrange(4, r1.len() as int);
        assert(r2 =~= len_prefixed(enc) + tail);
        lemma_u32_roundtrip(enc.len() as u32);
        assert(u32_from_le(r2) == u32_from_le(u32_le(enc.len() as u32)));
        assert(len_prefixed_body(r2) =~= enc);
        vstd::utf8::encode_utf8_valid_utf8(msg);
        vstd::utf8::encode_utf8_decode_utf8(msg);
    } else {
        let n = args.len() as u32;
        lemma_u32_roundtrip(n);
        assert(r1 =~= u32_le(n) + (packed_args(args) + tail));
        assert(u32_from_le(r1) == u32_from_le(u32_le(n)));
        lemma_small_u32_as_i32(n);
        let r2 = r1.subrange(4, r1.len() as int);
        assert(r2 =~= packed_args(args) + tail);
        lemma_parse_packed_args(args, tail);
    }
}

/// The number of body bytes of a packet whose length field reads `len`; the
/// field counts its own four bytes, so a field below 4 is no packet (`None`).
pub fn payload_len(len: u32) -> (n: Option<usize>)
    ensures
        n is Some <==> len >= 4,
        n matches Some(k) ==> k == len - 4,
{
    if len < 4 {
        None
    } else {
        Some((len - 4) as usize)
    }
}

} // verus!
