//! The outcome of a remote call, as the server holds it.
use data_rw::DataOwnedReader;
use vstd::prelude::*;

use crate::server::error::Error;
use crate::protocol::{args_view, parse_outcome, read_outcome};
use crate::wire::{io_error_other, reader_bytes, reader_rest, reader_wf};

verus! {

/// The outcome of a remote call: an error id and message, or the packed
/// arguments that make up the answer.
pub struct RetResult {
    /// Whether the call failed.
    pub is_error: bool,
    /// The error id of a failed call.
    pub error_id: i32,
    /// The message that goes with the outcome.
    pub msg: String,
    /// The packed arguments of the answer.
    pub arguments: Vec<Vec<u8>>,
}

impl RetResult {
    /// An outcome with the given fields.
    pub fn new(is_error: bool, error_id: i32, msg: String, args: Vec<Vec<u8>>) -> (r: RetResult)
        ensures
            r.is_error == is_error,
            r.error_id == error_id,
            r.msg == msg,
            r.arguments == args,
    {
        RetResult { is_error, error_id, msg, arguments: args }
    }

    /// A success with no arguments and the message "Success".
    pub fn success() -> (r: RetResult)
        ensures
            !r.is_error,
            r.error_id == 0,
            r.msg@ == "Success"@,
            r.arguments@.len() == 0,
    {
        RetResult { is_error: false, error_id: 0, msg: String::from_str("Success"), arguments: Vec::new() }
    }

    /// A failure with the given id and message, and no arguments.
    pub fn error(error_id: i32, msg: String) -> (r: RetResult)
        ensures
            r.is_error,
            r.error_id == error_id,
            r.msg == msg,
            r.arguments@.len() == 0,
    {
        RetResult { is_error: true, error_id, msg, arguments: Vec::new() }
    }

    /// Adds an argument, already packed, at the end.
    pub fn push_argument(&mut self, packed: Vec<u8>)
        ensures
            final(self).arguments@ == old(self).arguments@.push(packed),
            final(self).is_error == old(self).is_error,
            final(self).error_id == old(self).error_id,
            final(self).msg == old(self).msg,
    {
        self.arguments.push(packed);
    }

    /// Reads an outcome from the unread bytes of `dr`, as a result packet
    /// carries it. A success gets the message "success".
    pub fn from(dr: &mut DataOwnedReader) -> (res: Result<RetResult, Error>)
        requires
            reader_wf(*old(dr)),
        ensures
            reader_wf(*final(dr)),
            reader_bytes(*final(dr)) == reader_bytes(*old(dr)),
            res is Ok <==> parse_outcome(reader_rest(*old(dr))) is Some,
            res matches Ok(r) ==> {
                let (e, id, m, a) = parse_outcome(reader_rest(*old(dr))).unwrap();
                &&& r.is_error == e
                &&& r.error_id == id
                &&& r.msg@ == (if e { m } else { "success"@ })
                &&& args_view(r.arguments@) == a
            },
            res matches Err(e) ==> e is Error,
    {
        match read_outcome(dr) {
            Ok(parts) => {
                if parts.is_error {
                    Ok(RetResult::new(true, parts.error_id, parts.msg, parts.args))
                } else {
                    Ok(RetResult::new(false, 0, String::from_str("success"), parts.args))
                }
            },
            Err(e) => Err(Error::Error(e)),
        }
    }

    /// The number of arguments.
    pub fn len(&self) -> (n: usize)
        ensures
            n == self.arguments@.len(),
    {
        self.arguments.len()
    }

    /// Whether there are no arguments.
    pub fn is_empty(&self) -> (b: bool)
        ensures
            b == (self.arguments@.len() == 0),
    {
        self.arguments.len() == 0
    }

    /// The outcome itself where the call succeeded; a `CallError` with the
    /// id and message where it failed.
    pub fn check(self) -> (res: Result<RetResult, Error>)
        ensures
            !self.is_error ==> res == Ok::<RetResult, Error>(self),
            self.is_error ==> (res matches Err(Error::CallError(id, msg)) && id == self.error_id
                && msg == self.msg),
    {
        if self.is_error {
            Err(Error::CallError(self.error_id, self.msg))
        } else {
            Ok(self)
        }
    }

    /// The argument at `index`, for changing; an error where there is none.
    pub fn get(&mut self, index: usize) -> (res: Result<&mut Vec<u8>, std::io::Error>)
        ensures
            index < old(self).arguments@.len() <==> res is Ok,
            res matches Ok(a) ==> *a == old(self).arguments@[index as int] && final(self).arguments@ == old(self).arguments@.update(index as int, *final(a)),
            res is Err ==> *final(self) == *old(self),
    {
        if index >= self.arguments.len() {
            return Err(io_error_other("index >= len"));
        }
        Ok(&mut self.arguments[index])
    }

    /// The argument at `index`, which must exist.
    pub fn index(&self, index: usize) -> (a: &Vec<u8>)
        requires
            index < self.arguments@.len(),
        ensures
            *a == self.arguments@[index as int],
    {
        &self.arguments[index]
    }

    /// The first argument, which holds the answer of a call that returns a
    /// value; an error where there is none.
    pub fn first_argument(&self) -> (res: Result<&Vec<u8>, Error>)
        ensures
            self.arguments@.len() > 0 <==> res is Ok,
            res matches Ok(a) ==> *a == self.arguments@[0],
            res matches Err(e) ==> e is IOError,
    {
        if self.arguments.len() == 0 {
            return Err(Error::IOError(io_error_other("index >= len")));
        }
        Ok(&self.arguments[0])
    }
}

} // verus!
