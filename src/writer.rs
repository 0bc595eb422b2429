//! A byte sink over a text destination: each write is checked as UTF-8 first.
use vstd::prelude::*;
use vstd::string::StringExecFns;

verus! {

/// The text that the bytes `b` encode as UTF-8, or `None` where they are not
/// well-formed UTF-8.
pub uninterp spec fn utf8_decoded(b: Seq<u8>) -> Option<Seq<char>>;

/// Relies on std::str::from_utf8: it accepts exactly the well-formed UTF-8
/// byte strings and then yields the text they encode.
#[verifier::external_body]
fn decode_utf8(b: &[u8]) -> (r: Option<String>)
    ensures
        r is None <==> utf8_decoded(b@) is None,
        r is Some ==> r->0@ == utf8_decoded(b@)->0,
{
    std::str::from_utf8(b).ok().map(|s| s.to_string())
}

/// Why a write failed.
#[derive(Clone, Copy, PartialEq, Eq, Debug, Structural)]
pub enum WriteError {
    /// The bytes were not well-formed UTF-8.
    InvalidData,
}

/// Forwards checked text to a borrowed destination.
pub struct WriteAdaptor<'a> {
    fmt_write: &'a mut String,
}

impl<'a> WriteAdaptor<'a> {
    pub closed spec fn dest(&self) -> Seq<char> {
        self.fmt_write@
    }

    /// An adaptor that writes into `fmt_write`.
    pub fn new(fmt_write: &'a mut String) -> (r: Self)
        ensures
            r.dest() == old(fmt_write)@,
    {
        WriteAdaptor { fmt_write }
    }

    /// Writes `buf` if it is well-formed UTF-8 and reports all of its bytes as
    /// written; otherwise writes nothing and fails with `InvalidData`.
    pub fn write(&mut self, buf: &[u8]) -> (r: Result<usize, WriteError>)
        ensures
            match utf8_decoded(buf@) {
                None => r == Err::<usize, WriteError>(WriteError::InvalidData)
                    && final(self).dest() == old(self).dest(),
                Some(t) => r == Ok::<usize, WriteError>(buf@.len() as usize)
                    && final(self).dest() == old(self).dest() + t,
            },
    {
        match decode_utf8(buf) {
            None => Err(WriteError::InvalidData),
            Some(s) => {
                self.fmt_write.append(s.as_str());
                Ok(buf.len())
            },
        }
    }

    /// Does nothing: the destination needs no flushing.
    pub fn flush(&mut self) -> (r: Result<(), WriteError>)
        ensures
            r is Ok,
            final(self).dest() == old(self).dest(),
    {
        Ok(())
    }
}

} // verus!
