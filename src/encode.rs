//! Encoding: values that serialise themselves under a set of encoding rules,
//! and the byte sinks they write into.

use vstd::prelude::*;
use crate::mode::Mode;

verus! {

/// A sink refused to take bytes.
#[derive(Clone, Copy, Debug, PartialEq, Eq, Structural)]
pub struct WriteError;

/// Somewhere bytes are written to, in order.
pub trait Sink {
    /// Everything written into the sink so far.
    spec fn written(&self) -> Seq<u8>;

    /// Whether the sink takes `n` more bytes without failing.
    spec fn accepts(&self, n: nat) -> bool;

    /// Writes all of `buf`, or fails.
    fn write_all(&mut self, buf: &[u8]) -> (r: Result<(), WriteError>)
        ensures
            r is Ok ==> final(self).written() == old(self).written() + buf@,
            old(self).accepts(buf@.len()) ==> r is Ok,
            forall|k: nat|
                #[trigger] old(self).accepts(buf@.len() + k) ==> final(self).accepts(k),
    ;

    /// Hands on whatever the sink holds back; nothing is written.
    fn flush(&mut self) -> (r: Result<(), WriteError>)
        ensures
            final(self).written() == old(self).written(),
            forall|k: nat| #[trigger] old(self).accepts(k) ==> final(self).accepts(k),
            old(self).accepts(0) ==> r is Ok,
    ;
}

/// An in-memory sink: the bytes are appended to the vector.
impl Sink for Vec<u8> {
    open spec fn written(&self) -> Seq<u8> {
        self@
    }

    open spec fn accepts(&self, n: nat) -> bool {
        true
    }

    fn write_all(&mut self, buf: &[u8]) -> (r: Result<(), WriteError>) {
        self.extend_from_slice(buf);
        assert(self@ =~= old(self)@ + buf@);
        Ok(())
    }

    fn flush(&mut self) -> (r: Result<(), WriteError>) {
        Ok(())
    }
}

/// A value that can be encoded under a set of encoding rules.
pub trait Values {
    /// The bytes that encode `self` under `mode`.
    spec fn encoding(&self, mode: Mode) -> Seq<u8>;

    /// Whether `self` may be encoded under `mode` at all.
    spec fn encodable(&self, mode: Mode) -> bool;

    /// The length of the encoding of `self` under `mode`.
    fn encoded_len(&self, mode: Mode) -> (r: usize)
        requires
            self.encodable(mode),
        ensures
            r == self.encoding(mode).len(),
    ;

    /// Writes the encoding of `self` under `mode` into `target`; an error
    /// is the sink's.
    fn write_encoded<W: Sink>(&self, mode: Mode, target: &mut W) -> (r: Result<(), WriteError>)
        requires
            self.encodable(mode),
        ensures
            r is Ok ==> final(target).written() == old(target).written() + self.encoding(mode),
            old(target).accepts(self.encoding(mode).len()) ==> r is Ok,
    ;
}

} // verus!
