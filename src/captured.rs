//! A captured value: encoded bytes together with the rules they were
//! encoded under.

use vstd::prelude::*;
use bytes::Bytes;
use crate::decode::DecodeError;
use crate::encode::{Sink, Values, WriteError};
use crate::mode::Mode;
use crate::raw::bytes_content;

verus! {

/// Encoded bytes and the rules they were produced under.
///
/// The bytes are only ever added to by encoding further values under the
/// same rules, so the two never part ways.
pub struct Captured {
    bytes: Bytes,
    mode: Mode,
}

impl View for Captured {
    type V = Seq<u8>;

    /// The captured bytes.
    open spec fn view(&self) -> Seq<u8> {
        bytes_content(self.raw())
    }
}

impl Captured {
    /// The handle on the captured bytes.
    pub closed spec fn raw(&self) -> Bytes {
        self.bytes
    }

    /// The rules the captured bytes were produced under.
    pub closed spec fn rules(&self) -> Mode {
        self.mode
    }

    /// Captures `bytes`, produced under `mode`. The bytes are not checked.
    pub fn new(bytes: Bytes, mode: Mode) -> (r: Self)
        ensures
            r.raw() == bytes,
            r.rules() == mode,
    {
        Captured { bytes, mode }
    }

    /// A capture of no bytes at all, which suits every set of rules and is
    /// therefore tagged with the permissive ones.
    pub fn empty() -> (r: Self)
        ensures
            r@ == Seq::<u8>::empty(),
            r.rules() == Mode::Ber,
    {
        Captured { bytes: Bytes::new(), mode: Mode::Ber }
    }

    /// The rules the captured bytes were produced under.
    pub fn mode(&self) -> (r: Mode)
        ensures
            r == self.rules(),
    {
        self.mode
    }

    /// Gives up the capture and returns the handle on its bytes.
    pub fn into_bytes(self) -> (r: Bytes)
        ensures
            r == self.raw(),
    {
        self.bytes
    }

    /// The captured bytes.
    pub fn as_slice(&self) -> (r: &[u8])
        ensures
            r@ == self@,
    {
        self.bytes.as_ref()
    }

    /// Decodes the whole capture: `op` is handed the bytes and the rules
    /// they were produced under, and what it returns is returned.
    pub fn decode<F, T>(self, op: F) -> (r: Result<T, DecodeError>)
        where
            F: FnOnce(Bytes, Mode) -> Result<T, DecodeError>,
        requires
            op.requires((self.raw(), self.rules())),
        ensures
            op.ensures((self.raw(), self.rules()), r),
    {
        let Captured { bytes, mode } = self;
        op(bytes, mode)
    }

    /// Decodes from the front of the capture and keeps the rest.
    ///
    /// `op` is handed a handle on the bytes and the rules, and returns how
    /// many bytes from the front it consumed together with its result. Those
    /// bytes are dropped from the capture, whether the decoding succeeded or
    /// not; the rules stay as they were.
    pub fn decode_partial<F, T>(&mut self, op: F) -> (r: Result<T, DecodeError>)
        where
            F: FnOnce(Bytes, Mode) -> (usize, Result<T, DecodeError>),
        requires
            forall|b: Bytes|
                bytes_content(b) == old(self)@ ==> #[trigger] op.requires((b, old(self).rules())),
            forall|b: Bytes, out: (usize, Result<T, DecodeError>)|
                bytes_content(b) == old(self)@ && #[trigger] op.ensures((b, old(self).rules()), out)
                    ==> out.0 <= old(self)@.len(),
        ensures
            exists|b: Bytes, n: usize|
                {
                    &&& bytes_content(b) == old(self)@
                    &&& #[trigger] op.ensures((b, old(self).rules()), (n, r))
                    &&& final(self)@ == old(self)@.subrange(n as int, old(self)@.len() as int)
                },
            final(self).rules() == old(self).rules(),
    {
        let (n, r) = op(self.bytes.clone(), self.mode);
        self.bytes.advance(n);
        r
    }

    /// Encodes `values` under the capture's rules onto the end of the
    /// captured bytes.
    pub fn extend<V: Values>(&mut self, values: V)
        requires
            values.encodable(old(self).rules()),
            old(self)@.len() + values.encoding(old(self).rules()).len() <= usize::MAX,
        ensures
            final(self)@ == old(self)@ + values.encoding(old(self).rules()),
            final(self).rules() == old(self).rules(),
    {
        let mode = self.mode;
        let mut held = Bytes::new();
        std::mem::swap(&mut held, &mut self.bytes);
        let mut writer = CapturedWriter { bytes: held };
        let r = values.write_encoded(mode, &mut writer);
        // The writer takes every byte that fits in memory.
        assert(r is Ok);
        self.bytes = writer.bytes;
    }
}

impl Clone for Captured {
    /// A second capture of the same bytes under the same rules. The storage
    /// is shared until one of the two is extended.
    fn clone(&self) -> (r: Self)
        ensures
            r@ == self@,
            r.rules() == self.rules(),
    {
        Captured { bytes: self.bytes.clone(), mode: self.mode }
    }
}

impl core::ops::Deref for Captured {
    type Target = Bytes;

    fn deref(&self) -> (r: &Bytes)
        ensures
            *r == self.raw(),
    {
        &self.bytes
    }
}

impl AsRef<Bytes> for Captured {
    fn as_ref(&self) -> &Bytes {
        &self.bytes
    }
}

impl AsRef<[u8]> for Captured {
    fn as_ref(&self) -> &[u8] {
        self.bytes.as_ref()
    }
}

impl Values for Captured {
    /// Captured bytes are emitted as they are, whatever the rules.
    open spec fn encoding(&self, mode: Mode) -> Seq<u8> {
        self@
    }

    /// Captured bytes may go into an encoding under their own rules or under
    /// the permissive ones.
    open spec fn encodable(&self, mode: Mode) -> bool {
        self.rules().embeds_into(mode)
    }

    fn encoded_len(&self, mode: Mode) -> (r: usize) {
        self.bytes.len()
    }

    /// Copies the captured bytes into `target` as they are: no
    /// re-encoding and no check of the bytes.
    fn write_encoded<W: Sink>(&self, mode: Mode, target: &mut W) -> (r: Result<(), WriteError>)
        ensures
            r is Err ==> r == Err::<(), WriteError>(WriteError),
    {
        match target.write_all(self.bytes.as_ref()) {
            Ok(()) => Ok(()),
            Err(WriteError) => Err(WriteError),
        }
    }
}

/// Capturing a handle under some rules and giving the capture up returns
/// that very handle.
pub proof fn lemma_new_into_bytes(b: Bytes, m: Mode, c: Captured, r: Bytes)
    requires
        c.raw() == b,
        c.rules() == m,
        r == c.raw(),
    ensures
        r == b,
        bytes_content(r) == bytes_content(b),
{
}

/// Extending a capture by `v` and then giving it up yields the old bytes
/// followed by the encoding of `v` under the capture's rules.
pub proof fn lemma_extend_into_bytes<V: Values>(c: Captured, v: V, extended: Captured, r: Bytes)
    requires
        extended@ == c@ + v.encoding(c.rules()),
        extended.rules() == c.rules(),
        r == extended.raw(),
    ensures
        bytes_content(r) == c@ + v.encoding(c.rules()),
        bytes_content(r).subrange(0, c@.len() as int) == c@,
{
    assert(bytes_content(r).subrange(0, c@.len() as int) =~= c@);
}

/// A capture re-emits the same bytes under its own rules and under the
/// permissive ones; asking for it under any other rules is ruled out by the
/// precondition of `write_encoded` and `encoded_len`.
pub proof fn lemma_reemission(c: Captured, m: Mode)
    ensures
        c.encodable(c.rules()),
        c.encodable(Mode::Ber),
        c.encoding(c.rules()) == c@,
        c.encoding(Mode::Ber) == c@,
        c.encodable(m) <==> (m == Mode::Ber || m == c.rules()),
        c.rules() == Mode::Der ==> !c.encodable(Mode::Cer),
{
}

/// Decoding two records one after the other from the front of a capture:
/// when the first decoding consumes exactly the first record, the second
/// sees exactly the second record, and when that one consumes it, nothing is
/// left. The rules never change.
pub proof fn lemma_decode_partial_twice(
    first: Seq<u8>,
    second: Seq<u8>,
    c0: Captured,
    n1: usize,
    c1: Captured,
    n2: usize,
    c2: Captured,
)
    requires
        c0@ == first + second,
        n1 == first.len(),
        c1@ == c0@.subrange(n1 as int, c0@.len() as int),
        c1.rules() == c0.rules(),
        n2 == second.len(),
        c2@ == c1@.subrange(n2 as int, c1@.len() as int),
        c2.rules() == c1.rules(),
    ensures
        c1@ == second,
        c2@ == Seq::<u8>::empty(),
        c2.rules() == c0.rules(),
{
    assert(c1@ =~= second);
    assert(c2@ =~= Seq::<u8>::empty());
}

/// Extending a clone of a capture leaves the capture as it was: the clone
/// then holds the capture's bytes followed by the new encoding.
pub proof fn lemma_clone_extend<V: Values>(c: Captured, v: V, copy: Captured, extended: Captured)
    requires
        copy@ == c@,
        copy.rules() == c.rules(),
        extended@ == copy@ + v.encoding(copy.rules()),
        extended.rules() == copy.rules(),
    ensures
        extended@.subrange(0, c@.len() as int) == c@,
        extended@.subrange(c@.len() as int, extended@.len() as int) == v.encoding(c.rules()),
        extended.rules() == c.rules(),
{
    assert(extended@.subrange(0, c@.len() as int) =~= c@);
    assert(extended@.subrange(c@.len() as int, extended@.len() as int) =~= v.encoding(c.rules()));
}

/// A sink that appends onto the byte buffer it holds.
struct CapturedWriter {
    bytes: Bytes,
}

impl Sink for CapturedWriter {
    closed spec fn written(&self) -> Seq<u8> {
        bytes_content(self.bytes)
    }

    closed spec fn accepts(&self, n: nat) -> bool {
        bytes_content(self.bytes).len() + n <= usize::MAX
    }

    fn write_all(&mut self, buf: &[u8]) -> (r: Result<(), WriteError>) {
        if buf.len() > usize::MAX - self.bytes.len() {
            return Err(WriteError);
        }
        self.bytes.extend_from_slice(buf);
        Ok(())
    }

    fn flush(&mut self) -> (r: Result<(), WriteError>) {
        Ok(())
    }
}

} // verus!
