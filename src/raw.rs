//! The shared byte buffer of the `bytes` crate, as the rest of the library
//! sees it: a sequence of bytes.

use vstd::prelude::*;
use bytes::Bytes;

verus! {

#[verifier::external_type_specification]
#[verifier::external_body]
pub struct ExBytes(Bytes);

/// The bytes that a `Bytes` handle holds, front to back.
pub uninterp spec fn bytes_content(b: Bytes) -> Seq<u8>;

/// Relies on `Bytes::new`: the handle it returns holds no bytes.
pub assume_specification[ Bytes::new ]() -> (r: Bytes)
    ensures
        bytes_content(r) == Seq::<u8>::empty(),
;

/// Relies on `Bytes::len`: the number of bytes the handle holds.
pub assume_specification[ Bytes::len ](b: &Bytes) -> (r: usize)
    ensures
        r == bytes_content(*b).len(),
;

/// Relies on `Bytes`'s `AsRef<[u8]>`: a view of exactly the bytes held.
pub assume_specification[ <Bytes as AsRef<[u8]>>::as_ref ](b: &Bytes) -> (r: &[u8])
    ensures
        r@ == bytes_content(*b),
;

/// Relies on `Bytes`'s `Clone`: a second handle on the same bytes.
pub assume_specification[ <Bytes as Clone>::clone ](b: &Bytes) -> (r: Bytes)
    ensures
        bytes_content(r) == bytes_content(*b),
;

/// Relies on `Bytes::advance`: drops the first `cnt` bytes and keeps the
/// rest; it panics when `cnt` exceeds the length.
pub assume_specification[ Bytes::advance ](b: &mut Bytes, cnt: usize)
    requires
        cnt <= bytes_content(*old(b)).len(),
    ensures
        bytes_content(*final(b)) == bytes_content(*old(b)).subrange(
            cnt as int,
            bytes_content(*old(b)).len() as int,
        ),
;

/// Relies on `Bytes::extend_from_slice`: appends the slice at the end,
/// copying first where the storage is shared; it panics when the new length
/// overflows `usize`.
pub assume_specification[ Bytes::extend_from_slice ](b: &mut Bytes, extend: &[u8])
    requires
        bytes_content(*old(b)).len() + extend@.len() <= usize::MAX,
    ensures
        bytes_content(*final(b)) == bytes_content(*old(b)) + extend@,
;

} // verus!
