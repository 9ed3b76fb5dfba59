use vstd::prelude::*;

verus! {

#[verifier::external_type_specification]
#[verifier::external_body]
pub struct ExBytes(bytes::Bytes);

/// The bytes that a `bytes::Bytes` buffer holds, in order.
pub uninterp spec fn bytes_content(b: bytes::Bytes) -> Seq<u8>;

/// Relies on `bytes::Bytes::from_owner`: the buffer takes ownership of the
/// vector and holds exactly its bytes.
#[verifier::external_body]
pub(crate) fn bytes_from_vec(v: Vec<u8>) -> (r: bytes::Bytes)
    ensures
        bytes_content(r) == v@,
{
    bytes::Bytes::from_owner(v)
}

/// Relies on `bytes::Bytes::split_off`: afterwards the buffer keeps the
/// bytes `[0, at)` and the returned buffer holds `[at, len)`. It panics when
/// `at` exceeds the length.
#[verifier::external_body]
pub(crate) fn bytes_split_off(b: &mut bytes::Bytes, at: usize) -> (r: bytes::Bytes)
    requires
        at <= bytes_content(*old(b)).len(),
    ensures
        bytes_content(*final(b)) == bytes_content(*old(b)).take(at as int),
        bytes_content(r) == bytes_content(*old(b)).skip(at as int),
{
    b.split_off(at)
}

/// Relies on `AsRef<[u8]>` of `bytes::Bytes`: the slice shows the buffer's
/// bytes.
#[verifier::external_body]
pub(crate) fn bytes_as_slice(b: &bytes::Bytes) -> (r: &[u8])
    ensures
        r@ == bytes_content(*b),
{
    b.as_ref()
}

} // verus!
