use vstd::prelude::*;

verus! {

/// The standard base64 text encoding (padded, no line wrapping) of a byte
/// sequence. The encoding is a function of the bytes alone.
pub uninterp spec fn base64_of(bytes: Seq<u8>) -> Seq<char>;

/// Whether the base64 encoding of `n` input bytes fits in memory: the
/// encoder sizes its output buffer at four characters per three-byte
/// group, rounded up.
pub open spec fn encoded_len_fits(n: nat) -> bool {
    4 * ((n + 2) / 3) <= usize::MAX
}

/// Relies on base64::encode: the standard alphabet with padding and no
/// line wrapping, four output characters per three-byte input group; the
/// result depends on the input bytes alone.
#[verifier::external_body]
pub(crate) fn base64_encode(bytes: &[u8]) -> (r: String)
    requires
        encoded_len_fits(bytes@.len()),
    ensures
        r@ == base64_of(bytes@),
        r@.len() == 4 * ((bytes@.len() + 2) / 3),
{
    base64::encode(bytes)
}

} // verus!
