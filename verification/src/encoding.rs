//! Base64 transport encoding of the synthetic response body.

use vstd::prelude::*;

verus! {

/// The padded base64 text, over the standard alphabet, of a byte sequence.
pub uninterp spec fn base64_standard(bytes: Seq<u8>) -> Seq<char>;

/// Whether the length of the base64 text of `len` bytes fits the machine's
/// word.
pub open spec fn base64_encodable(len: nat) -> bool {
    len / 3 * 4 + 4 <= usize::MAX
}

/// Calls `base64::Engine::encode` on the engine `base64::prelude::BASE64_STANDARD`.
///
/// Trusted: the text returned is taken to be the standard padded base64 form
/// of `bytes`, a function of the bytes alone. The call panics when the length
/// of that text overflows `usize`; the precondition keeps such inputs out.
#[verifier::external_body]
pub(crate) fn encode_base64(bytes: &[u8]) -> (text: String)
    requires
        base64_encodable(bytes@.len()),
    ensures
        text@ == base64_standard(bytes@),
{
    base64::Engine::encode(&base64::prelude::BASE64_STANDARD, bytes)
}

} // verus!
