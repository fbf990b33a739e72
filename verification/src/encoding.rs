//! Base64 text of uploaded bytes.

use vstd::prelude::*;

verus! {

/// The padded base64 text, in the standard alphabet, of a byte string.
pub uninterp spec fn base64_standard(data: Seq<u8>) -> Seq<char>;

/// Number of characters that padded base64 needs for `len` bytes: four for
/// every started group of three.
pub open spec fn base64_len(len: nat) -> nat {
    4 * ((len + 2) / 3)
}

/// Whether the base64 text of `len` bytes can be addressed on this machine.
pub open spec fn encodable_len(len: nat) -> bool {
    base64_len(len) <= usize::MAX
}

/// Decides [`encodable_len`] for a length at hand.
pub fn is_encodable_len(len: usize) -> (fits: bool)
    ensures
        fits == encodable_len(len as nat),
{
    let full: usize = len / 3;
    let groups: usize = if len % 3 == 0 {
        full
    } else {
        full + 1
    };
    groups <= usize::MAX / 4
}

/// Trusted: calls `Engine::encode` of the `base64` crate on its `STANDARD`
/// engine. The contract names the text that comes back, as a function of the
/// bytes alone, and says nothing else about it. The engine panics when the
/// length of the text overflows `usize`; the precondition rules that out.
#[verifier::external_body]
pub(crate) fn encode_base64(data: &[u8]) -> (text: String)
    requires
        encodable_len(data@.len()),
    ensures
        text@ == base64_standard(data@),
{
    base64::Engine::encode(&base64::engine::general_purpose::STANDARD, data)
}

} // verus!
