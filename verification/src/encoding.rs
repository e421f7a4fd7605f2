//! Base64 encoding of file contents for transport to the front end.

use base64::Engine;
use vstd::prelude::*;

verus! {

/// What the standard, padded base64 engine produces for a byte sequence.
pub uninterp spec fn base64_standard_of(bytes: Seq<u8>) -> Seq<char>;

/// Relies on `base64::engine::general_purpose::STANDARD.encode` (crate
/// `base64`): the standard alphabet with padding, producing four characters
/// for every started group of three input bytes, and panicking only when
/// that length overflows `usize`.
#[verifier::external_body]
fn base64_encode_raw(data: &Vec<u8>) -> (r: String)
    requires
        4 * ((data@.len() + 2) / 3) <= usize::MAX,
    ensures
        r@ == base64_standard_of(data@),
        r@.len() == 4 * ((data@.len() + 2) / 3),
{
    base64::engine::general_purpose::STANDARD.encode(data.as_slice())
}

/// Encodes bytes as standard, padded base64.  `None` exactly when the
/// encoded form would not fit in memory: four characters per started group
/// of three bytes.
pub fn encode_base64(data: &Vec<u8>) -> (r: Option<String>)
    ensures
        match r {
            Some(s) => 4 * ((data@.len() + 2) / 3) <= usize::MAX && s@ == base64_standard_of(
                data@,
            ) && s@.len() == 4 * ((data@.len() + 2) / 3),
            None => 4 * ((data@.len() + 2) / 3) > usize::MAX,
        },
{
    let n = data.len();
    let needed: u128 = 4u128 * ((n as u128 + 2) / 3);
    if needed <= usize::MAX as u128 {
        Some(base64_encode_raw(data))
    } else {
        None
    }
}

} // verus!
