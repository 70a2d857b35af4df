//! Validation of strings that are about to cross into the native toolkit.
//!
//! The native side takes terminator-delimited strings, so a string holding an
//! embedded terminator byte must be rejected before any native call is made.

use vstd::prelude::*;
use vstd::utf8::encode_utf8;
use vstd::utf8::is_ascii_chars;
use vstd::utf8::is_ascii_chars_encode_utf8;

use crate::error::SystemTrayError;

verus! {

/// True when the byte sequence contains the native string terminator.
pub open spec fn has_nul_byte(bytes: Seq<u8>) -> bool {
    exists|i: int| 0 <= i < bytes.len() && bytes[i] == 0u8
}

/// The result `r` names the first terminator byte of `bytes`, if any.
pub open spec fn is_first_nul(bytes: Seq<u8>, i: usize) -> bool {
    &&& i < bytes.len()
    &&& bytes[i as int] == 0u8
    &&& forall|j: int| 0 <= j < i ==> bytes[j] != 0u8
}

/// An ASCII character sequence that holds no terminator character encodes
/// to a byte sequence that holds no terminator byte, so such a string always
/// passes validation.
pub proof fn lemma_ascii_nul_free(chars: Seq<char>)
    requires
        is_ascii_chars(chars),
        forall|i: int| 0 <= i < chars.len() ==> chars[i] != '\0',
    ensures
        !has_nul_byte(encode_utf8(chars)),
{
    is_ascii_chars_encode_utf8(chars);
    assert forall|i: int| 0 <= i < encode_utf8(chars).len() implies encode_utf8(chars)[i]
        != 0u8 by {
        assert(chars[i] as u8 == encode_utf8(chars)[i]);
        assert(chars[i] != '\0');
    }
}

/// Scans for the first terminator byte.
fn find_nul(bytes: &[u8]) -> (r: Option<usize>)
    ensures
        match r {
            Some(i) => is_first_nul(bytes@, i),
            None => !has_nul_byte(bytes@),
        },
{
    let mut k: usize = 0;
    while k < bytes.len()
        invariant
            k <= bytes@.len(),
            forall|j: int| 0 <= j < k ==> bytes@[j] != 0u8,
        decreases bytes@.len() - k,
    {
        if bytes[k] == 0u8 {
            return Some(k);
        }
        k = k + 1;
    }
    None
}

/// Checks that `s` can be handed to the native side as a terminator-delimited
/// string: its encoding must hold no embedded terminator byte. On failure the
/// error carries the byte index of the first terminator.
pub fn validate_native_string(s: &str) -> (r: Result<(), SystemTrayError>)
    ensures
        r is Ok <==> !has_nul_byte(encode_utf8(s@)),
        r matches Err(e) ==> (e matches SystemTrayError::Ffi(i) && is_first_nul(
            encode_utf8(s@),
            i,
        )),
{
    match find_nul(s.as_bytes()) {
        None => Ok(()),
        Some(i) => Err(SystemTrayError::Ffi(i)),
    }
}

} // verus!
