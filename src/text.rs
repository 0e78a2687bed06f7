//! Text units: their payload must be well-formed UTF-8.
use vstd::prelude::*;
use vstd::utf8::{decode_utf8, pop_first_scalar, valid_utf8, length_of_first_scalar};

verus! {

/// Relies on `std::str::from_utf8`: it succeeds exactly when the bytes are
/// well-formed UTF-8, and the text then holds the characters they encode.
#[verifier::external_body]
pub(crate) fn utf8_to_string(bytes: &[u8]) -> (r: Option<String>)
    ensures
        r is Some <==> valid_utf8(bytes@),
        r matches Some(t) ==> t@ == decode_utf8(bytes@),
{
    match std::str::from_utf8(bytes) {
        Ok(t) => Some(String::from(t)),
        Err(_) => None,
    }
}

/// The byte `0xFF` never occurs in well-formed UTF-8.
pub proof fn lemma_valid_utf8_has_no_ff(bytes: Seq<u8>)
    requires
        valid_utf8(bytes),
    ensures
        forall|i: int| 0 <= i < bytes.len() ==> bytes[i] != 0xFFu8,
    decreases bytes.len(),
{
    if bytes.len() > 0 {
        let n = length_of_first_scalar(bytes);
        let rest = pop_first_scalar(bytes);
        assert(1 <= n <= 4 && n <= bytes.len());
        assert(rest.len() < bytes.len());
        lemma_valid_utf8_has_no_ff(rest);
        assert forall|i: int| 0 <= i < bytes.len() implies bytes[i] != 0xFFu8 by {
            if i >= n {
                assert(bytes[i] == rest[i - n]);
            }
        }
    }
}

} // verus!
