//! Record identifiers: ULIDs, written as 26 characters of Crockford's base32.
use vstd::prelude::*;

verus! {

/// A character of Crockford's base32 alphabet as ULIDs write it (upper case,
/// without `I`, `L`, `O` and `U`).
pub open spec fn is_ulid_char_upper(c: char) -> bool {
    ('0' <= c <= '9') || ('A' <= c <= 'Z' && c != 'I' && c != 'L' && c != 'O' && c != 'U')
}

/// A character that ULID decoding accepts: an alphabet character in either case.
pub open spec fn is_ulid_char(c: char) -> bool {
    is_ulid_char_upper(c) || ('a' <= c <= 'z' && c != 'i' && c != 'l' && c != 'o' && c != 'u')
}

/// A text that `ulid::Ulid::from_string` accepts: 26 alphabet characters.
pub open spec fn is_ulid_text(s: Seq<char>) -> bool {
    s.len() == 26 && forall|i: int| 0 <= i < s.len() ==> is_ulid_char(#[trigger] s[i])
}

/// A freshly generated ULID as text (`Ulid::new().to_string()`). The value
/// depends on the clock and on a random source; the text is always 26
/// upper-case alphabet characters.
#[verifier::external_body]
pub(crate) fn new_ulid_string() -> (s: String)
    ensures
        s@.len() == 26,
        forall|i: int| 0 <= i < s@.len() ==> is_ulid_char_upper(#[trigger] s@[i]),
{
    ulid::Ulid::new().to_string()
}

/// Whether `ulid::Ulid::from_string` accepts `s`: exactly 26 bytes, each an
/// alphabet character of either case.
#[verifier::external_body]
pub(crate) fn is_valid_ulid(s: &str) -> (b: bool)
    ensures
        b == is_ulid_text(s@),
{
    ulid::Ulid::from_string(s).is_ok()
}

} // verus!
