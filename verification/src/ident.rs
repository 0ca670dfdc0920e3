//! Fresh identifiers for catalog rows and for the blobs behind them.

use vstd::prelude::*;

verus! {

/// Whether `c` is a digit or one of the letters `a` to `f`.
pub open spec fn is_lower_hex(c: char) -> bool {
    ('0' <= c && c <= '9') || ('a' <= c && c <= 'f')
}

/// Whether position `i` of an identifier holds a hyphen.
pub open spec fn is_hyphen_position(i: int) -> bool {
    i == 8 || i == 13 || i == 18 || i == 23
}

/// The shape of an identifier: 36 characters, hyphens after the 8th, 12th, 16th
/// and 20th of its 32 lower-case hexadecimal digits.
pub open spec fn is_identifier_text(s: Seq<char>) -> bool {
    &&& s.len() == 36
    &&& forall|i: int|
        0 <= i < 36 ==> if is_hyphen_position(i) {
            #[trigger] s[i] == '-'
        } else {
            is_lower_hex(s[i])
        }
}

/// Draws a random identifier.
///
/// Calls `uuid::Uuid::new_v4` and renders the result with `to_string`, which
/// writes the hyphenated lower-case form. Only that form is claimed: which
/// identifier comes back is left open, and two calls may return the same one.
/// The call fails only where the operating system cannot supply random bytes.
#[verifier::external_body]
pub(crate) fn fresh_identifier() -> (id: String)
    ensures
        is_identifier_text(id@),
{
    uuid::Uuid::new_v4().to_string()
}

/// An identifier holds neither a dot nor a path separator.
pub proof fn lemma_identifier_is_plain(s: Seq<char>)
    requires
        is_identifier_text(s),
    ensures
        forall|i: int| 0 <= i < s.len() ==> s[i] != '.' && s[i] != '/',
{
    assert forall|i: int| 0 <= i < s.len() implies s[i] != '.' && s[i] != '/' by {
        if is_hyphen_position(i) {
            assert(s[i] == '-');
        } else {
            assert(is_lower_hex(s[i]));
        }
    }
}

} // verus!
