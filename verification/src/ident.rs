//! Identifiers of records.

use vstd::prelude::*;

verus! {

/// The length of an identifier in its written form.
pub const ID_LEN: usize = 36;

/// True of the digits `0` to `9` and the letters `a` to `f`.
pub open spec fn is_lower_hex(c: char) -> bool {
    ('0' <= c && c <= '9') || ('a' <= c && c <= 'f')
}

/// The four places of an identifier that hold a hyphen.
pub open spec fn is_hyphen_place(i: int) -> bool {
    i == 8 || i == 13 || i == 18 || i == 23
}

/// True of a UUID written in lower case with hyphens, as in
/// `67e55044-10b1-426f-9247-bb680e5fe0c8`: five groups of 8, 4, 4, 4 and 12
/// hexadecimal digits.
pub open spec fn is_uuid_text(s: Seq<char>) -> bool {
    &&& s.len() == ID_LEN
    &&& forall|i: int|
        #![trigger s[i]]
        0 <= i < s.len() ==> if is_hyphen_place(i) {
            s[i] == '-'
        } else {
            is_lower_hex(s[i])
        }
}

/// True of the written form of a random (version 4) UUID: the first digit of
/// the third group is `4`, and the first digit of the fourth group is one of
/// `8`, `9`, `a` and `b`.
pub open spec fn is_random_uuid_text(s: Seq<char>) -> bool {
    &&& is_uuid_text(s)
    &&& s[14] == '4'
    &&& (s[19] == '8' || s[19] == '9' || s[19] == 'a' || s[19] == 'b')
}

/// Draws a random UUID with `uuid::Uuid::new_v4` and writes it out with its
/// `Display`, which is the hyphenated lower-case form.
///
/// Trusted: the text has the shape of a version 4 UUID. Which of them it is
/// depends on the system's random numbers, so nothing is claimed of that, nor
/// that two calls differ. uuid stops the program if the system gives it no
/// random bytes.
#[verifier::external_body]
pub(crate) fn fresh_id() -> (id: String)
    ensures
        is_random_uuid_text(id@),
{
    uuid::Uuid::new_v4().to_string()
}

} // verus!
