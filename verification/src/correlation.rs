//! Correlation identifiers: the tokens that tie a request to its reply.

use vstd::prelude::*;

verus! {

/// The length of a correlation identifier, in characters.
pub const CORRELATION_ID_LEN: usize = 36;

/// A lowercase hexadecimal digit.
pub open spec fn is_lower_hex(c: char) -> bool {
    ('0' <= c && c <= '9') || ('a' <= c && c <= 'f')
}

/// The positions of the four hyphens in a correlation identifier.
pub open spec fn is_hyphen_position(i: int) -> bool {
    i == 8 || i == 13 || i == 18 || i == 23
}

/// The shape of every correlation identifier this crate generates: a 128-bit
/// value written as 32 lowercase hexadecimal digits in groups of 8, 4, 4, 4
/// and 12, separated by hyphens, marked as randomly generated (the first
/// digit of the third group is `4`, the first digit of the fourth group is
/// one of `8`, `9`, `a`, `b`).
pub open spec fn is_correlation_id(id: Seq<char>) -> bool {
    &&& id.len() == CORRELATION_ID_LEN
    &&& forall|i: int|
        #![trigger id[i]]
        0 <= i < id.len() ==> if is_hyphen_position(i) {
            id[i] == '-'
        } else {
            is_lower_hex(id[i])
        }
    &&& id[14] == '4'
    &&& (id[19] == '8' || id[19] == '9' || id[19] == 'a' || id[19] == 'b')
}

/// Trusted: `uuid::Uuid::new_v4`, rendered with the `Display` implementation
/// of `Uuid`.
///
/// The value is random, so nothing relates two calls. What is claimed holds
/// of every outcome: `new_v4` forces the version and variant bits, and
/// `Display` writes the hyphenated lowercase form. `new_v4` panics if the
/// operating system cannot supply random bytes.
#[verifier::external_body]
fn random_uuid_text() -> (text: String)
    ensures
        is_correlation_id(text@),
{
    uuid::Uuid::new_v4().to_string()
}

/// A fresh correlation identifier, drawn at random from a 122-bit space.
///
/// Uniqueness across callers is a matter of probability and is not part of
/// the contract; the contract fixes the shape of the token. Panics if the
/// operating system cannot supply random bytes.
pub fn new_correlation_id() -> (id: String)
    ensures
        is_correlation_id(id@),
{
    random_uuid_text()
}

} // verus!
