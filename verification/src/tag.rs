//! Identifier Generator: short random tags from a fixed alphabet.

use vstd::prelude::*;

verus! {

/// The fixed alphabet that tags are drawn from.
pub open spec fn tag_alphabet() -> Seq<char> {
    "abfksjdfhslkjfh"@
}

/// A well-formed tag: exactly eight characters, each from the fixed
/// alphabet.
pub open spec fn valid_tag(t: Seq<char>) -> bool {
    &&& t.len() == 8
    &&& forall|i: int| 0 <= i < t.len() ==> tag_alphabet().contains(#[trigger] t[i])
}

/// Relies on random_string::generate: the result has exactly `length`
/// characters, each drawn from `charset`; it panics only when the charset
/// is empty.
#[verifier::external_body]
fn random_from_charset(length: usize, charset: &str) -> (r: String)
    requires
        charset@.len() > 0,
    ensures
        r@.len() == length,
        forall|i: int| 0 <= i < r@.len() ==> charset@.contains(#[trigger] r@[i]),
{
    random_string::generate(length, charset)
}

/// Produce a fresh eight-character tag from the fixed alphabet.  No
/// collision check against already stored tags is performed.
pub fn generate_tag() -> (r: String)
    ensures
        valid_tag(r@),
{
    let charset = "abfksjdfhslkjfh";
    proof {
        reveal_strlit("abfksjdfhslkjfh");
    }
    random_from_charset(8, charset)
}

} // verus!
