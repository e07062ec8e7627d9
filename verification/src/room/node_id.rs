//! Node ids that tell the peers of a room apart.

use vstd::prelude::*;
use rand::Rng;
use crate::text::char_text;

verus! {

/// Whether `c` is an ASCII letter or digit.
pub open spec fn is_ascii_alphanumeric(c: char) -> bool {
    ('a' <= c && c <= 'z') || ('A' <= c && c <= 'Z') || ('0' <= c && c <= '9')
}

/// Draws one char from `rand::distr::Alphanumeric` with the thread-local
/// generator `rand::rng()`. Claimed, as rand documents for that
/// distribution: the char is an ASCII letter or digit.
#[verifier::external_body]
fn random_alphanumeric_char() -> (r: char)
    ensures
        is_ascii_alphanumeric(r),
{
    char::from(rand::rng().sample(rand::distr::Alphanumeric))
}

/// A random node id: sixteen ASCII letters and digits.
pub fn random_node_id() -> (r: String)
    ensures
        r@.len() == 16,
        forall|i: int| 0 <= i < r@.len() ==> is_ascii_alphanumeric(#[trigger] r@[i]),
{
    let mut id = String::new();
    let mut i: usize = 0;
    while i < 16
        invariant
            i <= 16,
            id@.len() == i,
            forall|j: int| 0 <= j < id@.len() ==> is_ascii_alphanumeric(#[trigger] id@[j]),
        decreases 16 - i,
    {
        let c = random_alphanumeric_char();
        let piece = char_text(c);
        id = id.concat(piece.as_str());
        i = i + 1;
    }
    id
}

} // verus!
