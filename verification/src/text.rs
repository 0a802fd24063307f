//! Comparing pieces of text character by character.
//!
//! Each character is reached by walking the text from its start, so both
//! functions are meant for the short names and prefixes that this crate
//! compares.

use vstd::prelude::*;
use vstd::string::*;

verus! {

/// Whether `text` begins with `prefix`.
pub fn starts_with(text: &str, prefix: &str) -> (yes: bool)
    ensures
        yes == prefix@.is_prefix_of(text@),
{
    let wanted: usize = prefix.unicode_len();
    if text.unicode_len() < wanted {
        return false;
    }
    let mut at: usize = 0;
    while at < wanted
        invariant
            at <= wanted,
            wanted == prefix@.len(),
            wanted <= text@.len(),
            forall|k: int| 0 <= k < at ==> text@[k] == prefix@[k],
        decreases wanted - at,
    {
        if text.get_char(at) != prefix.get_char(at) {
            assert(text@.subrange(0, wanted as int)[at as int] != prefix@[at as int]);
            return false;
        }
        at += 1;
    }
    assert(text@.subrange(0, wanted as int) =~= prefix@);
    true
}

/// Whether two pieces of text hold the same characters.
pub fn same_text(left: &str, right: &str) -> (yes: bool)
    ensures
        yes == (left@ == right@),
{
    if left.unicode_len() != right.unicode_len() {
        return false;
    }
    let yes = starts_with(left, right);
    assert(left@.subrange(0, left@.len() as int) =~= left@);
    yes
}

} // verus!
