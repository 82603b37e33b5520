//! Rejection of strings that cannot cross the native boundary: a string is
//! handed to the native layer as a null-terminated sequence, so a string
//! holding an embedded null byte is rejected before any native call. In
//! UTF-8 the byte zero occurs exactly as the character `'\0'`, so the check
//! is stated over the string's characters.

use vstd::prelude::*;

verus! {

/// Whether the string holds an embedded null character.
pub open spec fn has_nul(s: Seq<char>) -> bool {
    exists|i: int| 0 <= i < s.len() && s[i] == '\0'
}

/// Scans a string for an embedded null character.
pub fn contains_nul(s: &str) -> (r: bool)
    ensures
        r == has_nul(s@),
{
    let len = s.unicode_len();
    let mut i: usize = 0;
    while i < len
        invariant
            len == s@.len(),
            i <= len,
            forall|j: int| 0 <= j < i ==> s@[j] != '\0',
        decreases len - i,
    {
        if s.get_char(i) == '\0' {
            return true;
        }
        i = i + 1;
    }
    false
}

} // verus!
