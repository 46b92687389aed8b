//! Comparisons of texts, character by character.

use vstd::prelude::*;
use vstd::string::*;
use vstd::utf8::*;

verus! {

/// The code of a character with the ASCII capitals mapped to their small
/// letters and every other character left as it is.
pub open spec fn ascii_lower_code(c: char) -> int {
    if 65 <= c as int && c as int <= 90 {
        c as int + 32
    } else {
        c as int
    }
}

/// Whether two texts are the same but for the case of ASCII letters.
pub open spec fn same_ignoring_ascii_case(a: Seq<char>, b: Seq<char>) -> bool {
    a.len() == b.len() && forall|i: int|
        0 <= i < a.len() ==> ascii_lower_code(#[trigger] a[i]) == ascii_lower_code(b[i])
}

/// Whether two strings hold the same characters.
pub fn same_text(a: &str, b: &str) -> (same: bool)
    ensures
        same == (a@ == b@),
{
    let left = a.as_bytes();
    let right = b.as_bytes();
    proof {
        encode_utf8_decode_utf8(a@);
        encode_utf8_decode_utf8(b@);
    }
    if left.len() != right.len() {
        return false;
    }
    let mut i: usize = 0;
    while i < left.len()
        invariant
            left@ == encode_utf8(a@),
            right@ == encode_utf8(b@),
            left@.len() == right@.len(),
            0 <= i <= left@.len(),
            forall|k: int| 0 <= k < i ==> left@[k] == right@[k],
        decreases left@.len() - i,
    {
        if left[i] != right[i] {
            assert(left@[i as int] != right@[i as int]);
            assert(a@ != b@) by {
                if a@ == b@ {
                    assert(left@ == right@);
                }
            }
            return false;
        }
        i = i + 1;
    }
    assert(left@ =~= right@);
    true
}

fn lower_code(c: char) -> (code: u32)
    ensures
        code == ascii_lower_code(c),
{
    let code: u32 = c as u32;
    if 65 <= code && code <= 90 {
        code + 32
    } else {
        code
    }
}

/// Compares two texts, ignoring the case of ASCII letters.
pub fn matches_ignoring_ascii_case(text: &str, word: &str) -> (same: bool)
    ensures
        same == same_ignoring_ascii_case(text@, word@),
{
    let count = word.unicode_len();
    if text.unicode_len() != count {
        return false;
    }
    let mut i: usize = 0;
    while i < count
        invariant
            count == word@.len(),
            count == text@.len(),
            0 <= i <= count,
            forall|k: int|
                0 <= k < i ==> ascii_lower_code(#[trigger] text@[k]) == ascii_lower_code(word@[k]),
        decreases count - i,
    {
        if lower_code(text.get_char(i)) != lower_code(word.get_char(i)) {
            assert(ascii_lower_code(text@[i as int]) != ascii_lower_code(word@[i as int]));
            return false;
        }
        i = i + 1;
    }
    true
}

} // verus!
