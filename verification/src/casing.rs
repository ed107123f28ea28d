//! ASCII lowercasing, used to match color names case-insensitively.

use vstd::prelude::*;
use vstd::string::StrSliceExecFns;

verus! {

/// Maps an ASCII uppercase letter to its lowercase counterpart; every other
/// character is unchanged.
pub open spec fn lower_char(c: char) -> char {
    if 'A' <= c && c <= 'Z' {
        ((c as u8 + 32) as u8) as char
    } else {
        c
    }
}

/// The character-wise ASCII lowercasing of a string.
pub open spec fn lower_seq(s: Seq<char>) -> Seq<char> {
    Seq::new(s.len(), |i: int| lower_char(s[i]))
}

/// Lowercases one character.
fn lower_char_exec(c: char) -> (r: char)
    ensures
        r == lower_char(c),
{
    if 'A' <= c && c <= 'Z' {
        ((c as u8) + 32) as char
    } else {
        c
    }
}

/// Decides whether the ASCII lowercasing of `s` is exactly `name`.
pub fn eq_lower(s: &str, name: &str) -> (r: bool)
    ensures
        r == (lower_seq(s@) == name@),
{
    let n = s.unicode_len();
    let m = name.unicode_len();
    if n != m {
        proof {
            assert(lower_seq(s@).len() != name@.len());
        }
        return false;
    }
    let mut i: usize = 0;
    while i < n
        invariant
            n as nat == s@.len(),
            n as nat == name@.len(),
            i <= n,
            forall|j: int| 0 <= j < i ==> lower_char(s@[j]) == name@[j],
        decreases n - i,
    {
        let c = lower_char_exec(s.get_char(i));
        let d = name.get_char(i);
        if c != d {
            proof {
                assert(lower_seq(s@)[i as int] != name@[i as int]);
            }
            return false;
        }
        i = i + 1;
    }
    proof {
        assert(lower_seq(s@) =~= name@);
    }
    true
}

} // verus!
