use vstd::prelude::*;
use vstd::string::*;

verus! {

/// The ASCII lower-case form of a character; every other character is unchanged.
pub open spec fn ascii_lower_char(c: char) -> char {
    if 'A' <= c && c <= 'Z' {
        ((c as u32) + 32) as char
    } else {
        c
    }
}

/// The ASCII lower-case form of a string, character by character.
pub open spec fn ascii_lower(s: Seq<char>) -> Seq<char> {
    s.map_values(|c: char| ascii_lower_char(c))
}

/// Builds the identifier `base` followed by `suffix`, as device and cable
/// socket names are built from their owner's name.
pub fn suffixed(base: &str, suffix: &str) -> (r: String)
    ensures
        r@ == base@ + suffix@,
{
    let mut s = String::from_str(base);
    s.append(suffix);
    s
}

/// Whether the ASCII lower-case form of `s` is exactly `target`.
pub fn ascii_lower_equals(s: &str, target: &str) -> (r: bool)
    ensures
        r == (ascii_lower(s@) == target@),
{
    let n: usize = s.unicode_len();
    let m: usize = target.unicode_len();
    if n != m {
        proof {
            assert(ascii_lower(s@).len() != target@.len());
        }
        return false;
    }
    let mut i: usize = 0;
    while i < n
        invariant
            n == s@.len(),
            m == target@.len(),
            n == m,
            i <= n,
            forall|j: int| 0 <= j < i ==> ascii_lower_char(s@[j]) == target@[j],
        decreases n - i,
    {
        let c = s.get_char(i);
        let d = target.get_char(i);
        let same = if 'A' <= c && c <= 'Z' {
            (c as u32) + 32 == (d as u32)
        } else {
            c == d
        };
        if !same {
            proof {
                assert(ascii_lower(s@)[i as int] != target@[i as int]);
            }
            return false;
        }
        i = i + 1;
    }
    proof {
        assert(ascii_lower(s@) =~= target@);
    }
    true
}

} // verus!
