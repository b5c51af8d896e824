//! Small verified helpers on strings.

use vstd::prelude::*;
use vstd::string::StrSliceExecFns;

verus! {

/// Character-for-character equality of two string slices.
pub fn str_eq(a: &str, b: &str) -> (r: bool)
    ensures
        r <==> a@ == b@,
{
    let la = a.unicode_len();
    let lb = b.unicode_len();
    if la != lb {
        return false;
    }
    let mut i: usize = 0;
    while i < la
        invariant
            i <= la,
            la == a@.len(),
            la == b@.len(),
            forall|j: int| 0 <= j < i ==> a@[j] == b@[j],
        decreases la - i,
    {
        if a.get_char(i) != b.get_char(i) {
            return false;
        }
        i = i + 1;
    }
    proof {
        assert(a@ =~= b@);
    }
    true
}

/// The ASCII-lowercase counterpart of a character; anything outside
/// `'A'..='Z'` is left as it is.
pub open spec fn lower_char(c: char) -> char {
    if c == 'A' { 'a' } else if c == 'B' { 'b' } else if c == 'C' { 'c' }
    else if c == 'D' { 'd' } else if c == 'E' { 'e' } else if c == 'F' { 'f' }
    else if c == 'G' { 'g' } else if c == 'H' { 'h' } else if c == 'I' { 'i' }
    else if c == 'J' { 'j' } else if c == 'K' { 'k' } else if c == 'L' { 'l' }
    else if c == 'M' { 'm' } else if c == 'N' { 'n' } else if c == 'O' { 'o' }
    else if c == 'P' { 'p' } else if c == 'Q' { 'q' } else if c == 'R' { 'r' }
    else if c == 'S' { 's' } else if c == 'T' { 't' } else if c == 'U' { 'u' }
    else if c == 'V' { 'v' } else if c == 'W' { 'w' } else if c == 'X' { 'x' }
    else if c == 'Y' { 'y' } else if c == 'Z' { 'z' } else { c }
}

/// A character sequence with every ASCII capital letter lowered.
pub open spec fn lower_of(s: Seq<char>) -> Seq<char> {
    s.map_values(|c: char| lower_char(c))
}

/// The ASCII-lowercase counterpart of a character, as executable code.
fn lower_char_exec(c: char) -> (r: char)
    ensures
        r == lower_char(c),
{
    match c {
        'A' => 'a', 'B' => 'b', 'C' => 'c', 'D' => 'd', 'E' => 'e', 'F' => 'f',
        'G' => 'g', 'H' => 'h', 'I' => 'i', 'J' => 'j', 'K' => 'k', 'L' => 'l',
        'M' => 'm', 'N' => 'n', 'O' => 'o', 'P' => 'p', 'Q' => 'q', 'R' => 'r',
        'S' => 's', 'T' => 't', 'U' => 'u', 'V' => 'v', 'W' => 'w', 'X' => 'x',
        'Y' => 'y', 'Z' => 'z', _ => c,
    }
}

/// Equality of two string slices up to ASCII case.
pub fn str_eq_ignore_ascii_case(a: &str, b: &str) -> (r: bool)
    ensures
        r <==> lower_of(a@) == lower_of(b@),
{
    let la = a.unicode_len();
    let lb = b.unicode_len();
    if la != lb {
        proof {
            assert(lower_of(a@).len() != lower_of(b@).len());
        }
        return false;
    }
    let mut i: usize = 0;
    while i < la
        invariant
            i <= la,
            la == a@.len(),
            la == b@.len(),
            forall|j: int| 0 <= j < i ==> lower_char(a@[j]) == lower_char(b@[j]),
        decreases la - i,
    {
        if lower_char_exec(a.get_char(i)) != lower_char_exec(b.get_char(i)) {
            proof {
                assert(lower_of(a@)[i as int] != lower_of(b@)[i as int]);
            }
            return false;
        }
        i = i + 1;
    }
    proof {
        assert(lower_of(a@) =~= lower_of(b@));
    }
    true
}

/// True when `s` starts with the seven characters of a bearer-scheme prefix.
pub open spec fn has_bearer_prefix(s: Seq<char>) -> bool {
    s.len() >= 7 && s.subrange(0, 7) == "Bearer "@
}

/// Strips a leading `"Bearer "` from a header value, if present.
pub fn strip_bearer(s: &str) -> (r: Option<String>)
    ensures
        match r {
            Some(t) => has_bearer_prefix(s@) && t@ == s@.subrange(7, s@.len() as int),
            None => !has_bearer_prefix(s@),
        },
{
    proof {
        reveal_strlit("Bearer ");
    }
    let l = s.unicode_len();
    if l < 7 {
        return None;
    }
    if s.get_char(0) == 'B' && s.get_char(1) == 'e' && s.get_char(2) == 'a'
        && s.get_char(3) == 'r' && s.get_char(4) == 'e' && s.get_char(5) == 'r'
        && s.get_char(6) == ' '
    {
        let rest = s.substring_char(7, l);
        proof {
            assert(s@.subrange(0, 7) =~= "Bearer "@);
        }
        Some(rest.to_owned())
    } else {
        proof {
            assert(s@.subrange(0, 7) != "Bearer "@) by {
                if s@.subrange(0, 7) == "Bearer "@ {
                    assert(s@[0] == "Bearer "@[0]);
                    assert(s@[1] == "Bearer "@[1]);
                    assert(s@[2] == "Bearer "@[2]);
                    assert(s@[3] == "Bearer "@[3]);
                    assert(s@[4] == "Bearer "@[4]);
                    assert(s@[5] == "Bearer "@[5]);
                    assert(s@[6] == "Bearer "@[6]);
                }
            }
        }
        None
    }
}

} // verus!
