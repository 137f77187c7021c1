//! Whitespace trimming and prefix matching on character sequences.
//!
//! A record matches a pattern when the record's whitespace-trimmed content
//! starts with the whitespace-trimmed pattern. The spec functions here give
//! the mathematical meaning of trimming and matching; the exec functions
//! compute them and are proved equal to the specs.

use vstd::prelude::*;

verus! {

/// A character counts as whitespace for trimming purposes.
/// This is the Unicode `White_Space` set.
pub open spec fn is_space(c: char) -> bool {
    ||| c == '\u{0009}'
    ||| c == '\u{000A}'
    ||| c == '\u{000B}'
    ||| c == '\u{000C}'
    ||| c == '\u{000D}'
    ||| c == '\u{0020}'
    ||| c == '\u{0085}'
    ||| c == '\u{00A0}'
    ||| c == '\u{1680}'
    ||| c == '\u{2000}'
    ||| c == '\u{2001}'
    ||| c == '\u{2002}'
    ||| c == '\u{2003}'
    ||| c == '\u{2004}'
    ||| c == '\u{2005}'
    ||| c == '\u{2006}'
    ||| c == '\u{2007}'
    ||| c == '\u{2008}'
    ||| c == '\u{2009}'
    ||| c == '\u{200A}'
    ||| c == '\u{2028}'
    ||| c == '\u{2029}'
    ||| c == '\u{202F}'
    ||| c == '\u{205F}'
    ||| c == '\u{3000}'
}

/// The sequence with its leading whitespace removed.
pub open spec fn trim_start_spec(s: Seq<char>) -> Seq<char>
    decreases s.len(),
{
    if s.len() > 0 && is_space(s[0]) {
        trim_start_spec(s.drop_first())
    } else {
        s
    }
}

/// The sequence with its trailing whitespace removed.
pub open spec fn trim_end_spec(s: Seq<char>) -> Seq<char>
    decreases s.len(),
{
    if s.len() > 0 && is_space(s.last()) {
        trim_end_spec(s.drop_last())
    } else {
        s
    }
}

/// The sequence with leading and trailing whitespace removed.
pub open spec fn trim_spec(s: Seq<char>) -> Seq<char> {
    trim_end_spec(trim_start_spec(s))
}

fn is_space_char(c: char) -> (r: bool)
    ensures
        r == is_space(c),
{
    c == '\u{0009}' || c == '\u{000A}' || c == '\u{000B}' || c == '\u{000C}' || c == '\u{000D}'
        || c == '\u{0020}' || c == '\u{0085}' || c == '\u{00A0}' || c == '\u{1680}'
        || c == '\u{2000}' || c == '\u{2001}' || c == '\u{2002}' || c == '\u{2003}'
        || c == '\u{2004}' || c == '\u{2005}' || c == '\u{2006}' || c == '\u{2007}'
        || c == '\u{2008}' || c == '\u{2009}' || c == '\u{200A}' || c == '\u{2028}'
        || c == '\u{2029}' || c == '\u{202F}' || c == '\u{205F}' || c == '\u{3000}'
}

proof fn lemma_trim_start_at(s: Seq<char>, b: int)
    requires
        0 <= b <= s.len(),
        forall|j: int| 0 <= j < b ==> is_space(s[j]),
        b < s.len() ==> !is_space(s[b]),
    ensures
        trim_start_spec(s) =~= s.subrange(b, s.len() as int),
    decreases b,
{
    if b == 0 {
        if s.len() > 0 && is_space(s[0]) {
            assert(false);
        }
        assert(trim_start_spec(s) =~= s.subrange(0, s.len() as int));
    } else {
        assert(is_space(s[0]));
        let t = s.drop_first();
        assert(forall|j: int| 0 <= j < b - 1 ==> is_space(#[trigger] t[j]));
        lemma_trim_start_at(t, b - 1);
        assert(t.subrange(b - 1, t.len() as int) =~= s.subrange(b, s.len() as int));
    }
}

proof fn lemma_trim_end_at(s: Seq<char>, e: int)
    requires
        0 <= e <= s.len(),
        forall|j: int| e <= j < s.len() ==> is_space(s[j]),
        e > 0 ==> !is_space(s[e - 1]),
    ensures
        trim_end_spec(s) =~= s.subrange(0, e),
    decreases s.len() - e,
{
    if e == s.len() {
        if s.len() > 0 && is_space(s.last()) {
            assert(false);
        }
        assert(trim_end_spec(s) =~= s.subrange(0, e));
    } else {
        assert(is_space(s.last()));
        let t = s.drop_last();
        lemma_trim_end_at(t, e);
        assert(t.subrange(0, e) =~= s.subrange(0, e));
    }
}

/// The trimmed form of a string slice: the same characters with leading and
/// trailing whitespace removed.
pub fn trim(s: &str) -> (r: &str)
    ensures
        r@ == trim_spec(s@),
{
    let n = s.unicode_len();
    let mut b: usize = 0;
    while b < n && is_space_char(s.get_char(b))
        invariant
            n == s@.len(),
            0 <= b <= n,
            forall|j: int| 0 <= j < b ==> is_space(s@[j]),
        decreases n - b,
    {
        b = b + 1;
    }
    let mut e: usize = n;
    while e > b && is_space_char(s.get_char(e - 1))
        invariant
            n == s@.len(),
            b <= e <= n,
            forall|j: int| e <= j < n ==> is_space(s@[j]),
        decreases e,
    {
        e = e - 1;
    }
    proof {
        lemma_trim_start_at(s@, b as int);
        let t = s@.subrange(b as int, s@.len() as int);
        lemma_trim_end_at(t, e - b);
        assert(t.subrange(0, e - b) =~= s@.subrange(b as int, e as int));
    }
    s.substring_char(b, e)
}

/// Whether `p` is a character-for-character prefix of `s`.
pub fn starts_with(s: &str, p: &str) -> (r: bool)
    ensures
        r == p@.is_prefix_of(s@),
{
    let np = p.unicode_len();
    let ns = s.unicode_len();
    if np > ns {
        return false;
    }
    let mut i: usize = 0;
    while i < np
        invariant
            np == p@.len(),
            ns == s@.len(),
            np <= ns,
            0 <= i <= np,
            forall|j: int| 0 <= j < i ==> p@[j] == s@[j],
        decreases np - i,
    {
        if p.get_char(i) != s.get_char(i) {
            assert(!(p@ =~= s@.subrange(0, np as int)));
            return false;
        }
        i = i + 1;
    }
    assert(p@ =~= s@.subrange(0, np as int));
    true
}

} // verus!
