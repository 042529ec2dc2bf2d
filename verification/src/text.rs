//! Character-level text utilities: whitespace classification, first-index
//! searches, and trimming, with the spec functions the other modules build
//! their contracts on.

use vstd::prelude::*;
use vstd::string::*;

verus! {

/// The whitespace characters this library recognises: the ASCII blanks that
/// occur in toolchain output.
pub open spec fn is_space(c: char) -> bool {
    c == ' ' || c == '\t' || c == '\r' || c == '\n'
}

/// Index of the first line break in `s`, or `s.len()` if there is none.
pub open spec fn line_break(s: Seq<char>) -> nat
    decreases s.len(),
{
    if s.len() == 0 {
        0
    } else if s[0] == '\n' {
        0
    } else {
        1 + line_break(s.drop_first())
    }
}

/// Index of the first non-whitespace character in `s`, or `s.len()`.
pub open spec fn token_start(s: Seq<char>) -> nat
    decreases s.len(),
{
    if s.len() == 0 {
        0
    } else if !is_space(s[0]) {
        0
    } else {
        1 + token_start(s.drop_first())
    }
}

/// Index of the first whitespace character in `s`, or `s.len()`.
pub open spec fn space_at(s: Seq<char>) -> nat
    decreases s.len(),
{
    if s.len() == 0 {
        0
    } else if is_space(s[0]) {
        0
    } else {
        1 + space_at(s.drop_first())
    }
}

/// Index just past the last non-whitespace character of `s`, or 0 if `s` is
/// all whitespace.
pub open spec fn trim_end_at(s: Seq<char>) -> nat
    decreases s.len(),
{
    if s.len() == 0 {
        0
    } else if is_space(s.last()) {
        trim_end_at(s.drop_last())
    } else {
        s.len()
    }
}

/// `s` with leading and trailing whitespace removed.
pub open spec fn trimmed(s: Seq<char>) -> Seq<char> {
    if token_start(s) == s.len() {
        Seq::empty()
    } else {
        s.subrange(token_start(s) as int, trim_end_at(s) as int)
    }
}

pub proof fn lemma_line_break(s: Seq<char>)
    ensures
        line_break(s) <= s.len(),
        line_break(s) < s.len() ==> s[line_break(s) as int] == '\n',
        forall|k: int| 0 <= k < line_break(s) ==> s[k] != '\n',
    decreases s.len(),
{
    if s.len() != 0 && s[0] != '\n' {
        let t = s.drop_first();
        lemma_line_break(t);
        assert forall|k: int| 0 <= k < line_break(s) implies s[k] != '\n' by {
            if k > 0 {
                assert(s[k] == t[k - 1]);
            }
        }
    }
}

pub proof fn lemma_line_break_unique(s: Seq<char>, i: int)
    requires
        0 <= i <= s.len(),
        i < s.len() ==> s[i] == '\n',
        forall|k: int| 0 <= k < i ==> s[k] != '\n',
    ensures
        line_break(s) == i,
    decreases s.len(),
{
    if s.len() == 0 {
    } else if s[0] == '\n' {
        assert(i == 0);
    } else {
        let t = s.drop_first();
        assert forall|k: int| 0 <= k < i - 1 implies t[k] != '\n' by {
            assert(t[k] == s[k + 1]);
        }
        lemma_line_break_unique(t, i - 1);
    }
}

pub proof fn lemma_token_start_unique(s: Seq<char>, i: int)
    requires
        0 <= i <= s.len(),
        i < s.len() ==> !is_space(s[i]),
        forall|k: int| 0 <= k < i ==> is_space(s[k]),
    ensures
        token_start(s) == i,
    decreases s.len(),
{
    if s.len() == 0 {
    } else if !is_space(s[0]) {
        assert(i == 0);
    } else {
        let t = s.drop_first();
        assert forall|k: int| 0 <= k < i - 1 implies is_space(t[k]) by {
            assert(t[k] == s[k + 1]);
        }
        lemma_token_start_unique(t, i - 1);
    }
}

pub proof fn lemma_space_at_unique(s: Seq<char>, i: int)
    requires
        0 <= i <= s.len(),
        i < s.len() ==> is_space(s[i]),
        forall|k: int| 0 <= k < i ==> !is_space(s[k]),
    ensures
        space_at(s) == i,
    decreases s.len(),
{
    if s.len() == 0 {
    } else if is_space(s[0]) {
        assert(i == 0);
    } else {
        let t = s.drop_first();
        assert forall|k: int| 0 <= k < i - 1 implies !is_space(t[k]) by {
            assert(t[k] == s[k + 1]);
        }
        lemma_space_at_unique(t, i - 1);
    }
}

pub proof fn lemma_trim_end_at_unique(s: Seq<char>, i: int)
    requires
        0 <= i <= s.len(),
        i > 0 ==> !is_space(s[i - 1]),
        forall|k: int| i <= k < s.len() ==> is_space(s[k]),
    ensures
        trim_end_at(s) == i,
    decreases s.len(),
{
    if s.len() == 0 {
    } else if is_space(s.last()) {
        let t = s.drop_last();
        assert(i < s.len());
        assert forall|k: int| i <= k < t.len() implies is_space(t[k]) by {
            assert(t[k] == s[k]);
        }
        lemma_trim_end_at_unique(t, i);
    } else {
        assert(i == s.len());
    }
}

/// Exec check for the whitespace set of `is_space`.
pub fn is_space_char(c: char) -> (b: bool)
    ensures
        b == is_space(c),
{
    c == ' ' || c == '\t' || c == '\r' || c == '\n'
}

/// First index of a line break in `s`, or its length if there is none.
pub fn find_line_break(s: &str) -> (n: usize)
    ensures
        n == line_break(s@),
{
    let len = s.unicode_len();
    let mut i: usize = 0;
    while i < len
        invariant
            i <= len,
            len == s@.len(),
            forall|k: int| 0 <= k < i ==> s@[k] != '\n',
        decreases len - i,
    {
        if s.get_char(i) == '\n' {
            proof {
                lemma_line_break_unique(s@, i as int);
            }
            return i;
        }
        i = i + 1;
    }
    proof {
        lemma_line_break_unique(s@, len as int);
    }
    len
}

/// First index at or past `from` holding a non-whitespace character, or the
/// length of `s` if there is none.
pub fn find_token_start(s: &str, from: usize) -> (n: usize)
    requires
        from <= s@.len(),
    ensures
        from <= n <= s@.len(),
        n < s@.len() ==> !is_space(s@[n as int]),
        forall|k: int| from <= k < n ==> is_space(s@[k]),
{
    let len = s.unicode_len();
    let mut i: usize = from;
    while i < len
        invariant
            from <= i <= len,
            len == s@.len(),
            forall|k: int| from <= k < i ==> is_space(s@[k]),
        decreases len - i,
    {
        if !is_space_char(s.get_char(i)) {
            return i;
        }
        i = i + 1;
    }
    len
}

/// First index at or past `from` holding a whitespace character, or the
/// length of `s` if there is none.
pub fn find_space(s: &str, from: usize) -> (n: usize)
    requires
        from <= s@.len(),
    ensures
        from <= n <= s@.len(),
        n < s@.len() ==> is_space(s@[n as int]),
        forall|k: int| from <= k < n ==> !is_space(s@[k]),
{
    let len = s.unicode_len();
    let mut i: usize = from;
    while i < len
        invariant
            from <= i <= len,
            len == s@.len(),
            forall|k: int| from <= k < i ==> !is_space(s@[k]),
        decreases len - i,
    {
        if is_space_char(s.get_char(i)) {
            return i;
        }
        i = i + 1;
    }
    len
}

/// `s` without leading or trailing whitespace.
pub fn trim<'a>(s: &'a str) -> (r: &'a str)
    ensures
        r@ == trimmed(s@),
{
    let len = s.unicode_len();
    let a = find_token_start(s, 0);
    proof {
        lemma_token_start_unique(s@, a as int);
    }
    if a == len {
        let empty = s.substring_char(0, 0);
        assert(empty@ =~= trimmed(s@));
        return empty;
    }
    let mut b: usize = len;
    while is_space_char(s.get_char(b - 1))
        invariant
            a < b <= len,
            len == s@.len(),
            a == token_start(s@),
            a < len,
            !is_space(s@[a as int]),
            forall|k: int| b <= k < len ==> is_space(s@[k]),
        decreases b,
    {
        assert(b - 1 > a) by {
            assert(!is_space(s@[a as int]));
        }
        b = b - 1;
    }
    proof {
        lemma_trim_end_at_unique(s@, b as int);
    }
    s.substring_char(a, b)
}

} // verus!
