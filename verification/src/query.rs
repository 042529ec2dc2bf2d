//! The logic of the `current` and `list` commands: they take the captured
//! output of the external toolchain binary and turn it into the lines the
//! tool prints.

use vstd::prelude::*;
use vstd::string::*;

use crate::text::{
    find_line_break, find_space, find_token_start, is_space, lemma_line_break,
    lemma_space_at_unique, lemma_token_start_unique, line_break, space_at, token_start, trim,
    trimmed,
};

verus! {

/// `line` without a trailing carriage return, as a line-based split of
/// CRLF-terminated output leaves one behind.
pub open spec fn strip_cr(line: Seq<char>) -> Seq<char> {
    if line.len() > 0 && line.last() == '\r' {
        line.drop_last()
    } else {
        line
    }
}

/// Whether `line` holds any non-whitespace character, and so contributes a
/// version token to the listing.
pub open spec fn has_token(line: Seq<char>) -> bool {
    token_start(line) < line.len()
}

/// The first whitespace-delimited token of `line`: the run of non-whitespace
/// characters starting at the first non-whitespace character.
pub open spec fn first_token(line: Seq<char>) -> Seq<char> {
    let a = token_start(line) as int;
    line.subrange(a, a + space_at(line.subrange(a, line.len() as int)))
}

/// The tokens a line contributes: its first token, or nothing when it is
/// empty or all whitespace.
pub open spec fn line_tokens(line: Seq<char>) -> Seq<Seq<char>> {
    if has_token(line) {
        seq![first_token(line)]
    } else {
        Seq::empty()
    }
}

/// The version tokens of a whole SDK listing: one per line that holds a
/// token, in the order of the lines. Lines are separated by line breaks, and
/// a carriage return left at the end of a line is not part of it.
pub open spec fn listing_tokens(s: Seq<char>) -> Seq<Seq<char>>
    decreases s.len(),
{
    if s.len() == 0 {
        Seq::empty()
    } else {
        let n = line_break(s) as int;
        if n < s.len() {
            line_tokens(strip_cr(s.subrange(0, n))) + listing_tokens(
                s.subrange(n + 1, s.len() as int),
            )
        } else {
            line_tokens(strip_cr(s))
        }
    }
}

/// The lines of a listing: the text split at line breaks, each line without
/// a trailing carriage return.
pub open spec fn listing_lines(s: Seq<char>) -> Seq<Seq<char>>
    decreases s.len(),
{
    if s.len() == 0 {
        Seq::empty()
    } else {
        let n = line_break(s) as int;
        if n < s.len() {
            seq![strip_cr(s.subrange(0, n))] + listing_lines(s.subrange(n + 1, s.len() as int))
        } else {
            seq![strip_cr(s)]
        }
    }
}

/// The tokens a sequence of lines contributes, line by line.
pub open spec fn lines_tokens(lines: Seq<Seq<char>>) -> Seq<Seq<char>>
    decreases lines.len(),
{
    if lines.len() == 0 {
        Seq::empty()
    } else {
        line_tokens(lines[0]) + lines_tokens(lines.drop_first())
    }
}

/// How many lines hold a token.
pub open spec fn token_line_count(lines: Seq<Seq<char>>) -> nat
    decreases lines.len(),
{
    if lines.len() == 0 {
        0
    } else {
        (if has_token(lines[0]) {
            1nat
        } else {
            0nat
        }) + token_line_count(lines.drop_first())
    }
}

proof fn lemma_lines_tokens_count(lines: Seq<Seq<char>>)
    ensures
        lines_tokens(lines).len() == token_line_count(lines),
    decreases lines.len(),
{
    if lines.len() != 0 {
        lemma_lines_tokens_count(lines.drop_first());
    }
}

/// The listing law: the output tokens are exactly what the lines of the
/// listing contribute — one token per line that holds one, namely that
/// line's first whitespace-delimited token, in line order — so the output
/// has as many entries as there are lines with a token.
pub proof fn lemma_tokens_follow_lines(s: Seq<char>)
    ensures
        listing_tokens(s) == lines_tokens(listing_lines(s)),
        listing_tokens(s).len() == token_line_count(listing_lines(s)),
    decreases s.len(),
{
    reveal_with_fuel(lines_tokens, 3);
    if s.len() == 0 {
    } else {
        let n = line_break(s) as int;
        if n < s.len() {
            let rest = s.subrange(n + 1, s.len() as int);
            lemma_tokens_follow_lines(rest);
            let first = strip_cr(s.subrange(0, n));
            let lines = listing_lines(s);
            assert(lines[0] == first);
            assert(lines.drop_first() =~= listing_lines(rest));
            assert(lines_tokens(lines) == line_tokens(first) + lines_tokens(listing_lines(rest)));
            assert(listing_tokens(s) == line_tokens(first) + listing_tokens(rest));
        } else {
            let lines = listing_lines(s);
            assert(lines.drop_first() =~= Seq::<Seq<char>>::empty());
            assert(listing_tokens(s) =~= lines_tokens(lines));
        }
    }
    lemma_lines_tokens_count(listing_lines(s));
}

/// The first line of `s`: everything before its first line break.
pub open spec fn first_line(s: Seq<char>) -> Seq<char> {
    s.subrange(0, line_break(s) as int)
}

/// The label the `current` command prints in front of the version.
pub open spec fn current_label() -> Seq<char> {
    "Current dotnet version: "@
}

/// Extracts the first token of one listing line, if the line has one.
fn extract_line_token(line: &str) -> (r: Option<String>)
    ensures
        match r {
            Some(t) => has_token(line@) && t@ == first_token(line@),
            None => !has_token(line@),
        },
{
    let a = find_token_start(line, 0);
    proof {
        lemma_token_start_unique(line@, a as int);
    }
    if a == line.unicode_len() {
        return None;
    }
    let b = find_space(line, a);
    proof {
        let tail = line@.subrange(a as int, line@.len() as int);
        assert forall|k: int| 0 <= k < b - a implies !is_space(tail[k]) by {
            assert(tail[k] == line@[k + a]);
        }
        assert(b < line@.len() ==> is_space(tail[b - a]));
        lemma_space_at_unique(tail, b - a);
    }
    let token = line.substring_char(a, b);
    Some(token.to_owned())
}

/// The version tokens of the captured `--list-sdks` output, in order: for
/// each line that holds a token, its first whitespace-delimited token.
pub fn sdk_versions(listing: &str) -> (r: Vec<String>)
    ensures
        r.deep_view() == listing_tokens(listing@),
    decreases listing@.len(),
{
    let len = listing.unicode_len();
    let mut result: Vec<String> = Vec::new();
    if len == 0 {
        assert(result.deep_view() =~= listing_tokens(listing@));
        return result;
    }
    let n = find_line_break(listing);
    proof {
        lemma_line_break(listing@);
    }
    let line_end = if n > 0 && listing.get_char(n - 1) == '\r' {
        n - 1
    } else {
        n
    };
    let line = listing.substring_char(0, line_end);
    proof {
        assert(line@ =~= strip_cr(listing@.subrange(0, n as int)));
    }
    match extract_line_token(line) {
        Some(t) => {
            result.push(t);
        },
        None => {},
    }
    if n < len {
        let rest = listing.substring_char(n + 1, len);
        let mut tail = sdk_versions(rest);
        proof {
            assert(result.deep_view() =~= line_tokens(line@));
        }
        result.append(&mut tail);
        assert(result.deep_view() =~= listing_tokens(listing@));
    } else {
        assert(listing@.subrange(0, n as int) =~= listing@);
        assert(result.deep_view() =~= listing_tokens(listing@));
    }
    result
}

/// The line the `current` command prints: the fixed label followed by the
/// trimmed first line of the captured `--version` output.
pub fn current_version_line(raw: &str) -> (r: String)
    ensures
        r@ == current_label() + trimmed(first_line(raw@)),
{
    let n = find_line_break(raw);
    proof {
        lemma_line_break(raw@);
    }
    let head = raw.substring_char(0, n);
    let version = trim(head);
    let mut out = "Current dotnet version: ".to_owned();
    out.append(version);
    out
}

} // verus!
