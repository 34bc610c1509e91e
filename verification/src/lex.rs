//! Scanning primitives: literal keywords, runs of separators and names.
//!
//! Each takes the input and a position and either gives the position after
//! what it recognised or fails; the input itself is never changed, so a
//! caller may try another alternative at the same position.

use crate::chars::{blank_char, is_blank, is_sepolicy_char, sepolicy_char};
use crate::text::make_string;
use vstd::prelude::*;

verus! {

/// End of the longest run of name characters that starts at `i`.
pub open spec fn word_end(s: Seq<char>, i: int) -> int
    decreases s.len() - i,
{
    if 0 <= i < s.len() && sepolicy_char(s[i]) {
        word_end(s, i + 1)
    } else {
        i
    }
}

/// End of the longest run of spaces and tabs that starts at `i`.
pub open spec fn blank_end(s: Seq<char>, i: int) -> int
    decreases s.len() - i,
{
    if 0 <= i < s.len() && blank_char(s[i]) {
        blank_end(s, i + 1)
    } else {
        i
    }
}

/// A name at `i`: a non-empty run of name characters, taken whole.
pub open spec fn spec_word(s: Seq<char>, i: int) -> Option<(Seq<char>, int)> {
    let e = word_end(s, i);
    if i < e {
        Some((s.subrange(i, e), e))
    } else {
        None
    }
}

/// At least one space or tab at `i`, all of them skipped.
pub open spec fn spec_space1(s: Seq<char>, i: int) -> Option<int> {
    let e = blank_end(s, i);
    if i < e {
        Some(e)
    } else {
        None
    }
}

/// The literal `t` at `i`.
pub open spec fn spec_tag(s: Seq<char>, i: int, t: Seq<char>) -> Option<int> {
    if 0 <= i && i + t.len() <= s.len() && s.subrange(i, i + t.len()) == t {
        Some(i + t.len())
    } else {
        None
    }
}

/// A keyword at `i`: the one found before, or else the literal `t`.
pub open spec fn spec_or_keyword(
    found: Option<(Seq<char>, int)>,
    s: Seq<char>,
    i: int,
    t: Seq<char>,
) -> Option<(Seq<char>, int)> {
    match found {
        Some(_) => found,
        None => match spec_tag(s, i, t) {
            Some(e) => Some((t, e)),
            None => None,
        },
    }
}

/// At least one separator at `i`, then a name.
pub open spec fn spec_spaced_word(s: Seq<char>, i: int) -> Option<(Seq<char>, int)> {
    match spec_space1(s, i) {
        Some(j) => spec_word(s, j),
        None => None,
    }
}

/// What a scanned name stands for in contracts.
pub open spec fn word_view(r: Option<(String, usize)>) -> Option<(Seq<char>, int)> {
    match r {
        Some((w, e)) => Some((w@, e as int)),
        None => None,
    }
}

/// The run of name characters from `i` is made of name characters only, ends
/// inside the input, and cannot be extended.
pub proof fn lemma_word_end(s: Seq<char>, i: int)
    requires
        0 <= i <= s.len(),
    ensures
        i <= word_end(s, i) <= s.len(),
        forall|k: int| i <= k < word_end(s, i) ==> sepolicy_char(#[trigger] s[k]),
        word_end(s, i) < s.len() ==> !sepolicy_char(s[word_end(s, i)]),
    decreases s.len() - i,
{
    if i < s.len() && sepolicy_char(s[i]) {
        lemma_word_end(s, i + 1);
    }
}

/// The run of separators from `i` is made of separators only, ends inside
/// the input, and cannot be extended.
pub proof fn lemma_blank_end(s: Seq<char>, i: int)
    requires
        0 <= i <= s.len(),
    ensures
        i <= blank_end(s, i) <= s.len(),
        forall|k: int| i <= k < blank_end(s, i) ==> blank_char(#[trigger] s[k]),
        blank_end(s, i) < s.len() ==> !blank_char(s[blank_end(s, i)]),
    decreases s.len() - i,
{
    if i < s.len() && blank_char(s[i]) {
        lemma_blank_end(s, i + 1);
    }
}

/// The run of name characters from `i` ends at `e` and nowhere else, where
/// everything from `i` to `e` is a name character and what stands at `e`, if
/// anything, is none.
pub proof fn lemma_word_end_is(s: Seq<char>, i: int, e: int)
    requires
        0 <= i <= e <= s.len(),
        forall|k: int| i <= k < e ==> sepolicy_char(#[trigger] s[k]),
        e < s.len() ==> !sepolicy_char(s[e]),
    ensures
        word_end(s, i) == e,
    decreases e - i,
{
    if i < e {
        lemma_word_end_is(s, i + 1, e);
    }
}

/// The run of separators from `i` ends at `e` and nowhere else, where
/// everything from `i` to `e` is a separator and what stands at `e`, if
/// anything, is none.
pub proof fn lemma_blank_end_is(s: Seq<char>, i: int, e: int)
    requires
        0 <= i <= e <= s.len(),
        forall|k: int| i <= k < e ==> blank_char(#[trigger] s[k]),
        e < s.len() ==> !blank_char(s[e]),
    ensures
        blank_end(s, i) == e,
    decreases e - i,
{
    if i < e {
        lemma_blank_end_is(s, i + 1, e);
    }
}

/// Skips the name characters from `pos` on.
pub fn scan_word(input: &[char], pos: usize) -> (end: usize)
    requires
        pos <= input.len(),
    ensures
        end == word_end(input@, pos as int),
        pos <= end <= input.len(),
{
    let mut i: usize = pos;
    while i < input.len() && is_sepolicy_char(input[i])
        invariant
            pos <= i <= input.len(),
            word_end(input@, pos as int) == word_end(input@, i as int),
        decreases input.len() - i,
    {
        i += 1;
    }
    i
}

/// Skips the spaces and tabs from `pos` on (there may be none).
pub fn skip_blanks(input: &[char], pos: usize) -> (end: usize)
    requires
        pos <= input.len(),
    ensures
        end == blank_end(input@, pos as int),
        pos <= end <= input.len(),
{
    let mut i: usize = pos;
    while i < input.len() && is_blank(input[i])
        invariant
            pos <= i <= input.len(),
            blank_end(input@, pos as int) == blank_end(input@, i as int),
        decreases input.len() - i,
    {
        i += 1;
    }
    i
}

/// Skips at least one space or tab at `pos`.
pub fn space1(input: &[char], pos: usize) -> (r: Option<usize>)
    requires
        pos <= input.len(),
    ensures
        r matches Some(e) ==> spec_space1(input@, pos as int) == Some(e as int) && pos < e
            <= input.len(),
        r is None ==> spec_space1(input@, pos as int) is None,
{
    let e = skip_blanks(input, pos);
    if pos < e {
        Some(e)
    } else {
        None
    }
}

/// Takes one name at `pos`.
pub fn parse_single_word(input: &[char], pos: usize) -> (r: Option<(String, usize)>)
    requires
        pos <= input.len(),
    ensures
        word_view(r) == spec_word(input@, pos as int),
        r matches Some((w, e)) ==> pos < e <= input.len() && w@.len() > 0,
{
    let e = scan_word(input, pos);
    if pos < e {
        Some((make_string(input, pos, e), e))
    } else {
        None
    }
}

/// Matches the literal `tag` at `pos`.
pub fn match_tag(input: &[char], pos: usize, tag: &str) -> (r: Option<usize>)
    requires
        pos <= input.len(),
    ensures
        r matches Some(e) ==> spec_tag(input@, pos as int, tag@) == Some(e as int) && pos <= e
            <= input.len(),
        r is None ==> spec_tag(input@, pos as int, tag@) is None,
{
    let n = tag.unicode_len();
    if n > input.len() - pos {
        return None;
    }
    let mut k: usize = 0;
    while k < n
        invariant
            k <= n,
            n == tag@.len(),
            pos + n <= input.len(),
            forall|j: int| 0 <= j < k ==> input@[pos + j] == tag@[j],
        decreases n - k,
    {
        if input[pos + k] != tag.get_char(k) {
            assert(input@.subrange(pos as int, pos + n)[k as int] != tag@[k as int]);
            return None;
        }
        k += 1;
    }
    assert(input@.subrange(pos as int, pos + n) =~= tag@);
    Some(pos + n)
}

/// Tries the keyword `tag` at `pos` unless an earlier keyword was found.
pub fn or_keyword(found: Option<(String, usize)>, input: &[char], pos: usize, tag: &str) -> (r:
    Option<(String, usize)>)
    requires
        pos <= input.len(),
        found matches Some((_, e)) ==> e <= input.len(),
    ensures
        word_view(r) == spec_or_keyword(word_view(found), input@, pos as int, tag@),
        r matches Some((_, e)) ==> e <= input.len(),
{
    match found {
        Some(f) => Some(f),
        None => match match_tag(input, pos, tag) {
            Some(e) => Some((String::from_str(tag), e)),
            None => None,
        },
    }
}

/// Skips at least one separator at `pos`, then takes one name.
pub fn spaced_word(input: &[char], pos: usize) -> (r: Option<(String, usize)>)
    requires
        pos <= input.len(),
    ensures
        word_view(r) == spec_spaced_word(input@, pos as int),
        r matches Some((w, e)) ==> pos < e <= input.len() && w@.len() > 0,
{
    match space1(input, pos) {
        Some(j) => parse_single_word(input, j),
        None => None,
    }
}

} // verus!
