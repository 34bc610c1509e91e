//! Object lists: one or more names in one position of a statement, written
//! as a single name, as a list in braces, or as the wildcard `*`.

use crate::chars::{is_sepolicy_char, is_space, sepolicy_char, space_char};
use crate::lex::{parse_single_word, space1, spec_space1, spec_word};
use crate::text::{lemma_names_push, make_string, names};
use vstd::prelude::*;

verus! {

/// The most characters that may stand between the braces of a list.
pub const MAX_LIST_CHARS: usize = 100;

/// End of the run of name characters and white space that starts at `i`,
/// cut off at `limit`.
pub open spec fn list_body_end(s: Seq<char>, i: int, limit: int) -> int
    decreases limit - i,
{
    if 0 <= i < s.len() && i < limit && (sepolicy_char(s[i]) || space_char(s[i])) {
        list_body_end(s, i + 1, limit)
    } else {
        i
    }
}

/// End of the run of characters other than white space that starts at `i`,
/// cut off at `e`.
pub open spec fn name_end(s: Seq<char>, i: int, e: int) -> int
    decreases e - i,
{
    if 0 <= i < e <= s.len() && !space_char(s[i]) {
        name_end(s, i + 1, e)
    } else {
        i
    }
}

/// The names in `s[i..e]`: its maximal runs of characters other than white
/// space, in order.
pub open spec fn split_names(s: Seq<char>, i: int, e: int) -> Seq<Seq<char>>
    decreases e - i,
{
    if !(0 <= i < e <= s.len()) {
        Seq::empty()
    } else if space_char(s[i]) {
        split_names(s, i + 1, e)
    } else {
        let w = name_end(s, i + 1, e);
        if i < w <= e {
            seq![s.subrange(i, w)] + split_names(s, w, e)
        } else {
            Seq::empty()
        }
    }
}

/// A single name, as a list of one.
pub open spec fn spec_single_obj(s: Seq<char>, i: int) -> Option<(Seq<Seq<char>>, int)> {
    match spec_word(s, i) {
        Some((w, e)) => Some((seq![w], e)),
        None => None,
    }
}

/// A list in braces: `{`, then 1 to 100 name characters and white space
/// holding at least one name, then `}`.
pub open spec fn spec_bracket_objs(s: Seq<char>, i: int) -> Option<(Seq<Seq<char>>, int)> {
    if 0 <= i < s.len() && s[i] == '{' {
        let e = list_body_end(s, i + 1, i + 1 + MAX_LIST_CHARS);
        if i + 1 < e < s.len() && s[e] == '}' && split_names(s, i + 1, e).len() > 0 {
            Some((split_names(s, i + 1, e), e + 1))
        } else {
            None
        }
    } else {
        None
    }
}

/// The wildcard, as a list that holds the one name `*`.
pub open spec fn spec_star(s: Seq<char>, i: int) -> Option<(Seq<Seq<char>>, int)> {
    if 0 <= i < s.len() && s[i] == '*' {
        Some((seq!["*"@], i + 1))
    } else {
        None
    }
}

/// An object list at `i`: a single name, else a list in braces, else, where
/// `star` allows it, the wildcard.
pub open spec fn spec_seobj(s: Seq<char>, i: int, star: bool) -> Option<(Seq<Seq<char>>, int)> {
    match spec_single_obj(s, i) {
        Some(r) => Some(r),
        None => match spec_bracket_objs(s, i) {
            Some(r) => Some(r),
            None => if star {
                spec_star(s, i)
            } else {
                None
            },
        },
    }
}

/// At least one separator at `i`, then an object list.
pub open spec fn spec_spaced_obj(s: Seq<char>, i: int, star: bool) -> Option<
    (Seq<Seq<char>>, int),
> {
    match spec_space1(s, i) {
        Some(j) => spec_seobj(s, j, star),
        None => None,
    }
}

/// What a parsed object list stands for in contracts.
pub open spec fn obj_view(r: Option<(Vec<String>, usize)>) -> Option<(Seq<Seq<char>>, int)> {
    match r {
        Some((v, e)) => Some((names(v@), e as int)),
        None => None,
    }
}

/// An object list that the grammar yields always holds a name.
pub proof fn lemma_seobj_nonempty(s: Seq<char>, i: int, star: bool)
    ensures
        spec_seobj(s, i, star) matches Some((v, e)) ==> v.len() > 0 && i < e,
{
}

/// The three notations exclude one another by their first character: where
/// one of them parses, the other two fail.
pub proof fn lemma_seobj_forms_exclusive(s: Seq<char>, i: int)
    ensures
        spec_single_obj(s, i) is Some ==> spec_bracket_objs(s, i) is None && spec_star(s, i)
            is None,
        spec_bracket_objs(s, i) is Some ==> spec_star(s, i) is None,
{
}

/// Splits `input[from..to]` at white space.
pub fn split_whitespace(input: &[char], from: usize, to: usize) -> (r: Vec<String>)
    requires
        from <= to <= input.len(),
    ensures
        names(r@) == split_names(input@, from as int, to as int),
{
    let mut r: Vec<String> = Vec::new();
    let mut i: usize = from;
    assert(names(r@) =~= Seq::<Seq<char>>::empty());
    while i < to
        invariant
            from <= i <= to <= input.len(),
            names(r@) + split_names(input@, i as int, to as int) == split_names(
                input@,
                from as int,
                to as int,
            ),
        decreases to - i,
    {
        if is_space(input[i]) {
            i += 1;
        } else {
            let mut w: usize = i + 1;
            while w < to && !is_space(input[w])
                invariant
                    i < w <= to <= input.len(),
                    name_end(input@, i + 1, to as int) == name_end(input@, w as int, to as int),
                decreases to - w,
            {
                w += 1;
            }
            let name = make_string(input, i, w);
            proof {
                lemma_names_push(r@, name);
                assert(names(r@.push(name)) + split_names(input@, w as int, to as int) =~= names(
                    r@,
                ) + (seq![name@] + split_names(input@, w as int, to as int)));
            }
            r.push(name);
            i = w;
        }
    }
    assert(names(r@) + Seq::<Seq<char>>::empty() =~= names(r@));
    r
}

/// Takes a single name as a list of one.
pub fn parse_single_obj(input: &[char], pos: usize) -> (r: Option<(Vec<String>, usize)>)
    requires
        pos <= input.len(),
    ensures
        obj_view(r) == spec_single_obj(input@, pos as int),
        r matches Some((v, e)) ==> pos < e <= input.len() && v.len() > 0,
{
    match parse_single_word(input, pos) {
        Some((w, e)) => {
            let mut v: Vec<String> = Vec::new();
            proof {
                lemma_names_push(v@, w);
                assert(names(v@.push(w)) =~= seq![w@]);
            }
            v.push(w);
            Some((v, e))
        },
        None => None,
    }
}

/// Takes a list in braces.
pub fn parse_bracket_objs(input: &[char], pos: usize) -> (r: Option<(Vec<String>, usize)>)
    requires
        pos <= input.len(),
    ensures
        obj_view(r) == spec_bracket_objs(input@, pos as int),
        r matches Some((v, e)) ==> pos < e <= input.len() && v.len() > 0,
{
    if pos >= input.len() || input[pos] != '{' {
        return None;
    }
    let start: usize = pos + 1;
    let mut e: usize = start;
    while e < input.len() && e - start < MAX_LIST_CHARS && (is_sepolicy_char(input[e]) || is_space(
        input[e],
    ))
        invariant
            start <= e <= input.len(),
            e - start <= MAX_LIST_CHARS,
            list_body_end(input@, start as int, start + MAX_LIST_CHARS) == list_body_end(
                input@,
                e as int,
                start + MAX_LIST_CHARS,
            ),
        decreases input.len() - e,
    {
        e += 1;
    }
    if e == start || e >= input.len() || input[e] != '}' {
        return None;
    }
    let v = split_whitespace(input, start, e);
    if v.len() == 0 {
        return None;
    }
    Some((v, e + 1))
}

/// Takes the wildcard.
pub fn parse_star(input: &[char], pos: usize) -> (r: Option<(Vec<String>, usize)>)
    requires
        pos <= input.len(),
    ensures
        obj_view(r) == spec_star(input@, pos as int),
        r matches Some((v, e)) ==> pos < e <= input.len() && v.len() > 0,
{
    if pos < input.len() && input[pos] == '*' {
        let mut v: Vec<String> = Vec::new();
        let w = String::from_str("*");
        proof {
            lemma_names_push(v@, w);
            assert(names(v@.push(w)) =~= seq!["*"@]);
        }
        v.push(w);
        Some((v, pos + 1))
    } else {
        None
    }
}

/// Takes an object list in any of its three notations.
pub fn parse_seobj(input: &[char], pos: usize) -> (r: Option<(Vec<String>, usize)>)
    requires
        pos <= input.len(),
    ensures
        obj_view(r) == spec_seobj(input@, pos as int, true),
        r matches Some((v, e)) ==> pos < e <= input.len() && v.len() > 0,
{
    match parse_seobj_no_star(input, pos) {
        Some(r) => Some(r),
        None => parse_star(input, pos),
    }
}

/// Takes an object list where the wildcard is not allowed.
pub fn parse_seobj_no_star(input: &[char], pos: usize) -> (r: Option<(Vec<String>, usize)>)
    requires
        pos <= input.len(),
    ensures
        obj_view(r) == spec_seobj(input@, pos as int, false),
        r matches Some((v, e)) ==> pos < e <= input.len() && v.len() > 0,
{
    match parse_single_obj(input, pos) {
        Some(r) => Some(r),
        None => parse_bracket_objs(input, pos),
    }
}

/// Skips at least one separator at `pos`, then takes an object list, with
/// the wildcard where `star` allows it.
pub fn spaced_obj(input: &[char], pos: usize, star: bool) -> (r: Option<(Vec<String>, usize)>)
    requires
        pos <= input.len(),
    ensures
        obj_view(r) == spec_spaced_obj(input@, pos as int, star),
        r matches Some((v, e)) ==> pos < e <= input.len() && v.len() > 0,
{
    match space1(input, pos) {
        Some(j) => if star {
            parse_seobj(input, j)
        } else {
            parse_seobj_no_star(input, j)
        },
        None => None,
    }
}

} // verus!
