//! Texts joined by a separator: the statements of the whole are those of the
//! first part followed by those of the second, whether a newline or a
//! semicolon joins them.

use crate::document::{
    fragment, fragment_end, lemma_fragment_end, prepend, spec_parse, spec_parse_from,
    spec_parse_rest,
};
use crate::statement::StatementView;
use vstd::prelude::*;

verus! {

/// One outcome after another: the statements of both in order, or the error
/// that comes first.
pub open spec fn and_then_parse(
    first: Result<Seq<StatementView>, Seq<char>>,
    second: Result<Seq<StatementView>, Seq<char>>,
) -> Result<Seq<StatementView>, Seq<char>> {
    match first {
        Ok(t) => prepend(t, second),
        Err(x) => Err(x),
    }
}

/// The text `a`, a separator, and the text `b`.
pub open spec fn joined(a: Seq<char>, sep: char, b: Seq<char>) -> Seq<char> {
    a + seq![sep] + b
}

/// Behind the separator the logical lines of the joined text are those of
/// the second part.
proof fn lemma_lines_of_second(a: Seq<char>, sep: char, b: Seq<char>, j: int)
    requires
        0 <= j <= b.len(),
    ensures
        fragment_end(joined(a, sep, b), a.len() + 1 + j) == a.len() + 1 + fragment_end(b, j),
        fragment(joined(a, sep, b), a.len() + 1 + j) == fragment(b, j),
    decreases b.len() - j,
{
    let s = joined(a, sep, b);
    let base = a.len() + 1;
    if j < b.len() {
        assert(s[base + j] == b[j]);
        if b[j] != '\n' && b[j] != ';' {
            lemma_lines_of_second(a, sep, b, j + 1);
        }
    }
    lemma_fragment_end(b, j);
    assert(s.subrange(base + j, base + fragment_end(b, j)) =~= b.subrange(j, fragment_end(b, j)));
}

/// Behind the separator the parse of the joined text is the parse of the
/// second part.
proof fn lemma_parse_of_second(a: Seq<char>, sep: char, b: Seq<char>, j: int, strict: bool)
    requires
        0 <= j <= b.len(),
    ensures
        spec_parse_from(joined(a, sep, b), a.len() + 1 + j, strict) == spec_parse_from(
            b,
            j,
            strict,
        ),
    decreases b.len() - j,
{
    let s = joined(a, sep, b);
    let base = a.len() + 1;
    lemma_lines_of_second(a, sep, b, j);
    lemma_fragment_end(b, j);
    let e = fragment_end(b, j);
    if e < b.len() {
        lemma_parse_of_second(a, sep, b, e + 1, strict);
    }
    assert(spec_parse_rest(s, base + j, strict) == spec_parse_rest(b, j, strict));
}

/// Before the separator the logical lines of the joined text are those of
/// the first part.
proof fn lemma_lines_of_first(a: Seq<char>, sep: char, b: Seq<char>, i: int)
    requires
        0 <= i <= a.len(),
        sep == '\n' || sep == ';',
    ensures
        fragment_end(joined(a, sep, b), i) == fragment_end(a, i),
        fragment(joined(a, sep, b), i) == fragment(a, i),
    decreases a.len() - i,
{
    let s = joined(a, sep, b);
    if i < a.len() {
        assert(s[i] == a[i]);
        if a[i] != '\n' && a[i] != ';' {
            lemma_lines_of_first(a, sep, b, i + 1);
        }
    } else {
        assert(s[i] == sep);
    }
    lemma_fragment_end(a, i);
    assert(s.subrange(i, fragment_end(a, i)) =~= a.subrange(i, fragment_end(a, i)));
}

/// From a logical line of the first part on, the parse of the joined text is
/// the parse of the rest of the first part and then that of the second.
proof fn lemma_parse_of_first(a: Seq<char>, sep: char, b: Seq<char>, i: int, strict: bool)
    requires
        0 <= i <= a.len(),
        sep == '\n' || sep == ';',
    ensures
        spec_parse_from(joined(a, sep, b), i, strict) == and_then_parse(
            spec_parse_from(a, i, strict),
            spec_parse(b, strict),
        ),
    decreases a.len() - i,
{
    let s = joined(a, sep, b);
    let second = spec_parse(b, strict);
    lemma_lines_of_first(a, sep, b, i);
    lemma_fragment_end(a, i);
    let e = fragment_end(a, i);
    let rest_a = spec_parse_rest(a, i, strict);
    let rest_s = spec_parse_rest(s, i, strict);
    if e < a.len() {
        lemma_parse_of_first(a, sep, b, e + 1, strict);
    } else {
        lemma_parse_of_second(a, sep, b, 0, strict);
        assert(rest_a == Ok::<Seq<StatementView>, Seq<char>>(Seq::empty()));
        assert(second matches Ok(u) ==> Seq::<StatementView>::empty() + u =~= u);
    }
    assert(rest_s == and_then_parse(rest_a, second));
    assert forall|v: StatementView|
        and_then_parse(prepend(seq![v], rest_a), second) == prepend(
            seq![v],
            #[trigger] and_then_parse(rest_a, second),
        ) by {
        match (rest_a, second) {
            (Ok(t), Ok(u)) => {
                assert((seq![v] + t) + u =~= seq![v] + (t + u));
            },
            _ => {},
        }
    }
}

/// Two texts joined by a newline or a semicolon parse to the statements of
/// the first followed by those of the second; in strict mode the first
/// offending line of the two is reported.
pub proof fn lemma_parse_of_joined_texts(a: Seq<char>, sep: char, b: Seq<char>, strict: bool)
    requires
        sep == '\n' || sep == ';',
    ensures
        spec_parse(joined(a, sep, b), strict) == and_then_parse(
            spec_parse(a, strict),
            spec_parse(b, strict),
        ),
{
    lemma_parse_of_first(a, sep, b, 0, strict);
}

/// A semicolon separates statements exactly as a newline does.
pub proof fn lemma_semicolon_is_a_line_break(a: Seq<char>, b: Seq<char>, strict: bool)
    ensures
        spec_parse(joined(a, ';', b), strict) == spec_parse(joined(a, '\n', b), strict),
{
    lemma_parse_of_joined_texts(a, ';', b, strict);
    lemma_parse_of_joined_texts(a, '\n', b, strict);
}

} // verus!
