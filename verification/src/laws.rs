//! Laws of the document parser and of the object-list grammar, stated over
//! the spec functions that the contracts use.

use crate::document::{
    fragment, fragment_end, lemma_fragment_end, line_outcome, spec_check, spec_parse,
    spec_parse_from, spec_parse_rest, trimmed, LineOutcome,
};
use crate::lex::word_end;
use crate::object::{spec_bracket_objs, spec_seobj, spec_single_obj, spec_star};
use crate::statement::StatementView;
use crate::wellformed::{lemma_statement_well_formed, well_formed};
use vstd::prelude::*;

verus! {

/// A logical line that is blank or, once trimmed, starts with `#` adds no
/// statement and causes no failure, in either mode: the parse from that line
/// on is the parse of the lines after it.
pub proof fn lemma_blank_or_comment_adds_nothing(s: Seq<char>, i: int, strict: bool)
    requires
        0 <= i <= s.len(),
        trimmed(fragment(s, i)).len() == 0 || trimmed(fragment(s, i))[0] == '#',
    ensures
        line_outcome(fragment(s, i)) == LineOutcome::Skipped,
        spec_parse_from(s, i, strict) == spec_parse_rest(s, i, strict),
{
}

/// A text that is one blank line or one comment holds no statement and is
/// accepted in either mode.
pub proof fn lemma_blank_or_comment_text_is_empty(s: Seq<char>, strict: bool)
    requires
        fragment_end(s, 0) == s.len(),
        trimmed(s).len() == 0 || trimmed(s)[0] == '#',
    ensures
        spec_parse(s, strict) == Ok::<Seq<StatementView>, Seq<char>>(Seq::empty()),
{
    assert(fragment(s, 0) =~= s);
}

/// Lenient parsing never fails.
pub proof fn lemma_lenient_never_fails(s: Seq<char>, i: int)
    ensures
        spec_parse_from(s, i, false) is Ok,
    decreases s.len() - i,
{
    if 0 <= i <= s.len() {
        lemma_fragment_end(s, i);
        let e = fragment_end(s, i);
        if e < s.len() {
            lemma_lenient_never_fails(s, e + 1);
        }
    }
}

/// Where strict parsing succeeds no line was dropped, so lenient parsing
/// gives the same statements.
pub proof fn lemma_strict_success_agrees_with_lenient(s: Seq<char>, i: int)
    requires
        spec_parse_from(s, i, true) is Ok,
    ensures
        spec_parse_from(s, i, false) == spec_parse_from(s, i, true),
    decreases s.len() - i,
{
    if 0 <= i <= s.len() {
        lemma_fragment_end(s, i);
        let e = fragment_end(s, i);
        if e < s.len() {
            lemma_strict_success_agrees_with_lenient(s, e + 1);
        }
    }
}

/// The line that strict parsing reports is a logical line of the text that
/// no grammar matches, and every logical line before it, from the one at `i`
/// on, is blank, a comment or a statement.
pub proof fn lemma_strict_reports_first_offending_line(s: Seq<char>, i: int) -> (j: int)
    requires
        0 <= i <= s.len(),
        spec_parse_from(s, i, true) is Err,
    ensures
        i <= j <= s.len(),
        spec_parse_from(s, i, true) == Err::<Seq<StatementView>, Seq<char>>(fragment(s, j)),
        line_outcome(fragment(s, j)) == LineOutcome::Rejected,
        spec_parse_from(s, j, true) == spec_parse_from(s, i, true),
        line_outcome(fragment(s, i)) != LineOutcome::Rejected ==> fragment_end(s, i) < j,
    decreases s.len() - i,
{
    lemma_fragment_end(s, i);
    if line_outcome(fragment(s, i)) == LineOutcome::Rejected {
        i
    } else {
        let e = fragment_end(s, i);
        lemma_strict_reports_first_offending_line(s, e + 1)
    }
}

/// A well-formed line followed by a line that no grammar matches: strict
/// parsing fails and reports the second line, not the first.
pub proof fn lemma_strict_reports_the_malformed_line(s: Seq<char>, i: int)
    requires
        0 <= i <= s.len(),
        line_outcome(fragment(s, i)) is Parsed,
        fragment_end(s, i) < s.len(),
        line_outcome(fragment(s, fragment_end(s, i) + 1)) == LineOutcome::Rejected,
    ensures
        spec_parse_from(s, i, true) == Err::<Seq<StatementView>, Seq<char>>(
            fragment(s, fragment_end(s, i) + 1),
        ),
{
    lemma_fragment_end(s, i);
    let e = fragment_end(s, i);
    assert(spec_parse_from(s, e + 1, true) == Err::<Seq<StatementView>, Seq<char>>(
        fragment(s, e + 1),
    ));
    assert(spec_parse_rest(s, i, true) == spec_parse_from(s, e + 1, true));
}

/// Two statements on two logical lines, the second of them the last line of
/// the text, whether a newline or a semicolon parts them: the parse gives
/// the two, in order.
pub proof fn lemma_two_lines_give_two_statements(s: Seq<char>, i: int, strict: bool)
    requires
        0 <= i <= s.len(),
        line_outcome(fragment(s, i)) is Parsed,
        fragment_end(s, i) < s.len(),
        line_outcome(fragment(s, fragment_end(s, i) + 1)) is Parsed,
        fragment_end(s, fragment_end(s, i) + 1) == s.len(),
    ensures
        spec_parse_from(s, i, strict) == Ok::<Seq<StatementView>, Seq<char>>(
            seq![
                line_outcome(fragment(s, i))->Parsed_0,
                line_outcome(fragment(s, fragment_end(s, i) + 1))->Parsed_0,
            ],
        ),
{
    lemma_fragment_end(s, i);
    let e = fragment_end(s, i);
    let a = line_outcome(fragment(s, i))->Parsed_0;
    let b = line_outcome(fragment(s, e + 1))->Parsed_0;
    assert(spec_parse_rest(s, e + 1, strict) == Ok::<Seq<StatementView>, Seq<char>>(
        Seq::empty(),
    ));
    assert(seq![b] + Seq::<StatementView>::empty() =~= seq![b]);
    assert(spec_parse_from(s, e + 1, strict) == Ok::<Seq<StatementView>, Seq<char>>(seq![b]));
    assert(spec_parse_rest(s, i, strict) == spec_parse_from(s, e + 1, strict));
    assert(seq![a] + seq![b] =~= seq![a, b]);
}

/// Every statement that the document parser yields is well formed.
pub proof fn lemma_parsed_statements_well_formed(s: Seq<char>, i: int, strict: bool)
    ensures
        spec_parse_from(s, i, strict) matches Ok(v) ==> forall|k: int|
            0 <= k < v.len() ==> well_formed(#[trigger] v[k]),
    decreases s.len() - i,
{
    if 0 <= i <= s.len() {
        lemma_fragment_end(s, i);
        let e = fragment_end(s, i);
        if e < s.len() {
            lemma_parsed_statements_well_formed(s, e + 1, strict);
        }
        lemma_statement_well_formed(trimmed(fragment(s, i)), 0);
    }
}

/// Validation keeps no state: its verdict is a function of the text, so two
/// validations of one text agree.
pub proof fn lemma_validation_is_repeatable(
    text: Seq<char>,
    first: Result<(), Seq<char>>,
    second: Result<(), Seq<char>>,
)
    requires
        first == spec_check(text),
        second == spec_check(text),
    ensures
        first == second,
{
}

/// The wildcard is an object list only where the grammar allows it.
pub proof fn lemma_wildcard_only_where_allowed(s: Seq<char>, i: int)
    requires
        0 <= i < s.len(),
        s[i] == '*',
    ensures
        spec_seobj(s, i, false) is None,
        spec_seobj(s, i, true) == Some((seq!["*"@], i + 1)),
{
    assert(word_end(s, i) == i);
    assert(spec_single_obj(s, i) is None);
    assert(spec_bracket_objs(s, i) is None);
    assert(spec_star(s, i) == Some((seq!["*"@], i + 1)));
}

} // verus!
