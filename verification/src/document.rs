//! The document parser: rule text is cut into logical lines at newlines and
//! semicolons, blank lines and comments are dropped, and every other line
//! goes to the dispatcher.

use crate::chars::{is_space, space_char};
use crate::dispatch::spec_statement;
use crate::statement::{PolicyStatement, StatementView};
use crate::text::{make_string, to_chars};
use crate::wellformed::well_formed;
use vstd::prelude::*;
use vstd::slice::slice_subrange;

verus! {

/// A logical line that matched no grammar.
#[derive(Debug, Clone, PartialEq, Eq)]
pub struct ParseError {
    /// The offending line as it stood in the text, not trimmed.
    pub line: String,
}

impl View for ParseError {
    type V = Seq<char>;

    open spec fn view(&self) -> Seq<char> {
        self.line@
    }
}

impl ParseError {
    /// The error as a sentence that names the offending line.
    pub fn message(&self) -> (r: String)
        ensures
            r@ == "Failed to parse policy statement: "@ + self.line@,
    {
        String::from_str("Failed to parse policy statement: ").concat(self.line.as_str())
    }
}

/// What one logical line contributes.
pub ghost enum LineOutcome {
    /// Blank or a comment: nothing.
    Skipped,
    /// A statement.
    Parsed(StatementView),
    /// No grammar matched.
    Rejected,
}

/// Where the logical line that starts at `i` ends: at the next newline or
/// semicolon, or at the end of the text.
pub open spec fn fragment_end(s: Seq<char>, i: int) -> int
    decreases s.len() - i,
{
    if 0 <= i < s.len() && s[i] != '\n' && s[i] != ';' {
        fragment_end(s, i + 1)
    } else {
        i
    }
}

/// End of the longest run of white space that starts at `i`.
pub open spec fn space_end(s: Seq<char>, i: int) -> int
    decreases s.len() - i,
{
    if 0 <= i < s.len() && space_char(s[i]) {
        space_end(s, i + 1)
    } else {
        i
    }
}

/// Start of the longest run of white space that ends at `e` and does not
/// reach back beyond `a`.
pub open spec fn space_start(s: Seq<char>, a: int, e: int) -> int
    decreases e,
{
    if 0 <= a < e <= s.len() && space_char(s[e - 1]) {
        space_start(s, a, e - 1)
    } else {
        e
    }
}

/// The text without the white space at its two ends.
pub open spec fn trimmed(s: Seq<char>) -> Seq<char> {
    let a = space_end(s, 0);
    s.subrange(a, space_start(s, a, s.len() as int))
}

/// What the logical line `f` contributes: nothing where it is blank or
/// starts with `#` once trimmed, else what the dispatcher makes of the
/// trimmed line.
pub open spec fn line_outcome(f: Seq<char>) -> LineOutcome {
    let t = trimmed(f);
    if t.len() == 0 || t[0] == '#' {
        LineOutcome::Skipped
    } else {
        match spec_statement(t, 0) {
            Some((v, _)) => LineOutcome::Parsed(v),
            None => LineOutcome::Rejected,
        }
    }
}

/// The logical line that starts at `i`.
pub open spec fn fragment(s: Seq<char>, i: int) -> Seq<char> {
    s.subrange(i, fragment_end(s, i))
}

/// The statements of the logical lines that follow the one starting at `i`.
pub open spec fn spec_parse_rest(s: Seq<char>, i: int, strict: bool) -> Result<
    Seq<StatementView>,
    Seq<char>,
>
    decreases s.len() - i, 0int,
{
    let e = fragment_end(s, i);
    if 0 <= i <= e < s.len() {
        spec_parse_from(s, e + 1, strict)
    } else {
        Ok(Seq::empty())
    }
}

/// The statements of the logical lines from the one starting at `i` on, in
/// order; in strict mode the first line that no grammar matches instead.
pub open spec fn spec_parse_from(s: Seq<char>, i: int, strict: bool) -> Result<
    Seq<StatementView>,
    Seq<char>,
>
    decreases s.len() - i, 1int,
{
    if !(0 <= i <= s.len()) {
        Ok(Seq::empty())
    } else {
        let rest = spec_parse_rest(s, i, strict);
        match line_outcome(fragment(s, i)) {
            LineOutcome::Skipped => rest,
            LineOutcome::Parsed(v) => prepend(seq![v], rest),
            LineOutcome::Rejected => if strict {
                Err(fragment(s, i))
            } else {
                rest
            },
        }
    }
}

/// The statements `acc` put before those of the outcome `r`.
pub open spec fn prepend(acc: Seq<StatementView>, r: Result<Seq<StatementView>, Seq<char>>)
    -> Result<Seq<StatementView>, Seq<char>> {
    match r {
        Ok(t) => Ok(acc + t),
        Err(x) => Err(x),
    }
}

/// The statements of the whole text, or in strict mode its first offending
/// line.
pub open spec fn spec_parse(s: Seq<char>, strict: bool) -> Result<Seq<StatementView>, Seq<char>> {
    spec_parse_from(s, 0, strict)
}

/// The views of a list of statements, in order.
pub open spec fn statements(v: Seq<PolicyStatement>) -> Seq<StatementView> {
    v.map_values(|x: PolicyStatement| x@)
}

/// What the result of the document parser stands for in contracts.
pub open spec fn outcome(r: Result<Vec<PolicyStatement>, ParseError>) -> Result<
    Seq<StatementView>,
    Seq<char>,
> {
    match r {
        Ok(v) => Ok(statements(v@)),
        Err(e) => Err(e@),
    }
}

/// What validation says of a rule text: nothing where every logical line of
/// the trimmed text is blank, a comment or a statement, else the first
/// offending line.
pub open spec fn spec_check(s: Seq<char>) -> Result<(), Seq<char>> {
    match spec_parse(trimmed(s), true) {
        Ok(_) => Ok(()),
        Err(x) => Err(x),
    }
}

/// A logical line ends inside the text, holds no newline and no semicolon,
/// and stops at the first of them.
pub proof fn lemma_fragment_end(s: Seq<char>, i: int)
    requires
        0 <= i <= s.len(),
    ensures
        i <= fragment_end(s, i) <= s.len(),
        forall|k: int| i <= k < fragment_end(s, i) ==> #[trigger] s[k] != '\n' && s[k] != ';',
        fragment_end(s, i) < s.len() ==> s[fragment_end(s, i)] == '\n' || s[fragment_end(s, i)]
            == ';',
    decreases s.len() - i,
{
    if i < s.len() && s[i] != '\n' && s[i] != ';' {
        lemma_fragment_end(s, i + 1);
    }
}

/// The logical line from `i` ends at `e` and nowhere else, where nothing
/// from `i` to `e` is a newline or a semicolon and what stands at `e`, if
/// anything, is one.
pub proof fn lemma_fragment_end_is(s: Seq<char>, i: int, e: int)
    requires
        0 <= i <= e <= s.len(),
        forall|k: int| i <= k < e ==> #[trigger] s[k] != '\n' && s[k] != ';',
        e < s.len() ==> s[e] == '\n' || s[e] == ';',
    ensures
        fragment_end(s, i) == e,
    decreases e - i,
{
    if i < e {
        lemma_fragment_end_is(s, i + 1, e);
    }
}

/// The trimmed text neither starts nor ends with white space, and only
/// white space was cut off.
pub proof fn lemma_trimmed(s: Seq<char>)
    ensures
        trimmed(s).len() > 0 ==> !space_char(trimmed(s)[0]) && !space_char(trimmed(s).last()),
        forall|k: int| 0 <= k < space_end(s, 0) ==> space_char(#[trigger] s[k]),
        forall|k: int|
            space_start(s, space_end(s, 0), s.len() as int) <= k < s.len() ==> space_char(
                #[trigger] s[k],
            ),
        0 <= space_end(s, 0) <= space_start(s, space_end(s, 0), s.len() as int) <= s.len(),
{
    lemma_space_end(s, 0);
    lemma_space_start(s, space_end(s, 0), s.len() as int);
}

/// The run of white space from `i` is made of white space only and cannot
/// be extended.
proof fn lemma_space_end(s: Seq<char>, i: int)
    requires
        0 <= i <= s.len(),
    ensures
        i <= space_end(s, i) <= s.len(),
        forall|k: int| i <= k < space_end(s, i) ==> space_char(#[trigger] s[k]),
        space_end(s, i) < s.len() ==> !space_char(s[space_end(s, i)]),
    decreases s.len() - i,
{
    if i < s.len() && space_char(s[i]) {
        lemma_space_end(s, i + 1);
    }
}

/// The run of white space that ends at `e` is made of white space only and
/// cannot be extended towards `a`.
proof fn lemma_space_start(s: Seq<char>, a: int, e: int)
    requires
        0 <= a <= e <= s.len(),
    ensures
        a <= space_start(s, a, e) <= e,
        forall|k: int| space_start(s, a, e) <= k < e ==> space_char(#[trigger] s[k]),
        a < space_start(s, a, e) ==> !space_char(s[space_start(s, a, e) - 1]),
    decreases e,
{
    if a < e && space_char(s[e - 1]) {
        lemma_space_start(s, a, e - 1);
    }
}

/// Finds the end of the logical line that starts at `pos`.
fn scan_fragment(input: &[char], pos: usize) -> (end: usize)
    requires
        pos <= input.len(),
    ensures
        end == fragment_end(input@, pos as int),
        pos <= end <= input.len(),
{
    let mut i: usize = pos;
    while i < input.len() && input[i] != '\n' && input[i] != ';'
        invariant
            pos <= i <= input.len(),
            fragment_end(input@, pos as int) == fragment_end(input@, i as int),
        decreases input.len() - i,
    {
        i += 1;
    }
    i
}

/// The input without the white space at its two ends.
pub fn trim(input: &[char]) -> (r: &[char])
    ensures
        r@ == trimmed(input@),
{
    let mut a: usize = 0;
    while a < input.len() && is_space(input[a])
        invariant
            a <= input.len(),
            space_end(input@, 0) == space_end(input@, a as int),
        decreases input.len() - a,
    {
        a += 1;
    }
    let mut b: usize = input.len();
    while a < b && is_space(input[b - 1])
        invariant
            a <= b <= input.len(),
            space_start(input@, a as int, input.len() as int) == space_start(
                input@,
                a as int,
                b as int,
            ),
        decreases b,
    {
        b -= 1;
    }
    slice_subrange(input, a, b)
}

/// Adding a statement to a list adds its view to the list's views.
proof fn lemma_statements_push(v: Seq<PolicyStatement>, x: PolicyStatement)
    ensures
        statements(v.push(x)) == statements(v).push(x@),
{
    assert(statements(v.push(x)) =~= statements(v).push(x@));
}

/// Parses the logical lines of `input`.
pub fn parse_lines(input: &[char], strict: bool) -> (r: Result<Vec<PolicyStatement>, ParseError>)
    ensures
        outcome(r) == spec_parse(input@, strict),
        !strict ==> r is Ok,
        r matches Ok(v) ==> forall|k: int| 0 <= k < v.len() ==> well_formed(#[trigger] v[k]@),
{
    let mut out: Vec<PolicyStatement> = Vec::new();
    let mut i: usize = 0;
    assert(statements(out@) =~= Seq::<StatementView>::empty());
    loop
        invariant
            i <= input.len(),
            forall|k: int| 0 <= k < out.len() ==> well_formed(#[trigger] out[k]@),
            spec_parse(input@, strict) == prepend(
                statements(out@),
                spec_parse_from(input@, i as int, strict),
            ),
        decreases input.len() - i,
    {
        let e = scan_fragment(input, i);
        let line = trim(slice_subrange(input, i, e));
        let ghost before = statements(out@);
        let ghost rest = spec_parse_rest(input@, i as int, strict);
        if line.len() > 0 && line[0] != '#' {
            match PolicyStatement::parse(line, 0) {
                Some((st, _)) => {
                    proof {
                        lemma_statements_push(out@, st);
                        assert(rest matches Ok(t) ==> before.push(st@) + t =~= before + (seq![
                            st@,
                        ] + t));
                    }
                    out.push(st);
                },
                None => {
                    if strict {
                        return Err(ParseError { line: make_string(input, i, e) });
                    }
                },
            }
        }
        assert(spec_parse(input@, strict) == prepend(statements(out@), rest));
        if e >= input.len() {
            assert(statements(out@) + Seq::<StatementView>::empty() =~= statements(out@));
            return Ok(out);
        }
        i = e + 1;
    }
}

/// Parses rule text into its statements.
///
/// The text is cut at newlines and semicolons. A line that is blank or, once
/// trimmed, starts with `#` gives nothing. In strict mode the first line
/// that no grammar matches ends the parse with an error that carries it; in
/// lenient mode such a line is dropped and the parse never fails.
pub fn parse_sepolicy(input: &str, strict: bool) -> (r: Result<Vec<PolicyStatement>, ParseError>)
    ensures
        outcome(r) == spec_parse(input@, strict),
        !strict ==> r is Ok,
        r matches Ok(v) ==> forall|k: int| 0 <= k < v.len() ==> well_formed(#[trigger] v[k]@),
{
    let chars = to_chars(input);
    parse_lines(chars.as_slice(), strict)
}

/// Validates rule text: trims it and parses it in strict mode. The
/// statements are not kept.
pub fn check_rule(policy: &str) -> (r: Result<(), ParseError>)
    ensures
        r matches Ok(_) ==> spec_check(policy@) is Ok,
        r matches Err(e) ==> spec_check(policy@) == Err::<(), Seq<char>>(e@),
{
    let chars = to_chars(policy);
    match parse_lines(trim(chars.as_slice()), true) {
        Ok(_) => Ok(()),
        Err(e) => Err(e),
    }
}

} // verus!
