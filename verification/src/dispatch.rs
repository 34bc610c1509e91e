//! The dispatcher: tries the nine grammars in a fixed order on one logical
//! line.
//!
//! Every grammar matches its keyword literally and then requires a separator.
//! A keyword that is a prefix of a longer one (`type` of `type_transition`,
//! `allow` of `allowxperm`) therefore fails on the longer one, and the
//! dispatcher goes on to the next grammar at the same position.

use crate::grammar::{
    spec_attr, spec_genfscon, spec_normal_perm, spec_type, spec_type_attr, spec_type_change,
    spec_type_state, spec_type_transition, spec_xperm,
};
use crate::lex::{blank_end, skip_blanks};
use crate::statement::{
    parsed, Attr, GenFsCon, NormalPerm, PolicyStatement, StatementView, Type,
    TypeAttr, TypeChange, TypeState, TypeTransition, XPerm,
};
use crate::wellformed::{lemma_statement_well_formed, well_formed};
use vstd::prelude::*;

verus! {

/// End of the longest run of `;` that starts at `i`.
pub open spec fn semi_end(s: Seq<char>, i: int) -> int
    decreases s.len() - i,
{
    if 0 <= i < s.len() && s[i] == ';' {
        semi_end(s, i + 1)
    } else {
        i
    }
}

/// The first of two attempts that succeeded.
pub open spec fn first_of(
    a: Option<(StatementView, int)>,
    b: Option<(StatementView, int)>,
) -> Option<(StatementView, int)> {
    match a {
        Some(_) => a,
        None => b,
    }
}

/// The first grammar, in the fixed order, that accepts the input at `i`.
pub open spec fn spec_any_statement(s: Seq<char>, i: int) -> Option<(StatementView, int)> {
    first_of(
        spec_normal_perm(s, i),
        first_of(
            spec_xperm(s, i),
            first_of(
                spec_type_state(s, i),
                first_of(
                    spec_type(s, i),
                    first_of(
                        spec_type_attr(s, i),
                        first_of(
                            spec_attr(s, i),
                            first_of(
                                spec_type_transition(s, i),
                                first_of(spec_type_change(s, i), spec_genfscon(s, i)),
                            ),
                        ),
                    ),
                ),
            ),
        ),
    )
}

/// Where the dispatcher stops after a statement that ends at `e`: behind the
/// separators, the `;` and the separators that follow it.
pub open spec fn after_statement(s: Seq<char>, e: int) -> int {
    blank_end(s, semi_end(s, blank_end(s, e)))
}

/// One statement at `i`: leading separators, the first grammar that
/// accepts, then trailing separators and `;`. What follows is left alone.
pub open spec fn spec_statement(s: Seq<char>, i: int) -> Option<(StatementView, int)> {
    match spec_any_statement(s, blank_end(s, i)) {
        Some((v, e)) => Some((v, after_statement(s, e))),
        None => None,
    }
}

/// Skips the `;` from `pos` on.
fn skip_semis(input: &[char], pos: usize) -> (end: usize)
    requires
        pos <= input.len(),
    ensures
        end == semi_end(input@, pos as int),
        pos <= end <= input.len(),
{
    let mut i: usize = pos;
    while i < input.len() && input[i] == ';'
        invariant
            pos <= i <= input.len(),
            semi_end(input@, pos as int) == semi_end(input@, i as int),
        decreases input.len() - i,
    {
        i += 1;
    }
    i
}

/// Tries the nine grammars in order at `pos`.
fn parse_any(input: &[char], pos: usize) -> (r: Option<(PolicyStatement, usize)>)
    requires
        pos <= input.len(),
    ensures
        parsed(r) == spec_any_statement(input@, pos as int),
        r matches Some((_, e)) ==> pos <= e <= input.len(),
{
    if let Some((x, e)) = NormalPerm::parse(input, pos) {
        return Some((PolicyStatement::NormalPerm(x), e));
    }
    if let Some((x, e)) = XPerm::parse(input, pos) {
        return Some((PolicyStatement::XPerm(x), e));
    }
    if let Some((x, e)) = TypeState::parse(input, pos) {
        return Some((PolicyStatement::TypeState(x), e));
    }
    if let Some((x, e)) = Type::parse(input, pos) {
        return Some((PolicyStatement::Type(x), e));
    }
    if let Some((x, e)) = TypeAttr::parse(input, pos) {
        return Some((PolicyStatement::TypeAttr(x), e));
    }
    if let Some((x, e)) = Attr::parse(input, pos) {
        return Some((PolicyStatement::Attr(x), e));
    }
    if let Some((x, e)) = TypeTransition::parse(input, pos) {
        return Some((PolicyStatement::TypeTransition(x), e));
    }
    if let Some((x, e)) = TypeChange::parse(input, pos) {
        return Some((PolicyStatement::TypeChange(x), e));
    }
    if let Some((x, e)) = GenFsCon::parse(input, pos) {
        return Some((PolicyStatement::GenFsCon(x), e));
    }
    None
}

impl PolicyStatement {
    /// Parses one statement at `pos`: the first grammar that accepts, in the
    /// order permission rule, extended permission rule, state change, type,
    /// attribute assignment, attribute, transition, type change, file system
    /// context. Fails where none accepts.
    pub fn parse(input: &[char], pos: usize) -> (r: Option<(Self, usize)>)
        requires
            pos <= input.len(),
        ensures
            parsed(r) == spec_statement(input@, pos as int),
            r matches Some((x, e)) ==> pos <= e <= input.len() && well_formed(x@),
    {
        proof {
            lemma_statement_well_formed(input@, pos as int);
        }
        let j = skip_blanks(input, pos);
        let (x, e) = parse_any(input, j)?;
        let e = skip_blanks(input, e);
        let e = skip_semis(input, e);
        let e = skip_blanks(input, e);
        Some((x, e))
    }
}

} // verus!
