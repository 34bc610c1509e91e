//! What holds of every statement that the grammar yields: names are
//! non-empty runs of name characters, object lists hold at least one name,
//! the wildcard stands only where it is allowed, and the operation is one of
//! the keywords of its kind.

use crate::chars::{sepolicy_char, space_char};
use crate::dispatch::spec_statement;
use crate::grammar::{
    spec_attr, spec_genfscon, spec_normal_perm, spec_type, spec_type_attr, spec_type_change,
    spec_type_state, spec_type_transition, spec_xperm,
};
use crate::lex::{blank_end, lemma_blank_end, lemma_word_end, spec_spaced_word, spec_word};
use crate::object::{
    list_body_end, name_end, spec_bracket_objs, spec_seobj, spec_spaced_obj, split_names,
    MAX_LIST_CHARS,
};
use crate::statement::StatementView;
use vstd::prelude::*;

verus! {

/// A name: a non-empty sequence of name characters.
pub open spec fn is_name(w: Seq<char>) -> bool {
    w.len() > 0 && forall|k: int| 0 <= k < w.len() ==> sepolicy_char(#[trigger] w[k])
}

/// A list of names.
pub open spec fn all_names(v: Seq<Seq<char>>) -> bool {
    forall|n: int| 0 <= n < v.len() ==> is_name(#[trigger] v[n])
}

/// An object list where the wildcard is not allowed: at least one name.
pub open spec fn is_object_no_star(v: Seq<Seq<char>>) -> bool {
    v.len() > 0 && all_names(v)
}

/// An object list: at least one name, or the wildcard alone.
pub open spec fn is_object(v: Seq<Seq<char>>) -> bool {
    is_object_no_star(v) || v == seq!["*"@]
}

/// The statement is one that the data model allows.
pub open spec fn well_formed(v: StatementView) -> bool {
    match v {
        StatementView::NormalPerm { op, source, target, class, perm } => {
            &&& op == "allow"@ || op == "deny"@ || op == "auditallow"@ || op == "dontaudit"@
            &&& is_object(source)
            &&& is_object(target)
            &&& is_object(class)
            &&& is_object(perm)
        },
        StatementView::XPerm { op, source, target, class, operation, perm_set } => {
            &&& op == "allowxperm"@ || op == "auditallowxperm"@ || op == "dontauditxperm"@
            &&& is_object(source)
            &&& is_object(target)
            &&& is_object(class)
            &&& is_name(operation)
            &&& is_name(perm_set)
        },
        StatementView::TypeState { op, stype } => {
            &&& op == "permissive"@ || op == "enforce"@
            &&& is_object_no_star(stype)
        },
        StatementView::Type { name, attrs } => {
            &&& is_name(name)
            &&& is_object_no_star(attrs)
        },
        StatementView::TypeAttr { stype, sattr } => {
            &&& is_object_no_star(stype)
            &&& is_object_no_star(sattr)
        },
        StatementView::Attr { name } => is_name(name),
        StatementView::TypeTransition { source, target, class, default_type, object_name } => {
            &&& is_name(source)
            &&& is_name(target)
            &&& is_name(class)
            &&& is_name(default_type)
            &&& object_name matches Some(o) ==> is_name(o)
        },
        StatementView::TypeChange { op, source, target, class, default_type } => {
            &&& op == "type_change"@ || op == "type_member"@
            &&& is_name(source)
            &&& is_name(target)
            &&& is_name(class)
            &&& is_name(default_type)
        },
        StatementView::GenFsCon { fs_name, partial_path, fs_context } => {
            &&& is_name(fs_name)
            &&& is_name(partial_path)
            &&& is_name(fs_context)
        },
    }
}

/// What the grammar takes as a name is a name, and ends inside the input.
pub proof fn lemma_word_is_name(s: Seq<char>, i: int)
    requires
        0 <= i <= s.len(),
    ensures
        spec_word(s, i) matches Some((w, e)) ==> is_name(w) && e == i + w.len() && e <= s.len(),
{
    lemma_word_end(s, i);
}

/// The body of a list in braces ends inside the input, within the limit, and
/// holds name characters and white space only.
proof fn lemma_list_body_end(s: Seq<char>, i: int, limit: int)
    requires
        0 <= i <= s.len(),
        i <= limit,
    ensures
        i <= list_body_end(s, i, limit) <= s.len(),
        list_body_end(s, i, limit) <= limit,
        forall|k: int|
            i <= k < list_body_end(s, i, limit) ==> sepolicy_char(#[trigger] s[k]) || space_char(
                s[k],
            ),
    decreases limit - i,
{
    if i < s.len() && i < limit && (sepolicy_char(s[i]) || space_char(s[i])) {
        lemma_list_body_end(s, i + 1, limit);
    }
}

/// A run of characters other than white space ends before the bound.
proof fn lemma_name_end(s: Seq<char>, i: int, e: int)
    requires
        0 <= i <= e <= s.len(),
    ensures
        i <= name_end(s, i, e) <= e,
        forall|k: int| i <= k < name_end(s, i, e) ==> !space_char(#[trigger] s[k]),
    decreases e - i,
{
    if i < e && !space_char(s[i]) {
        lemma_name_end(s, i + 1, e);
    }
}

/// Splitting a text of name characters and white space gives names.
proof fn lemma_split_gives_names(s: Seq<char>, i: int, e: int)
    requires
        0 <= i <= e <= s.len(),
        forall|k: int| i <= k < e ==> sepolicy_char(#[trigger] s[k]) || space_char(s[k]),
    ensures
        all_names(split_names(s, i, e)),
    decreases e - i,
{
    if i < e {
        if space_char(s[i]) {
            lemma_split_gives_names(s, i + 1, e);
        } else {
            let w = name_end(s, i + 1, e);
            lemma_name_end(s, i + 1, e);
            lemma_split_gives_names(s, w, e);
            let first = s.subrange(i, w);
            let rest = split_names(s, w, e);
            assert forall|k: int| 0 <= k < first.len() implies sepolicy_char(
                #[trigger] first[k],
            ) by {
                assert(first[k] == s[i + k]);
            }
            assert(is_name(first));
            let all = seq![first] + rest;
            assert forall|n: int| 0 <= n < all.len() implies is_name(#[trigger] all[n]) by {
                if n > 0 {
                    assert(all[n] == rest[n - 1]);
                }
            }
        }
    }
}

/// An object list that the grammar yields is what its position allows, and
/// ends inside the input.
pub proof fn lemma_seobj_is_object(s: Seq<char>, i: int, star: bool)
    requires
        0 <= i <= s.len(),
    ensures
        spec_seobj(s, i, star) matches Some((v, e)) ==> {
            &&& i < e <= s.len()
            &&& if star {
                is_object(v)
            } else {
                is_object_no_star(v)
            }
        },
{
    lemma_word_is_name(s, i);
    if spec_word(s, i) is None && spec_bracket_objs(s, i) is Some {
        lemma_list_body_end(s, i + 1, i + 1 + MAX_LIST_CHARS);
        let e = list_body_end(s, i + 1, i + 1 + MAX_LIST_CHARS);
        lemma_split_gives_names(s, i + 1, e);
    }
}

/// The same of every field that follows a separator, at every position of
/// the input.
proof fn lemma_fields(s: Seq<char>)
    ensures
        forall|i: int, star: bool|
            0 <= i <= s.len() ==> (#[trigger] spec_spaced_obj(s, i, star) matches Some((v, e)) ==> {
                &&& i < e <= s.len()
                &&& if star {
                    is_object(v)
                } else {
                    is_object_no_star(v)
                }
            }),
        forall|i: int|
            0 <= i <= s.len() ==> (#[trigger] spec_spaced_word(s, i) matches Some((w, e))
                ==> is_name(w) && i < e <= s.len()),
{
    assert forall|i: int, star: bool| 0 <= i <= s.len() implies (#[trigger] spec_spaced_obj(
        s,
        i,
        star,
    ) matches Some((v, e)) ==> {
        &&& i < e <= s.len()
        &&& if star {
            is_object(v)
        } else {
            is_object_no_star(v)
        }
    }) by {
        lemma_blank_end(s, i);
        lemma_seobj_is_object(s, blank_end(s, i), star);
    }
    assert forall|i: int| 0 <= i <= s.len() implies (#[trigger] spec_spaced_word(s, i) matches Some(
        (w, e),
    ) ==> is_name(w) && i < e <= s.len()) by {
        lemma_blank_end(s, i);
        lemma_word_is_name(s, blank_end(s, i));
    }
}

/// A permission rule that the grammar yields is well formed and ends inside
/// the input.
pub proof fn lemma_normal_perm_well_formed(s: Seq<char>, i: int)
    requires
        0 <= i <= s.len(),
    ensures
        spec_normal_perm(s, i) matches Some((v, e)) ==> well_formed(v) && i <= e <= s.len(),
{
    lemma_fields(s);
}

/// An extended permission rule that the grammar yields is well formed and ends inside
/// the input.
pub proof fn lemma_xperm_well_formed(s: Seq<char>, i: int)
    requires
        0 <= i <= s.len(),
    ensures
        spec_xperm(s, i) matches Some((v, e)) ==> well_formed(v) && i <= e <= s.len(),
{
    lemma_fields(s);
}

/// A state change that the grammar yields is well formed and ends inside
/// the input.
pub proof fn lemma_type_state_well_formed(s: Seq<char>, i: int)
    requires
        0 <= i <= s.len(),
    ensures
        spec_type_state(s, i) matches Some((v, e)) ==> well_formed(v) && i <= e <= s.len(),
{
    lemma_fields(s);
}

/// A type declaration that the grammar yields is well formed and ends inside
/// the input.
pub proof fn lemma_type_well_formed(s: Seq<char>, i: int)
    requires
        0 <= i <= s.len(),
    ensures
        spec_type(s, i) matches Some((v, e)) ==> well_formed(v) && i <= e <= s.len(),
{
    lemma_fields(s);
    lemma_domain_is_a_name();
}

/// An attribute assignment that the grammar yields is well formed and ends inside
/// the input.
pub proof fn lemma_type_attr_well_formed(s: Seq<char>, i: int)
    requires
        0 <= i <= s.len(),
    ensures
        spec_type_attr(s, i) matches Some((v, e)) ==> well_formed(v) && i <= e <= s.len(),
{
    lemma_fields(s);
}

/// An attribute declaration that the grammar yields is well formed and ends inside
/// the input.
pub proof fn lemma_attr_well_formed(s: Seq<char>, i: int)
    requires
        0 <= i <= s.len(),
    ensures
        spec_attr(s, i) matches Some((v, e)) ==> well_formed(v) && i <= e <= s.len(),
{
    lemma_fields(s);
}

/// A transition that the grammar yields is well formed and ends inside
/// the input.
pub proof fn lemma_type_transition_well_formed(s: Seq<char>, i: int)
    requires
        0 <= i <= s.len(),
    ensures
        spec_type_transition(s, i) matches Some((v, e)) ==> well_formed(v) && i <= e <= s.len(),
{
    lemma_fields(s);
}

/// A type change that the grammar yields is well formed and ends inside
/// the input.
pub proof fn lemma_type_change_well_formed(s: Seq<char>, i: int)
    requires
        0 <= i <= s.len(),
    ensures
        spec_type_change(s, i) matches Some((v, e)) ==> well_formed(v) && i <= e <= s.len(),
{
    lemma_fields(s);
}

/// A file system context that the grammar yields is well formed and ends inside
/// the input.
pub proof fn lemma_genfscon_well_formed(s: Seq<char>, i: int)
    requires
        0 <= i <= s.len(),
    ensures
        spec_genfscon(s, i) matches Some((v, e)) ==> well_formed(v) && i <= e <= s.len(),
{
    lemma_fields(s);
}

/// The wildcard is no name, so an object list of a position that does not
/// allow it never holds it.
pub proof fn lemma_no_star_list_holds_no_wildcard(v: Seq<Seq<char>>)
    requires
        is_object_no_star(v),
    ensures
        !is_name("*"@),
        forall|n: int| 0 <= n < v.len() ==> #[trigger] v[n] != "*"@,
{
    reveal_strlit("*");
    assert("*"@.len() == 1);
    assert(!sepolicy_char("*"@[0]));
}

/// The attribute that a type has by default is a name.
pub proof fn lemma_domain_is_a_name()
    ensures
        is_object_no_star(seq!["domain"@]),
{
    reveal_strlit("domain");
    let d = "domain"@;
    assert(d.len() == 6);
    assert(sepolicy_char(d[0]) && sepolicy_char(d[1]) && sepolicy_char(d[2]) && sepolicy_char(
        d[3],
    ) && sepolicy_char(d[4]) && sepolicy_char(d[5]));
    assert(is_name(d));
}

/// Every statement that the dispatcher yields is well formed, whatever the
/// input.
pub proof fn lemma_statement_well_formed(s: Seq<char>, i: int)
    requires
        0 <= i <= s.len(),
    ensures
        spec_statement(s, i) matches Some((v, _)) ==> well_formed(v),
{
    lemma_blank_end(s, i);
    let j = blank_end(s, i);
    lemma_normal_perm_well_formed(s, j);
    lemma_xperm_well_formed(s, j);
    lemma_type_state_well_formed(s, j);
    lemma_type_well_formed(s, j);
    lemma_type_attr_well_formed(s, j);
    lemma_attr_well_formed(s, j);
    lemma_type_transition_well_formed(s, j);
    lemma_type_change_well_formed(s, j);
    lemma_genfscon_well_formed(s, j);
}

} // verus!
