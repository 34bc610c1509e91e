//! The grammar of each kind of statement.
//!
//! A grammar is a function from the input and a position to the statement
//! and the position after it, or to a failure that leaves nothing consumed.

use crate::lex::{
    match_tag, or_keyword, spaced_word, spec_or_keyword, spec_spaced_word, spec_tag,
};
use crate::object::{spaced_obj, spec_spaced_obj};
use crate::statement::{
    parsed, Attr, GenFsCon, NormalPerm, StatementView, Type, TypeAttr, TypeChange, TypeState,
    TypeTransition, XPerm,
};
use crate::text::{lemma_names_push, names};
use vstd::prelude::*;

verus! {

/// The keyword of a permission rule.
pub open spec fn spec_normal_perm_op(s: Seq<char>, i: int) -> Option<(Seq<char>, int)> {
    let k = spec_or_keyword(None, s, i, "allow"@);
    let k = spec_or_keyword(k, s, i, "deny"@);
    let k = spec_or_keyword(k, s, i, "auditallow"@);
    spec_or_keyword(k, s, i, "dontaudit"@)
}

/// `("allow"|"deny"|"auditallow"|"dontaudit") WS OBJ WS OBJ WS OBJ WS OBJ`
pub open spec fn spec_normal_perm(s: Seq<char>, i: int) -> Option<(StatementView, int)> {
    match spec_normal_perm_op(s, i) {
        None => None,
        Some((op, i0)) => match spec_spaced_obj(s, i0, true) {
            None => None,
            Some((source, i1)) => match spec_spaced_obj(s, i1, true) {
                None => None,
                Some((target, i2)) => match spec_spaced_obj(s, i2, true) {
                    None => None,
                    Some((class, i3)) => match spec_spaced_obj(s, i3, true) {
                        None => None,
                        Some((perm, i4)) => Some(
                            (StatementView::NormalPerm { op, source, target, class, perm }, i4),
                        ),
                    },
                },
            },
        },
    }
}

impl NormalPerm {
    /// A permission rule of the given parts.
    pub fn new(
        op: String,
        source: Vec<String>,
        target: Vec<String>,
        class: Vec<String>,
        perm: Vec<String>,
    ) -> (r: Self)
        ensures
            r == (NormalPerm { op, source, target, class, perm }),
    {
        NormalPerm { op, source, target, class, perm }
    }

    /// Parses a permission rule at `pos`.
    pub fn parse(input: &[char], pos: usize) -> (r: Option<(Self, usize)>)
        requires
            pos <= input.len(),
        ensures
            parsed(r) == spec_normal_perm(input@, pos as int),
            r matches Some((_, e)) ==> pos <= e <= input.len(),
    {
        let k = or_keyword(None, input, pos, "allow");
        let k = or_keyword(k, input, pos, "deny");
        let k = or_keyword(k, input, pos, "auditallow");
        let (op, i0) = or_keyword(k, input, pos, "dontaudit")?;
        let (source, i1) = spaced_obj(input, i0, true)?;
        let (target, i2) = spaced_obj(input, i1, true)?;
        let (class, i3) = spaced_obj(input, i2, true)?;
        let (perm, i4) = spaced_obj(input, i3, true)?;
        Some((NormalPerm::new(op, source, target, class, perm), i4))
    }
}

/// The keyword of an extended permission rule.
pub open spec fn spec_xperm_op(s: Seq<char>, i: int) -> Option<(Seq<char>, int)> {
    let k = spec_or_keyword(None, s, i, "allowxperm"@);
    let k = spec_or_keyword(k, s, i, "auditallowxperm"@);
    spec_or_keyword(k, s, i, "dontauditxperm"@)
}

/// `("allowxperm"|"auditallowxperm"|"dontauditxperm") WS OBJ WS OBJ WS OBJ WS TOKEN WS TOKEN`
pub open spec fn spec_xperm(s: Seq<char>, i: int) -> Option<(StatementView, int)> {
    match spec_xperm_op(s, i) {
        None => None,
        Some((op, i0)) => match spec_spaced_obj(s, i0, true) {
            None => None,
            Some((source, i1)) => match spec_spaced_obj(s, i1, true) {
                None => None,
                Some((target, i2)) => match spec_spaced_obj(s, i2, true) {
                    None => None,
                    Some((class, i3)) => match spec_spaced_word(s, i3) {
                        None => None,
                        Some((operation, i4)) => match spec_spaced_word(s, i4) {
                            None => None,
                            Some((perm_set, i5)) => Some(
                                (
                                    StatementView::XPerm {
                                        op,
                                        source,
                                        target,
                                        class,
                                        operation,
                                        perm_set,
                                    },
                                    i5,
                                ),
                            ),
                        },
                    },
                },
            },
        },
    }
}

impl XPerm {
    /// An extended permission rule of the given parts.
    pub fn new(
        op: String,
        source: Vec<String>,
        target: Vec<String>,
        class: Vec<String>,
        operation: String,
        perm_set: String,
    ) -> (r: Self)
        ensures
            r == (XPerm { op, source, target, class, operation, perm_set }),
    {
        XPerm { op, source, target, class, operation, perm_set }
    }

    /// Parses an extended permission rule at `pos`.
    pub fn parse(input: &[char], pos: usize) -> (r: Option<(Self, usize)>)
        requires
            pos <= input.len(),
        ensures
            parsed(r) == spec_xperm(input@, pos as int),
            r matches Some((_, e)) ==> pos <= e <= input.len(),
    {
        let k = or_keyword(None, input, pos, "allowxperm");
        let k = or_keyword(k, input, pos, "auditallowxperm");
        let (op, i0) = or_keyword(k, input, pos, "dontauditxperm")?;
        let (source, i1) = spaced_obj(input, i0, true)?;
        let (target, i2) = spaced_obj(input, i1, true)?;
        let (class, i3) = spaced_obj(input, i2, true)?;
        let (operation, i4) = spaced_word(input, i3)?;
        let (perm_set, i5) = spaced_word(input, i4)?;
        Some((XPerm::new(op, source, target, class, operation, perm_set), i5))
    }
}

/// The keyword of a state change.
pub open spec fn spec_type_state_op(s: Seq<char>, i: int) -> Option<(Seq<char>, int)> {
    let k = spec_or_keyword(None, s, i, "permissive"@);
    spec_or_keyword(k, s, i, "enforce"@)
}

/// `("permissive"|"enforce") WS OBJ-NOSTAR`
pub open spec fn spec_type_state(s: Seq<char>, i: int) -> Option<(StatementView, int)> {
    match spec_type_state_op(s, i) {
        None => None,
        Some((op, i0)) => match spec_spaced_obj(s, i0, false) {
            None => None,
            Some((stype, i1)) => Some((StatementView::TypeState { op, stype }, i1)),
        },
    }
}

impl TypeState {
    /// A state change of the given parts.
    pub fn new(op: String, stype: Vec<String>) -> (r: Self)
        ensures
            r == (TypeState { op, stype }),
    {
        TypeState { op, stype }
    }

    /// Parses a state change at `pos`.
    pub fn parse(input: &[char], pos: usize) -> (r: Option<(Self, usize)>)
        requires
            pos <= input.len(),
        ensures
            parsed(r) == spec_type_state(input@, pos as int),
            r matches Some((_, e)) ==> pos <= e <= input.len(),
    {
        let k = or_keyword(None, input, pos, "permissive");
        let (op, i0) = or_keyword(k, input, pos, "enforce")?;
        let (stype, i1) = spaced_obj(input, i0, false)?;
        Some((TypeState::new(op, stype), i1))
    }
}

/// `"type" WS TOKEN [WS OBJ-NOSTAR]`; without the list the attributes are
/// the one name `domain`.
pub open spec fn spec_type(s: Seq<char>, i: int) -> Option<(StatementView, int)> {
    match spec_tag(s, i, "type"@) {
        None => None,
        Some(i0) => match spec_spaced_word(s, i0) {
            None => None,
            Some((name, i1)) => match spec_spaced_obj(s, i1, false) {
                Some((attrs, i2)) => Some((StatementView::Type { name, attrs }, i2)),
                None => Some((StatementView::Type { name, attrs: seq!["domain"@] }, i1)),
            },
        },
    }
}

impl Type {
    /// A type declaration of the given parts.
    pub fn new(name: String, attrs: Vec<String>) -> (r: Self)
        ensures
            r == (Type { name, attrs }),
    {
        Type { name, attrs }
    }

    /// Parses a type declaration at `pos`.
    pub fn parse(input: &[char], pos: usize) -> (r: Option<(Self, usize)>)
        requires
            pos <= input.len(),
        ensures
            parsed(r) == spec_type(input@, pos as int),
            r matches Some((_, e)) ==> pos <= e <= input.len(),
    {
        let i0 = match_tag(input, pos, "type")?;
        let (name, i1) = spaced_word(input, i0)?;
        match spaced_obj(input, i1, false) {
            Some((attrs, i2)) => Some((Type::new(name, attrs), i2)),
            None => {
                let mut attrs: Vec<String> = Vec::new();
                let domain = String::from_str("domain");
                proof {
                    lemma_names_push(attrs@, domain);
                    assert(names(attrs@.push(domain)) =~= seq!["domain"@]);
                }
                attrs.push(domain);
                Some((Type::new(name, attrs), i1))
            },
        }
    }
}

/// The keyword that gives attributes to types.
pub open spec fn spec_type_attr_op(s: Seq<char>, i: int) -> Option<(Seq<char>, int)> {
    let k = spec_or_keyword(None, s, i, "typeattribute"@);
    spec_or_keyword(k, s, i, "attradd"@)
}

/// `("typeattribute"|"attradd") WS OBJ-NOSTAR WS OBJ-NOSTAR`
pub open spec fn spec_type_attr(s: Seq<char>, i: int) -> Option<(StatementView, int)> {
    match spec_type_attr_op(s, i) {
        None => None,
        Some((_, i0)) => match spec_spaced_obj(s, i0, false) {
            None => None,
            Some((stype, i1)) => match spec_spaced_obj(s, i1, false) {
                None => None,
                Some((sattr, i2)) => Some((StatementView::TypeAttr { stype, sattr }, i2)),
            },
        },
    }
}

impl TypeAttr {
    /// An attribute assignment of the given parts.
    pub fn new(stype: Vec<String>, sattr: Vec<String>) -> (r: Self)
        ensures
            r == (TypeAttr { stype, sattr }),
    {
        TypeAttr { stype, sattr }
    }

    /// Parses an attribute assignment at `pos`.
    pub fn parse(input: &[char], pos: usize) -> (r: Option<(Self, usize)>)
        requires
            pos <= input.len(),
        ensures
            parsed(r) == spec_type_attr(input@, pos as int),
            r matches Some((_, e)) ==> pos <= e <= input.len(),
    {
        let k = or_keyword(None, input, pos, "typeattribute");
        let (_, i0) = or_keyword(k, input, pos, "attradd")?;
        let (stype, i1) = spaced_obj(input, i0, false)?;
        let (sattr, i2) = spaced_obj(input, i1, false)?;
        Some((TypeAttr::new(stype, sattr), i2))
    }
}

/// `"attribute" WS TOKEN`
pub open spec fn spec_attr(s: Seq<char>, i: int) -> Option<(StatementView, int)> {
    match spec_tag(s, i, "attribute"@) {
        None => None,
        Some(i0) => match spec_spaced_word(s, i0) {
            None => None,
            Some((name, i1)) => Some((StatementView::Attr { name }, i1)),
        },
    }
}

impl Attr {
    /// An attribute declaration.
    pub fn new(name: String) -> (r: Self)
        ensures
            r == (Attr { name }),
    {
        Attr { name }
    }

    /// Parses an attribute declaration at `pos`.
    pub fn parse(input: &[char], pos: usize) -> (r: Option<(Self, usize)>)
        requires
            pos <= input.len(),
        ensures
            parsed(r) == spec_attr(input@, pos as int),
            r matches Some((_, e)) ==> pos <= e <= input.len(),
    {
        let i0 = match_tag(input, pos, "attribute")?;
        let (name, i1) = spaced_word(input, i0)?;
        Some((Attr::new(name), i1))
    }
}

/// The keyword of a transition.
pub open spec fn spec_type_transition_op(s: Seq<char>, i: int) -> Option<(Seq<char>, int)> {
    let k = spec_or_keyword(None, s, i, "type_transition"@);
    spec_or_keyword(k, s, i, "name_transition"@)
}

/// `("type_transition"|"name_transition") WS TOKEN WS TOKEN WS TOKEN WS TOKEN [WS TOKEN]`
pub open spec fn spec_type_transition(s: Seq<char>, i: int) -> Option<(StatementView, int)> {
    match spec_type_transition_op(s, i) {
        None => None,
        Some((_, i0)) => match spec_spaced_word(s, i0) {
            None => None,
            Some((source, i1)) => match spec_spaced_word(s, i1) {
                None => None,
                Some((target, i2)) => match spec_spaced_word(s, i2) {
                    None => None,
                    Some((class, i3)) => match spec_spaced_word(s, i3) {
                        None => None,
                        Some((default_type, i4)) => match spec_spaced_word(s, i4) {
                            Some((object, i5)) => Some(
                                (
                                    StatementView::TypeTransition {
                                        source,
                                        target,
                                        class,
                                        default_type,
                                        object_name: Some(object),
                                    },
                                    i5,
                                ),
                            ),
                            None => Some(
                                (
                                    StatementView::TypeTransition {
                                        source,
                                        target,
                                        class,
                                        default_type,
                                        object_name: None,
                                    },
                                    i4,
                                ),
                            ),
                        },
                    },
                },
            },
        },
    }
}

impl TypeTransition {
    /// A transition of the given parts.
    pub fn new(
        source: String,
        target: String,
        class: String,
        default_type: String,
        object_name: Option<String>,
    ) -> (r: Self)
        ensures
            r == (TypeTransition { source, target, class, default_type, object_name }),
    {
        TypeTransition { source, target, class, default_type, object_name }
    }

    /// Parses a transition at `pos`.
    pub fn parse(input: &[char], pos: usize) -> (r: Option<(Self, usize)>)
        requires
            pos <= input.len(),
        ensures
            parsed(r) == spec_type_transition(input@, pos as int),
            r matches Some((_, e)) ==> pos <= e <= input.len(),
    {
        let k = or_keyword(None, input, pos, "type_transition");
        let (_, i0) = or_keyword(k, input, pos, "name_transition")?;
        let (source, i1) = spaced_word(input, i0)?;
        let (target, i2) = spaced_word(input, i1)?;
        let (class, i3) = spaced_word(input, i2)?;
        let (default_type, i4) = spaced_word(input, i3)?;
        match spaced_word(input, i4) {
            Some((object, i5)) => Some(
                (TypeTransition::new(source, target, class, default_type, Some(object)), i5),
            ),
            None => Some((TypeTransition::new(source, target, class, default_type, None), i4)),
        }
    }
}

/// The keyword of a type change.
pub open spec fn spec_type_change_op(s: Seq<char>, i: int) -> Option<(Seq<char>, int)> {
    let k = spec_or_keyword(None, s, i, "type_change"@);
    spec_or_keyword(k, s, i, "type_member"@)
}

/// `("type_change"|"type_member") WS TOKEN WS TOKEN WS TOKEN WS TOKEN`
pub open spec fn spec_type_change(s: Seq<char>, i: int) -> Option<(StatementView, int)> {
    match spec_type_change_op(s, i) {
        None => None,
        Some((op, i0)) => match spec_spaced_word(s, i0) {
            None => None,
            Some((source, i1)) => match spec_spaced_word(s, i1) {
                None => None,
                Some((target, i2)) => match spec_spaced_word(s, i2) {
                    None => None,
                    Some((class, i3)) => match spec_spaced_word(s, i3) {
                        None => None,
                        Some((default_type, i4)) => Some(
                            (
                                StatementView::TypeChange {
                                    op,
                                    source,
                                    target,
                                    class,
                                    default_type,
                                },
                                i4,
                            ),
                        ),
                    },
                },
            },
        },
    }
}

impl TypeChange {
    /// A type change of the given parts.
    pub fn new(
        op: String,
        source: String,
        target: String,
        class: String,
        default_type: String,
    ) -> (r: Self)
        ensures
            r == (TypeChange { op, source, target, class, default_type }),
    {
        TypeChange { op, source, target, class, default_type }
    }

    /// Parses a type change at `pos`.
    pub fn parse(input: &[char], pos: usize) -> (r: Option<(Self, usize)>)
        requires
            pos <= input.len(),
        ensures
            parsed(r) == spec_type_change(input@, pos as int),
            r matches Some((_, e)) ==> pos <= e <= input.len(),
    {
        let k = or_keyword(None, input, pos, "type_change");
        let (op, i0) = or_keyword(k, input, pos, "type_member")?;
        let (source, i1) = spaced_word(input, i0)?;
        let (target, i2) = spaced_word(input, i1)?;
        let (class, i3) = spaced_word(input, i2)?;
        let (default_type, i4) = spaced_word(input, i3)?;
        Some((TypeChange::new(op, source, target, class, default_type), i4))
    }
}

/// `"genfscon" WS TOKEN WS TOKEN WS TOKEN`
pub open spec fn spec_genfscon(s: Seq<char>, i: int) -> Option<(StatementView, int)> {
    match spec_tag(s, i, "genfscon"@) {
        None => None,
        Some(i0) => match spec_spaced_word(s, i0) {
            None => None,
            Some((fs_name, i1)) => match spec_spaced_word(s, i1) {
                None => None,
                Some((partial_path, i2)) => match spec_spaced_word(s, i2) {
                    None => None,
                    Some((fs_context, i3)) => Some(
                        (StatementView::GenFsCon { fs_name, partial_path, fs_context }, i3),
                    ),
                },
            },
        },
    }
}

impl GenFsCon {
    /// A file system context of the given parts.
    pub fn new(fs_name: String, partial_path: String, fs_context: String) -> (r: Self)
        ensures
            r == (GenFsCon { fs_name, partial_path, fs_context }),
    {
        GenFsCon { fs_name, partial_path, fs_context }
    }

    /// Parses a file system context at `pos`.
    pub fn parse(input: &[char], pos: usize) -> (r: Option<(Self, usize)>)
        requires
            pos <= input.len(),
        ensures
            parsed(r) == spec_genfscon(input@, pos as int),
            r matches Some((_, e)) ==> pos <= e <= input.len(),
    {
        let i0 = match_tag(input, pos, "genfscon")?;
        let (fs_name, i1) = spaced_word(input, i0)?;
        let (partial_path, i2) = spaced_word(input, i1)?;
        let (fs_context, i3) = spaced_word(input, i2)?;
        Some((GenFsCon::new(fs_name, partial_path, fs_context), i3))
    }
}

} // verus!
