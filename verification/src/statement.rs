//! The nine kinds of statement and what each stands for in contracts.

use crate::text::names;
use vstd::prelude::*;

verus! {

/// A statement as a mathematical value: names are sequences of characters
/// and object lists are sequences of names.
#[allow(inconsistent_fields)]
pub ghost enum StatementView {
    NormalPerm {
        op: Seq<char>,
        source: Seq<Seq<char>>,
        target: Seq<Seq<char>>,
        class: Seq<Seq<char>>,
        perm: Seq<Seq<char>>,
    },
    XPerm {
        op: Seq<char>,
        source: Seq<Seq<char>>,
        target: Seq<Seq<char>>,
        class: Seq<Seq<char>>,
        operation: Seq<char>,
        perm_set: Seq<char>,
    },
    TypeState { op: Seq<char>, stype: Seq<Seq<char>> },
    Type { name: Seq<char>, attrs: Seq<Seq<char>> },
    TypeAttr { stype: Seq<Seq<char>>, sattr: Seq<Seq<char>> },
    Attr { name: Seq<char> },
    TypeTransition {
        source: Seq<char>,
        target: Seq<char>,
        class: Seq<char>,
        default_type: Seq<char>,
        object_name: Option<Seq<char>>,
    },
    TypeChange {
        op: Seq<char>,
        source: Seq<char>,
        target: Seq<char>,
        class: Seq<char>,
        default_type: Seq<char>,
    },
    GenFsCon { fs_name: Seq<char>, partial_path: Seq<char>, fs_context: Seq<char> },
}

/// `allow`, `deny`, `auditallow` or `dontaudit` with source, target, class
/// and permissions.
#[derive(Debug, Clone, PartialEq, Eq)]
pub struct NormalPerm {
    pub op: String,
    pub source: Vec<String>,
    pub target: Vec<String>,
    pub class: Vec<String>,
    pub perm: Vec<String>,
}

/// `allowxperm`, `auditallowxperm` or `dontauditxperm` with source, target,
/// class, operation and permission set.
#[derive(Debug, Clone, PartialEq, Eq)]
pub struct XPerm {
    pub op: String,
    pub source: Vec<String>,
    pub target: Vec<String>,
    pub class: Vec<String>,
    pub operation: String,
    pub perm_set: String,
}

/// `permissive` or `enforce` with the types it is about.
#[derive(Debug, Clone, PartialEq, Eq)]
pub struct TypeState {
    pub op: String,
    pub stype: Vec<String>,
}

/// `typeattribute` or `attradd`: types and the attributes given to them.
#[derive(Debug, Clone, PartialEq, Eq)]
pub struct TypeAttr {
    pub stype: Vec<String>,
    pub sattr: Vec<String>,
}

/// `type`: a new type and its attributes.
#[derive(Debug, Clone, PartialEq, Eq)]
pub struct Type {
    pub name: String,
    pub attrs: Vec<String>,
}

/// `attribute`: a new attribute.
#[derive(Debug, Clone, PartialEq, Eq)]
pub struct Attr {
    pub name: String,
}

/// `type_transition` or `name_transition`, with an object name or without.
#[derive(Debug, Clone, PartialEq, Eq)]
pub struct TypeTransition {
    pub source: String,
    pub target: String,
    pub class: String,
    pub default_type: String,
    pub object_name: Option<String>,
}

/// `type_change` or `type_member`.
#[derive(Debug, Clone, PartialEq, Eq)]
pub struct TypeChange {
    pub op: String,
    pub source: String,
    pub target: String,
    pub class: String,
    pub default_type: String,
}

/// `genfscon`: a file system, a path prefix and the context bound to them.
#[derive(Debug, Clone, PartialEq, Eq)]
pub struct GenFsCon {
    pub fs_name: String,
    pub partial_path: String,
    pub fs_context: String,
}

/// One parsed statement of any kind.
#[derive(Debug, Clone, PartialEq, Eq)]
pub enum PolicyStatement {
    NormalPerm(NormalPerm),
    XPerm(XPerm),
    TypeState(TypeState),
    Type(Type),
    TypeAttr(TypeAttr),
    Attr(Attr),
    TypeTransition(TypeTransition),
    TypeChange(TypeChange),
    GenFsCon(GenFsCon),
}

impl View for NormalPerm {
    type V = StatementView;

    open spec fn view(&self) -> StatementView {
        StatementView::NormalPerm {
            op: self.op@,
            source: names(self.source@),
            target: names(self.target@),
            class: names(self.class@),
            perm: names(self.perm@),
        }
    }
}

impl View for XPerm {
    type V = StatementView;

    open spec fn view(&self) -> StatementView {
        StatementView::XPerm {
            op: self.op@,
            source: names(self.source@),
            target: names(self.target@),
            class: names(self.class@),
            operation: self.operation@,
            perm_set: self.perm_set@,
        }
    }
}

impl View for TypeState {
    type V = StatementView;

    open spec fn view(&self) -> StatementView {
        StatementView::TypeState { op: self.op@, stype: names(self.stype@) }
    }
}

impl View for TypeAttr {
    type V = StatementView;

    open spec fn view(&self) -> StatementView {
        StatementView::TypeAttr { stype: names(self.stype@), sattr: names(self.sattr@) }
    }
}

impl View for Type {
    type V = StatementView;

    open spec fn view(&self) -> StatementView {
        StatementView::Type { name: self.name@, attrs: names(self.attrs@) }
    }
}

impl View for Attr {
    type V = StatementView;

    open spec fn view(&self) -> StatementView {
        StatementView::Attr { name: self.name@ }
    }
}

/// What an optional name stands for in contracts.
pub open spec fn opt_name(o: Option<String>) -> Option<Seq<char>> {
    match o {
        Some(w) => Some(w@),
        None => None,
    }
}

impl View for TypeTransition {
    type V = StatementView;

    open spec fn view(&self) -> StatementView {
        StatementView::TypeTransition {
            source: self.source@,
            target: self.target@,
            class: self.class@,
            default_type: self.default_type@,
            object_name: opt_name(self.object_name),
        }
    }
}

impl View for TypeChange {
    type V = StatementView;

    open spec fn view(&self) -> StatementView {
        StatementView::TypeChange {
            op: self.op@,
            source: self.source@,
            target: self.target@,
            class: self.class@,
            default_type: self.default_type@,
        }
    }
}

impl View for GenFsCon {
    type V = StatementView;

    open spec fn view(&self) -> StatementView {
        StatementView::GenFsCon {
            fs_name: self.fs_name@,
            partial_path: self.partial_path@,
            fs_context: self.fs_context@,
        }
    }
}

impl View for PolicyStatement {
    type V = StatementView;

    open spec fn view(&self) -> StatementView {
        match self {
            PolicyStatement::NormalPerm(x) => x@,
            PolicyStatement::XPerm(x) => x@,
            PolicyStatement::TypeState(x) => x@,
            PolicyStatement::Type(x) => x@,
            PolicyStatement::TypeAttr(x) => x@,
            PolicyStatement::Attr(x) => x@,
            PolicyStatement::TypeTransition(x) => x@,
            PolicyStatement::TypeChange(x) => x@,
            PolicyStatement::GenFsCon(x) => x@,
        }
    }
}

/// What the result of a grammar stands for in contracts: the statement's
/// view and the position after it.
pub open spec fn parsed<T: View<V = StatementView>>(r: Option<(T, usize)>) -> Option<
    (StatementView, int),
> {
    match r {
        Some((x, e)) => Some((x@, e as int)),
        None => None,
    }
}

} // verus!
