//! Parser and structural validator for a line-oriented SELinux policy rule
//! language (`allow`, `type_transition`, `genfscon`, ...).
//!
//! Rule text is turned into a list of typed statements or rejected. Every
//! executable function is proved to compute the grammar that the spec
//! functions beside it define over sequences of characters.

pub mod chars;
pub mod dispatch;
pub mod document;
pub mod exclusive;
pub mod grammar;
pub mod joined;
pub mod laws;
pub mod lex;
pub mod object;
pub mod statement;
pub mod text;
pub mod wellformed;

pub use chars::is_sepolicy_char;
pub use document::{check_rule, parse_sepolicy, ParseError};
pub use statement::{
    Attr, GenFsCon, NormalPerm, PolicyStatement, Type, TypeAttr, TypeChange, TypeState,
    TypeTransition, XPerm,
};
