//! Character classes of the rule language.

use vstd::prelude::*;

verus! {

/// Characters that may stand in a name: ASCII letters and digits, `_`, `-`.
pub open spec fn sepolicy_char(c: char) -> bool {
    ||| 'a' <= c <= 'z'
    ||| 'A' <= c <= 'Z'
    ||| '0' <= c <= '9'
    ||| c == '_'
    ||| c == '-'
}

/// Separators between the fields of a statement: space and tab.
pub open spec fn blank_char(c: char) -> bool {
    c == ' ' || c == '\t'
}

/// Unicode white space (the code points with the `White_Space` property).
/// It is what trimming removes and what separates names inside braces.
pub open spec fn space_char(c: char) -> bool {
    ||| '\u{9}' <= c <= '\u{d}'
    ||| c == ' '
    ||| c == '\u{85}'
    ||| c == '\u{a0}'
    ||| c == '\u{1680}'
    ||| '\u{2000}' <= c <= '\u{200a}'
    ||| c == '\u{2028}'
    ||| c == '\u{2029}'
    ||| c == '\u{202f}'
    ||| c == '\u{205f}'
    ||| c == '\u{3000}'
}

/// Tells whether `c` may stand in a name.
pub fn is_sepolicy_char(c: char) -> (r: bool)
    ensures
        r == sepolicy_char(c),
{
    ('a' <= c && c <= 'z') || ('A' <= c && c <= 'Z') || ('0' <= c && c <= '9') || c == '_' || c
        == '-'
}

/// Tells whether `c` is a space or a tab.
pub fn is_blank(c: char) -> (r: bool)
    ensures
        r == blank_char(c),
{
    c == ' ' || c == '\t'
}

/// Tells whether `c` is Unicode white space.
pub fn is_space(c: char) -> (r: bool)
    ensures
        r == space_char(c),
{
    ('\u{9}' <= c && c <= '\u{d}') || c == ' ' || c == '\u{85}' || c == '\u{a0}' || c
        == '\u{1680}' || ('\u{2000}' <= c && c <= '\u{200a}') || c == '\u{2028}' || c
        == '\u{2029}' || c == '\u{202f}' || c == '\u{205f}' || c == '\u{3000}'
}

/// Every name character is neither a separator nor white space, so the three
/// notations of an object list differ by their first character.
pub proof fn lemma_name_char_is_not_space(c: char)
    requires
        sepolicy_char(c),
    ensures
        !space_char(c),
        !blank_char(c),
        c != '{',
        c != '}',
        c != '*',
        c != ';',
        c != '#',
        c != '\n',
{
}

} // verus!
