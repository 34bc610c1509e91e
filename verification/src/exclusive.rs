//! Disambiguation: because every grammar requires a separator right after
//! its keyword, at most one of the nine grammars accepts at a position, so
//! a keyword that is a prefix of another never hides it.

use crate::chars::blank_char;
use crate::grammar::{
    spec_attr, spec_genfscon, spec_normal_perm, spec_type, spec_type_attr, spec_type_change,
    spec_type_state, spec_type_transition, spec_xperm,
};
use crate::dispatch::spec_any_statement;
use crate::lex::spec_tag;
use crate::statement::StatementView;
use vstd::prelude::*;

verus! {

/// The literal `t` stands at `i` and a separator follows it.
pub open spec fn keyword_at(s: Seq<char>, i: int, t: Seq<char>) -> bool {
    spec_tag(s, i, t) is Some && i + t.len() < s.len() && blank_char(s[i + t.len()])
}

/// A keyword of the grammar with number `n`, in dispatch order, stands at
/// `i` with a separator after it.
pub open spec fn keyword_of(s: Seq<char>, i: int, n: int) -> bool {
    if n == 0 {
        keyword_at(s, i, "allow"@) || keyword_at(s, i, "deny"@) || keyword_at(s, i, "auditallow"@)
            || keyword_at(s, i, "dontaudit"@)
    } else if n == 1 {
        keyword_at(s, i, "allowxperm"@) || keyword_at(s, i, "auditallowxperm"@) || keyword_at(
            s,
            i,
            "dontauditxperm"@,
        )
    } else if n == 2 {
        keyword_at(s, i, "permissive"@) || keyword_at(s, i, "enforce"@)
    } else if n == 3 {
        keyword_at(s, i, "type"@)
    } else if n == 4 {
        keyword_at(s, i, "typeattribute"@) || keyword_at(s, i, "attradd"@)
    } else if n == 5 {
        keyword_at(s, i, "attribute"@)
    } else if n == 6 {
        keyword_at(s, i, "type_transition"@) || keyword_at(s, i, "name_transition"@)
    } else if n == 7 {
        keyword_at(s, i, "type_change"@) || keyword_at(s, i, "type_member"@)
    } else if n == 8 {
        keyword_at(s, i, "genfscon"@)
    } else {
        false
    }
}

/// What the grammar with number `n`, in dispatch order, makes of the input
/// at `i`.
pub open spec fn grammar(s: Seq<char>, i: int, n: int) -> Option<(StatementView, int)> {
    if n == 0 {
        spec_normal_perm(s, i)
    } else if n == 1 {
        spec_xperm(s, i)
    } else if n == 2 {
        spec_type_state(s, i)
    } else if n == 3 {
        spec_type(s, i)
    } else if n == 4 {
        spec_type_attr(s, i)
    } else if n == 5 {
        spec_attr(s, i)
    } else if n == 6 {
        spec_type_transition(s, i)
    } else if n == 7 {
        spec_type_change(s, i)
    } else if n == 8 {
        spec_genfscon(s, i)
    } else {
        None
    }
}

/// The grammar with number `n`, in dispatch order, accepts at `i`.
pub open spec fn accepts(s: Seq<char>, i: int, n: int) -> bool {
    grammar(s, i, n) is Some
}

/// A grammar accepts only where one of its keywords stands with a separator
/// after it.
pub proof fn lemma_accepts_needs_keyword(s: Seq<char>, i: int, n: int)
    requires
        accepts(s, i, n),
    ensures
        keyword_of(s, i, n),
{
}

/// Where a literal stands at `i`, its character number `k` stands at
/// `i + k`.
proof fn lemma_mark(s: Seq<char>, i: int, t: Seq<char>, k: int)
    requires
        spec_tag(s, i, t) is Some,
        0 <= k < t.len(),
    ensures
        s[i + k] == t[k],
{
    assert(s.subrange(i, i + t.len())[k] == s[i + k]);
}

/// The first character, and where needed a later one, that tells the
/// keywords of one grammar from those of the others.
proof fn lemma_keyword_marks(s: Seq<char>, i: int, n: int)
    requires
        keyword_of(s, i, n),
    ensures
        n == 0 ==> (s[i] == 'a' && s[i + 1] == 'l' && blank_char(s[i + 5])) || (s[i] == 'a' && s[i
            + 1] == 'u' && blank_char(s[i + 10])) || (s[i] == 'd' && (blank_char(s[i + 4])
            || blank_char(s[i + 9]))),
        n == 1 ==> (s[i] == 'a' && s[i + 1] == 'l' && s[i + 5] == 'x') || (s[i] == 'a' && s[i + 1]
            == 'u' && s[i + 10] == 'x') || (s[i] == 'd' && s[i + 4] == 'a' && s[i + 9] == 'x'),
        n == 2 ==> s[i] == 'p' || s[i] == 'e',
        n == 3 ==> s[i] == 't' && blank_char(s[i + 4]),
        n == 4 ==> (s[i] == 't' && s[i + 4] == 'a') || (s[i] == 'a' && s[i + 1] == 't' && s[i + 4]
            == 'a'),
        n == 5 ==> s[i] == 'a' && s[i + 1] == 't' && s[i + 4] == 'i',
        n == 6 ==> (s[i] == 't' && s[i + 4] == '_' && s[i + 5] == 't') || s[i] == 'n',
        n == 7 ==> s[i] == 't' && s[i + 4] == '_' && (s[i + 5] == 'c' || s[i + 5] == 'm'),
        n == 8 ==> s[i] == 'g',
        0 <= n <= 8,
{
    reveal_strlit("allow");
    reveal_strlit("deny");
    reveal_strlit("auditallow");
    reveal_strlit("dontaudit");
    reveal_strlit("allowxperm");
    reveal_strlit("auditallowxperm");
    reveal_strlit("dontauditxperm");
    reveal_strlit("permissive");
    reveal_strlit("enforce");
    reveal_strlit("type");
    reveal_strlit("typeattribute");
    reveal_strlit("attradd");
    reveal_strlit("attribute");
    reveal_strlit("type_transition");
    reveal_strlit("name_transition");
    reveal_strlit("type_change");
    reveal_strlit("type_member");
    reveal_strlit("genfscon");
    if n == 0 {
        if keyword_at(s, i, "allow"@) {
            lemma_mark(s, i, "allow"@, 0);
            lemma_mark(s, i, "allow"@, 1);
        } else if keyword_at(s, i, "deny"@) {
            lemma_mark(s, i, "deny"@, 0);
        } else if keyword_at(s, i, "auditallow"@) {
            lemma_mark(s, i, "auditallow"@, 0);
            lemma_mark(s, i, "auditallow"@, 1);
        } else {
            lemma_mark(s, i, "dontaudit"@, 0);
        }
    } else if n == 1 {
        if keyword_at(s, i, "allowxperm"@) {
            lemma_mark(s, i, "allowxperm"@, 0);
            lemma_mark(s, i, "allowxperm"@, 1);
            lemma_mark(s, i, "allowxperm"@, 5);
        } else if keyword_at(s, i, "auditallowxperm"@) {
            lemma_mark(s, i, "auditallowxperm"@, 0);
            lemma_mark(s, i, "auditallowxperm"@, 1);
            lemma_mark(s, i, "auditallowxperm"@, 10);
        } else {
            lemma_mark(s, i, "dontauditxperm"@, 0);
            lemma_mark(s, i, "dontauditxperm"@, 4);
            lemma_mark(s, i, "dontauditxperm"@, 9);
        }
    } else if n == 2 {
        if keyword_at(s, i, "permissive"@) {
            lemma_mark(s, i, "permissive"@, 0);
        } else {
            lemma_mark(s, i, "enforce"@, 0);
        }
    } else if n == 3 {
        lemma_mark(s, i, "type"@, 0);
    } else if n == 4 {
        if keyword_at(s, i, "typeattribute"@) {
            lemma_mark(s, i, "typeattribute"@, 0);
            lemma_mark(s, i, "typeattribute"@, 4);
        } else {
            lemma_mark(s, i, "attradd"@, 0);
            lemma_mark(s, i, "attradd"@, 1);
            lemma_mark(s, i, "attradd"@, 4);
        }
    } else if n == 5 {
        lemma_mark(s, i, "attribute"@, 0);
            lemma_mark(s, i, "attribute"@, 1);
            lemma_mark(s, i, "attribute"@, 4);
    } else if n == 6 {
        if keyword_at(s, i, "type_transition"@) {
            lemma_mark(s, i, "type_transition"@, 0);
            lemma_mark(s, i, "type_transition"@, 4);
            lemma_mark(s, i, "type_transition"@, 5);
        } else {
            lemma_mark(s, i, "name_transition"@, 0);
        }
    } else if n == 7 {
        if keyword_at(s, i, "type_change"@) {
            lemma_mark(s, i, "type_change"@, 0);
            lemma_mark(s, i, "type_change"@, 4);
            lemma_mark(s, i, "type_change"@, 5);
        } else {
            lemma_mark(s, i, "type_member"@, 0);
            lemma_mark(s, i, "type_member"@, 4);
            lemma_mark(s, i, "type_member"@, 5);
        }
    } else {
        lemma_mark(s, i, "genfscon"@, 0);
    }
}

/// At most one grammar accepts at a position: where the grammar with number
/// `a` accepts, no other does, so the first success of the dispatcher is the
/// only one.
pub proof fn lemma_at_most_one_grammar_accepts(s: Seq<char>, i: int, a: int, b: int)
    requires
        accepts(s, i, a),
        accepts(s, i, b),
    ensures
        a == b,
{
    lemma_accepts_needs_keyword(s, i, a);
    lemma_accepts_needs_keyword(s, i, b);
    lemma_keyword_marks(s, i, a);
    lemma_keyword_marks(s, i, b);
}

/// The dispatcher yields what the one accepting grammar yields, and fails
/// where none accepts.
pub proof fn lemma_dispatch_follows_the_accepting_grammar(s: Seq<char>, i: int, n: int)
    ensures
        accepts(s, i, n) ==> spec_any_statement(s, i) == grammar(s, i, n),
        spec_any_statement(s, i) is None <==> forall|m: int| !accepts(s, i, m),
{
    if accepts(s, i, n) {
        assert forall|m: int| m != n implies !accepts(s, i, m) by {
            if accepts(s, i, m) {
                lemma_at_most_one_grammar_accepts(s, i, n, m);
            }
        }
        assert(!accepts(s, i, 0) || n == 0);
        assert(!accepts(s, i, 1) || n == 1);
        assert(!accepts(s, i, 2) || n == 2);
        assert(!accepts(s, i, 3) || n == 3);
        assert(!accepts(s, i, 4) || n == 4);
        assert(!accepts(s, i, 5) || n == 5);
        assert(!accepts(s, i, 6) || n == 6);
        assert(!accepts(s, i, 7) || n == 7);
    }
    if spec_any_statement(s, i) is None {
        assert forall|m: int| !accepts(s, i, m) by {}
    } else {
        assert(accepts(s, i, 0) || accepts(s, i, 1) || accepts(s, i, 2) || accepts(s, i, 3)
            || accepts(s, i, 4) || accepts(s, i, 5) || accepts(s, i, 6) || accepts(s, i, 7)
            || accepts(s, i, 8));
    }
}

} // verus!
