use sepolicy::{
    parse_sepolicy, Attr, GenFsCon, NormalPerm, PolicyStatement, Type, TypeAttr, TypeChange,
    TypeState, TypeTransition, XPerm,
};

fn s(x: &str) -> String {
    x.to_string()
}

fn l(xs: &[&str]) -> Vec<String> {
    xs.iter().map(|x| x.to_string()).collect()
}

fn chars(x: &str) -> Vec<char> {
    x.chars().collect()
}

fn one(text: &str) -> PolicyStatement {
    let v = parse_sepolicy(text, true).unwrap();
    assert_eq!(v.len(), 1);
    v[0].clone()
}

#[test]
fn allow_with_single_names() {
    assert_eq!(
        one("allow domain self file read"),
        PolicyStatement::NormalPerm(NormalPerm::new(
            s("allow"),
            l(&["domain"]),
            l(&["self"]),
            l(&["file"]),
            l(&["read"]),
        ))
    );
}

#[test]
fn allow_with_brace_lists() {
    assert_eq!(
        one("allow { domain1 domain2 } self file { read write }"),
        PolicyStatement::NormalPerm(NormalPerm::new(
            s("allow"),
            l(&["domain1", "domain2"]),
            l(&["self"]),
            l(&["file"]),
            l(&["read", "write"]),
        ))
    );
}

#[test]
fn allow_with_wildcards() {
    assert_eq!(
        one("allow * self file *"),
        PolicyStatement::NormalPerm(NormalPerm::new(
            s("allow"),
            l(&["*"]),
            l(&["self"]),
            l(&["file"]),
            l(&["*"]),
        ))
    );
}

#[test]
fn every_permission_keyword() {
    for op in ["allow", "deny", "auditallow", "dontaudit"] {
        let text = format!("{} a b c d", op);
        assert_eq!(
            one(&text),
            PolicyStatement::NormalPerm(NormalPerm::new(
                s(op),
                l(&["a"]),
                l(&["b"]),
                l(&["c"]),
                l(&["d"]),
            ))
        );
    }
}

#[test]
fn xperm_is_not_taken_for_allow() {
    for op in ["allowxperm", "auditallowxperm", "dontauditxperm"] {
        let text = format!("{} a {{ b c }} * ioctl 0x1234", op);
        assert_eq!(
            one(&text),
            PolicyStatement::XPerm(XPerm::new(
                s(op),
                l(&["a"]),
                l(&["b", "c"]),
                l(&["*"]),
                s("ioctl"),
                s("0x1234"),
            ))
        );
    }
}

#[test]
fn xperm_needs_both_names() {
    assert!(parse_sepolicy("allowxperm a b c ioctl", true).is_err());
    assert!(parse_sepolicy("allowxperm a b c ioctl *", true).is_err());
}

#[test]
fn type_with_attribute() {
    assert_eq!(
        one("type xxx_t domain"),
        PolicyStatement::Type(Type::new(s("xxx_t"), l(&["domain"])))
    );
    assert_eq!(
        one("type xxx_t { a b }"),
        PolicyStatement::Type(Type::new(s("xxx_t"), l(&["a", "b"])))
    );
    assert_eq!(
        one("type xxx_t other"),
        PolicyStatement::Type(Type::new(s("xxx_t"), l(&["other"])))
    );
}

#[test]
fn type_alone_defaults_to_domain() {
    assert_eq!(
        one("type xxx_t"),
        PolicyStatement::Type(Type::new(s("xxx_t"), l(&["domain"])))
    );
}

#[test]
fn type_transition_without_object_name() {
    assert_eq!(
        one("type_transition init_t tmpfs_t file init_tmpfs_t"),
        PolicyStatement::TypeTransition(TypeTransition::new(
            s("init_t"),
            s("tmpfs_t"),
            s("file"),
            s("init_tmpfs_t"),
            None,
        ))
    );
}

#[test]
fn type_transition_with_object_name() {
    assert_eq!(
        one("type_transition init_t tmpfs_t file init_tmpfs_t name-1"),
        PolicyStatement::TypeTransition(TypeTransition::new(
            s("init_t"),
            s("tmpfs_t"),
            s("file"),
            s("init_tmpfs_t"),
            Some(s("name-1")),
        ))
    );
    assert_eq!(
        one("name_transition a b c d e"),
        PolicyStatement::TypeTransition(TypeTransition::new(
            s("a"),
            s("b"),
            s("c"),
            s("d"),
            Some(s("e")),
        ))
    );
}

#[test]
fn permissive_rejects_wildcard() {
    assert!(parse_sepolicy("permissive *", true).is_err());
    assert!(parse_sepolicy("enforce *", true).is_err());
    assert_eq!(parse_sepolicy("permissive *", false).unwrap(), vec![]);
}

#[test]
fn permissive_and_enforce() {
    assert_eq!(
        one("permissive untrusted_app"),
        PolicyStatement::TypeState(TypeState::new(s("permissive"), l(&["untrusted_app"])))
    );
    assert_eq!(
        one("enforce { a b }"),
        PolicyStatement::TypeState(TypeState::new(s("enforce"), l(&["a", "b"])))
    );
}

#[test]
fn typeattribute_and_attradd() {
    assert_eq!(
        one("typeattribute { a b } mlstrustedsubject"),
        PolicyStatement::TypeAttr(TypeAttr::new(l(&["a", "b"]), l(&["mlstrustedsubject"])))
    );
    assert_eq!(
        one("attradd a { x y }"),
        PolicyStatement::TypeAttr(TypeAttr::new(l(&["a"]), l(&["x", "y"])))
    );
    assert!(parse_sepolicy("typeattribute * a", true).is_err());
    assert!(parse_sepolicy("typeattribute a *", true).is_err());
}

#[test]
fn attribute_declaration() {
    assert_eq!(one("attribute foo"), PolicyStatement::Attr(Attr::new(s("foo"))));
    assert!(parse_sepolicy("attribute", true).is_err());
    assert!(parse_sepolicy("attribute { a }", true).is_err());
}

#[test]
fn type_change_and_member() {
    assert_eq!(
        one("type_change a b c d"),
        PolicyStatement::TypeChange(TypeChange::new(
            s("type_change"),
            s("a"),
            s("b"),
            s("c"),
            s("d"),
        ))
    );
    assert_eq!(
        one("type_member a b c d"),
        PolicyStatement::TypeChange(TypeChange::new(
            s("type_member"),
            s("a"),
            s("b"),
            s("c"),
            s("d"),
        ))
    );
    assert!(parse_sepolicy("type_change a b c", true).is_err());
}

#[test]
fn genfscon_statement() {
    assert_eq!(
        one("genfscon proc cpuinfo u_object_r"),
        PolicyStatement::GenFsCon(GenFsCon::new(s("proc"), s("cpuinfo"), s("u_object_r")))
    );
    assert!(parse_sepolicy("genfscon proc /cpuinfo ctx", true).is_err());
}

#[test]
fn keyword_needs_a_separator() {
    assert!(parse_sepolicy("allow", true).is_err());
    assert!(parse_sepolicy("allow{a} b c d", true).is_err());
    assert!(parse_sepolicy("allowa b c d e", true).is_err());
    assert!(parse_sepolicy("typefoo", true).is_err());
    assert!(parse_sepolicy("allow a b c", true).is_err());
    assert!(parse_sepolicy("allow a{b} c d", true).is_err());
}

#[test]
fn tabs_separate_fields() {
    assert_eq!(
        one("allow\ta \t b\t\tc d"),
        PolicyStatement::NormalPerm(NormalPerm::new(
            s("allow"),
            l(&["a"]),
            l(&["b"]),
            l(&["c"]),
            l(&["d"]),
        ))
    );
}

#[test]
fn brace_list_bounds() {
    let inner_100 = format!("{}{}", "a".repeat(50), " ".repeat(50));
    let ok = format!("permissive {{{}}}", inner_100);
    assert_eq!(
        one(&ok),
        PolicyStatement::TypeState(TypeState::new(s("permissive"), vec!["a".repeat(50)]))
    );
    let too_long = format!("permissive {{{} }}", inner_100);
    assert!(parse_sepolicy(&too_long, true).is_err());
    assert!(parse_sepolicy("permissive {}", true).is_err());
    assert!(parse_sepolicy("permissive { }", true).is_err());
    assert!(parse_sepolicy("permissive { a", true).is_err());
    assert!(parse_sepolicy("permissive { a * }", true).is_err());
    assert_eq!(
        one("permissive {a}"),
        PolicyStatement::TypeState(TypeState::new(s("permissive"), l(&["a"])))
    );
}

#[test]
fn brace_list_splits_at_any_white_space() {
    assert_eq!(
        one("permissive {\u{a0}a\u{3000}b\tc }"),
        PolicyStatement::TypeState(TypeState::new(s("permissive"), l(&["a", "b", "c"])))
    );
}

#[test]
fn dispatcher_positions_and_trailing_semicolons() {
    let input = chars("  attribute foo ;; rest");
    let (st, end) = PolicyStatement::parse(&input, 0).unwrap();
    assert_eq!(st, PolicyStatement::Attr(Attr::new(s("foo"))));
    assert_eq!(end, 19);
    assert_eq!(input[end], 'r');
    let (st, end) = PolicyStatement::parse(&input, 1).unwrap();
    assert_eq!(st, PolicyStatement::Attr(Attr::new(s("foo"))));
    assert_eq!(end, 19);
    assert!(PolicyStatement::parse(&input, 3).is_none());
    assert!(PolicyStatement::parse(&input, input.len()).is_none());
}

#[test]
fn grammars_report_the_position_after_the_statement() {
    let input = chars("type a b c");
    let (st, end) = Type::parse(&input, 0).unwrap();
    assert_eq!(st, Type::new(s("a"), l(&["b"])));
    assert_eq!(end, 8);
    let input = chars("type a *");
    let (st, end) = Type::parse(&input, 0).unwrap();
    assert_eq!(st, Type::new(s("a"), l(&["domain"])));
    assert_eq!(end, 6);
    let input = chars("type_transition a b c d");
    assert!(Type::parse(&input, 0).is_none());
    assert!(TypeChange::parse(&input, 0).is_none());
    let (_, end) = TypeTransition::parse(&input, 0).unwrap();
    assert_eq!(end, input.len());
    let input = chars("xallow a b c d");
    assert!(NormalPerm::parse(&input, 0).is_none());
    let (_, end) = NormalPerm::parse(&input, 1).unwrap();
    assert_eq!(end, input.len());
    let input = chars("allowxperm a b c d e");
    assert!(NormalPerm::parse(&input, 0).is_none());
    assert!(XPerm::parse(&input, 0).is_some());
    let input = chars("attribute a");
    assert!(TypeAttr::parse(&input, 0).is_none());
    assert!(Attr::parse(&input, 0).is_some());
    assert!(GenFsCon::parse(&input, 0).is_none());
    assert!(TypeState::parse(&input, 0).is_none());
}

#[test]
fn text_after_a_statement_is_left_alone() {
    assert_eq!(
        one("attribute foo bar baz"),
        PolicyStatement::Attr(Attr::new(s("foo")))
    );
}

fn accepting_grammars(line: &str) -> usize {
    let v = chars(line);
    let hits = [
        NormalPerm::parse(&v, 0).is_some(),
        XPerm::parse(&v, 0).is_some(),
        TypeState::parse(&v, 0).is_some(),
        Type::parse(&v, 0).is_some(),
        TypeAttr::parse(&v, 0).is_some(),
        Attr::parse(&v, 0).is_some(),
        TypeTransition::parse(&v, 0).is_some(),
        TypeChange::parse(&v, 0).is_some(),
        GenFsCon::parse(&v, 0).is_some(),
    ];
    hits.iter().filter(|h| **h).count()
}

#[test]
fn at_most_one_grammar_accepts_a_line() {
    let lines = [
        "allow a b c d",
        "deny a b c d",
        "auditallow a b c d",
        "dontaudit a b c d",
        "allowxperm a b c d e",
        "auditallowxperm a b c d e",
        "dontauditxperm a b c d e",
        "permissive a",
        "enforce a",
        "type a",
        "type a b",
        "typeattribute a b",
        "attradd a b",
        "attribute a",
        "type_transition a b c d",
        "name_transition a b c d e",
        "type_change a b c d",
        "type_member a b c d",
        "genfscon a b c",
    ];
    for line in lines {
        assert_eq!(accepting_grammars(line), 1, "{}", line);
        let v = chars(line);
        assert!(PolicyStatement::parse(&v, 0).is_some());
    }
    for line in ["", "bogus", "type", "allowxperm a b c d", "type_transition a b c", "*"] {
        assert_eq!(accepting_grammars(line), 0, "{}", line);
        let v = chars(line);
        assert!(PolicyStatement::parse(&v, 0).is_none());
    }
}

#[test]
fn parsed_names_are_never_empty() {
    let text = "allow { a  b } * c {d}\ntype t\ntypeattribute {x y} z\nallowxperm a b c d e";
    for st in parse_sepolicy(text, true).unwrap() {
        let lists: Vec<Vec<String>> = match st {
            PolicyStatement::NormalPerm(p) => vec![p.source, p.target, p.class, p.perm],
            PolicyStatement::XPerm(p) => {
                assert!(!p.operation.is_empty() && !p.perm_set.is_empty());
                vec![p.source, p.target, p.class]
            }
            PolicyStatement::Type(t) => {
                assert!(!t.name.is_empty());
                vec![t.attrs]
            }
            PolicyStatement::TypeAttr(t) => vec![t.stype, t.sattr],
            _ => vec![],
        };
        for list in lists {
            assert!(!list.is_empty());
            for name in list {
                assert!(!name.is_empty());
                assert!(name == "*" || name.chars().all(sepolicy::is_sepolicy_char));
            }
        }
    }
}
