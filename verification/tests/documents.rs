use sepolicy::document::{parse_lines, trim};
use sepolicy::{check_rule, parse_sepolicy, NormalPerm, ParseError, PolicyStatement};

fn perm(op: &str, a: &str, b: &str, c: &str, d: &str) -> PolicyStatement {
    PolicyStatement::NormalPerm(NormalPerm::new(
        op.to_string(),
        vec![a.to_string()],
        vec![b.to_string()],
        vec![c.to_string()],
        vec![d.to_string()],
    ))
}

#[test]
fn comments_and_blank_lines_give_nothing() {
    for strict in [true, false] {
        assert_eq!(parse_sepolicy("", strict), Ok(vec![]));
        assert_eq!(parse_sepolicy("   \t ", strict), Ok(vec![]));
        assert_eq!(parse_sepolicy("# a comment", strict), Ok(vec![]));
        assert_eq!(parse_sepolicy("   # allow nothing here", strict), Ok(vec![]));
        assert_eq!(parse_sepolicy("\n\n#x\n  \n", strict), Ok(vec![]));
        assert_eq!(parse_sepolicy(";;;", strict), Ok(vec![]));
        assert_eq!(
            parse_sepolicy("# c\nallow a b c d\n\n  # d\n", strict),
            Ok(vec![perm("allow", "a", "b", "c", "d")])
        );
    }
}

#[test]
fn semicolon_separates_statements_on_one_line() {
    assert_eq!(
        parse_sepolicy("allow a b c d; allow e f g h", true),
        Ok(vec![perm("allow", "a", "b", "c", "d"), perm("allow", "e", "f", "g", "h")])
    );
    assert_eq!(
        parse_sepolicy("allow a b c d;deny e f g h;\ndontaudit i j k l;", true),
        Ok(vec![
            perm("allow", "a", "b", "c", "d"),
            perm("deny", "e", "f", "g", "h"),
            perm("dontaudit", "i", "j", "k", "l"),
        ])
    );
}

#[test]
fn comment_ends_at_a_semicolon() {
    assert_eq!(
        parse_sepolicy("# note; allow a b c d", true),
        Ok(vec![perm("allow", "a", "b", "c", "d")])
    );
}

#[test]
fn strict_reports_the_malformed_line() {
    let r = parse_sepolicy("allow a b c d\nbogus line here", true);
    assert_eq!(r, Err(ParseError { line: "bogus line here".to_string() }));
    let r = parse_sepolicy("allow a b c d\n  bogus \nalso bad\nallow e f g h", true);
    assert_eq!(r, Err(ParseError { line: "  bogus ".to_string() }));
}

#[test]
fn error_message_names_the_line() {
    let e = parse_sepolicy("nope", true).unwrap_err();
    assert_eq!(e.line, "nope");
    assert_eq!(e.message(), "Failed to parse policy statement: nope");
}

#[test]
fn lenient_drops_malformed_lines() {
    assert_eq!(
        parse_sepolicy("allow a b c d\nbogus\nallow e f g h\npermissive *", false),
        Ok(vec![perm("allow", "a", "b", "c", "d"), perm("allow", "e", "f", "g", "h")])
    );
    assert_eq!(parse_sepolicy("bogus", false), Ok(vec![]));
}

#[test]
fn strict_and_lenient_agree_on_well_formed_text() {
    let text = "allow a b c d\n# c\ntype t\n;attribute x";
    assert_eq!(parse_sepolicy(text, true), parse_sepolicy(text, false));
    assert_eq!(parse_sepolicy(text, true).unwrap().len(), 3);
}

#[test]
fn lines_are_trimmed_of_any_white_space() {
    assert_eq!(
        parse_sepolicy("\u{a0}\r allow a b c d \r\n\u{2003}allow e f g h\u{3000}", true),
        Ok(vec![perm("allow", "a", "b", "c", "d"), perm("allow", "e", "f", "g", "h")])
    );
}

#[test]
fn trim_cuts_both_ends() {
    let v: Vec<char> = " \t\n ab c \u{85}".chars().collect();
    assert_eq!(trim(&v), &['a', 'b', ' ', 'c'][..]);
    let v: Vec<char> = " \n ".chars().collect();
    assert!(trim(&v).is_empty());
    let v: Vec<char> = "xy".chars().collect();
    assert_eq!(trim(&v), &['x', 'y'][..]);
    assert!(trim(&[]).is_empty());
}

#[test]
fn parse_lines_reads_non_ascii_text() {
    let v: Vec<char> = "allow a b c d\nallow é b c d".chars().collect();
    assert_eq!(
        parse_lines(&v, true),
        Err(ParseError { line: "allow é b c d".to_string() })
    );
    assert_eq!(parse_lines(&v, false), Ok(vec![perm("allow", "a", "b", "c", "d")]));
}

#[test]
fn check_rule_accepts_well_formed_text() {
    assert_eq!(check_rule("allow domain self file read"), Ok(()));
    assert_eq!(check_rule("  \n allow a b c d; type t\n# c\n\n"), Ok(()));
    assert_eq!(check_rule(""), Ok(()));
    assert_eq!(check_rule("# only a comment"), Ok(()));
}

#[test]
fn check_rule_reports_the_first_malformed_line() {
    assert_eq!(
        check_rule("allow a b c d\npermissive *\nbogus"),
        Err(ParseError { line: "permissive *".to_string() })
    );
    assert_eq!(
        check_rule("  first bad \n second bad "),
        Err(ParseError { line: "first bad ".to_string() })
    );
}

#[test]
fn check_rule_twice_gives_the_same_verdict() {
    for text in ["allow a b c d", "bogus", "", "type t; permissive *"] {
        assert_eq!(check_rule(text), check_rule(text));
    }
}
