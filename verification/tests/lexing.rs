use sepolicy::chars::{is_blank, is_space};
use sepolicy::is_sepolicy_char;
use sepolicy::lex::{match_tag, parse_single_word, scan_word, skip_blanks, space1, spaced_word};
use sepolicy::object::{
    parse_bracket_objs, parse_seobj, parse_seobj_no_star, parse_single_obj, parse_star,
    split_whitespace,
};
use sepolicy::text::{make_string, to_chars};

fn l(xs: &[&str]) -> Vec<String> {
    xs.iter().map(|x| x.to_string()).collect()
}

#[test]
fn name_characters() {
    for c in ['a', 'z', 'A', 'Z', '0', '9', '_', '-', 'm', 'Q', '5'] {
        assert!(is_sepolicy_char(c));
    }
    for c in [' ', '\t', '*', '{', '}', ';', '#', '\n', '.', ':', '/', 'é', '٣', '`', '[', '@'] {
        assert!(!is_sepolicy_char(c));
    }
}

#[test]
fn character_classes_agree_with_std() {
    for n in 0u32..0x11000 {
        if let Some(c) = char::from_u32(n) {
            assert_eq!(is_space(c), c.is_whitespace());
            assert_eq!(is_blank(c), c == ' ' || c == '\t');
            assert_eq!(is_sepolicy_char(c), c.is_ascii_alphanumeric() || c == '_' || c == '-');
        }
    }
}

#[test]
fn to_chars_and_back() {
    let v = to_chars("aé*b");
    assert_eq!(v, vec!['a', 'é', '*', 'b']);
    assert_eq!(make_string(&v, 1, 3), "é*");
    assert_eq!(make_string(&v, 0, 4), "aé*b");
    assert_eq!(make_string(&v, 2, 2), "");
    assert!(to_chars("").is_empty());
}

#[test]
fn words_are_taken_whole() {
    let v = to_chars("ab_c-1 x");
    assert_eq!(scan_word(&v, 0), 6);
    assert_eq!(scan_word(&v, 6), 6);
    assert_eq!(parse_single_word(&v, 0), Some(("ab_c-1".to_string(), 6)));
    assert_eq!(parse_single_word(&v, 3), Some(("c-1".to_string(), 6)));
    assert_eq!(parse_single_word(&v, 6), None);
    assert_eq!(parse_single_word(&v, 7), Some(("x".to_string(), 8)));
    assert_eq!(parse_single_word(&v, 8), None);
}

#[test]
fn blanks_and_tags() {
    let v = to_chars("type \t x");
    assert_eq!(skip_blanks(&v, 4), 7);
    assert_eq!(skip_blanks(&v, 0), 0);
    assert_eq!(space1(&v, 4), Some(7));
    assert_eq!(space1(&v, 0), None);
    assert_eq!(space1(&v, 8), None);
    assert_eq!(match_tag(&v, 0, "type"), Some(4));
    assert_eq!(match_tag(&v, 0, "typo"), None);
    assert_eq!(match_tag(&v, 1, "ype"), Some(4));
    assert_eq!(match_tag(&v, 7, "xy"), None);
    assert_eq!(match_tag(&v, 8, ""), Some(8));
    assert_eq!(spaced_word(&v, 4), Some(("x".to_string(), 8)));
    assert_eq!(spaced_word(&v, 0), None);
    let v = to_chars("a\nb");
    assert_eq!(space1(&v, 1), None);
}

#[test]
fn object_list_notations() {
    let v = to_chars("abc {x  y} * {}");
    assert_eq!(parse_single_obj(&v, 0), Some((l(&["abc"]), 3)));
    assert_eq!(parse_single_obj(&v, 4), None);
    assert_eq!(parse_bracket_objs(&v, 4), Some((l(&["x", "y"]), 10)));
    assert_eq!(parse_bracket_objs(&v, 0), None);
    assert_eq!(parse_bracket_objs(&v, 13), None);
    assert_eq!(parse_star(&v, 11), Some((l(&["*"]), 12)));
    assert_eq!(parse_star(&v, 0), None);
    assert_eq!(parse_seobj(&v, 0), Some((l(&["abc"]), 3)));
    assert_eq!(parse_seobj(&v, 4), Some((l(&["x", "y"]), 10)));
    assert_eq!(parse_seobj(&v, 11), Some((l(&["*"]), 12)));
    assert_eq!(parse_seobj(&v, 3), None);
    assert_eq!(parse_seobj_no_star(&v, 0), Some((l(&["abc"]), 3)));
    assert_eq!(parse_seobj_no_star(&v, 4), Some((l(&["x", "y"]), 10)));
    assert_eq!(parse_seobj_no_star(&v, 11), None);
    assert_eq!(parse_seobj(&v, v.len()), None);
}

#[test]
fn split_whitespace_like_std() {
    for text in ["", " ", "a", " a ", "a b", "  ab\t\u{a0}c--d \n e ", "é x"] {
        let v = to_chars(text);
        let want: Vec<String> = text.split_whitespace().map(|x| x.to_string()).collect();
        assert_eq!(split_whitespace(&v, 0, v.len()), want);
    }
    let v = to_chars("ab cd ef");
    assert_eq!(split_whitespace(&v, 1, 7), l(&["b", "cd", "e"]));
}

#[test]
fn name_characters_agree_with_nom() {
    for n in 0u32..0x3100 {
        if let Some(c) = char::from_u32(n) {
            let want = nom::AsChar::is_alphanum(c) || c == '_' || c == '-';
            assert_eq!(is_sepolicy_char(c), want);
            assert_eq!(is_blank(c), nom::AsChar::is_space(c));
        }
    }
}

#[test]
fn scanning_agrees_with_nom() {
    for text in ["", "abc", "abc def", "  \t x", "a-b_c9{", " ", "\tq", "é", "*a"] {
        let v = to_chars(text);
        let word: nom::IResult<&str, &str> =
            nom::bytes::complete::take_while1(is_sepolicy_char)(text);
        match (parse_single_word(&v, 0), word) {
            (Some((w, e)), Ok((rest, taken))) => {
                assert_eq!(w, taken);
                assert_eq!(make_string(&v, e, v.len()), rest);
            }
            (None, Err(_)) => {}
            other => panic!("{:?}", other),
        }
        let blanks: nom::IResult<&str, &str> = nom::character::complete::space1(text);
        match (space1(&v, 0), blanks) {
            (Some(e), Ok((rest, _))) => assert_eq!(make_string(&v, e, v.len()), rest),
            (None, Err(_)) => {}
            other => panic!("{:?}", other),
        }
        let zero: nom::IResult<&str, &str> = nom::character::complete::space0(text);
        let (rest, _) = zero.unwrap();
        assert_eq!(make_string(&v, skip_blanks(&v, 0), v.len()), rest);
        let tag: nom::IResult<&str, &str> = nom::bytes::complete::tag("abc")(text);
        assert_eq!(match_tag(&v, 0, "abc").is_some(), tag.is_ok());
    }
}
