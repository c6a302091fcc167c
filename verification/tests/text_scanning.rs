use print_core::text::{
    chars_of, has_prefix, has_substring, is_whitespace_char, matches_at, push_chars,
    replace_char, same_chars, split_after_first, split_lines, split_second_field, split_tokens,
    string_of,
    trim_class, CharClass,
};

fn chars(s: &str) -> Vec<char> {
    s.chars().collect()
}

fn strings(rows: Vec<Vec<char>>) -> Vec<String> {
    rows.iter().map(|row| row.iter().collect()).collect()
}

const SAMPLES: [&str; 24] = [
    "",
    "\n",
    "\r\n",
    "\r",
    "a",
    "a\n",
    "a\r\n",
    "a\r",
    "a\n\nb",
    "a\r\n\r\nb\r\n",
    "a\n\rb",
    "a\r\r\nb",
    "  leading and trailing  ",
    "printer HP_LaserJet is idle.  enabled since Mon\nprinter Canon_G3000 disabled\n",
    "system default destination: Canon_G3000\n",
    "\t tab\u{a0}and\u{3000}wide \u{2003}spaces\u{85}",
    "one",
    " one two  three\tfour\nfive ",
    "a:b:c",
    ":",
    "::",
    "no separator",
    "trailing:",
    "é\u{200b}x y",
];

#[test]
fn chars_and_strings_convert_both_ways() {
    for sample in SAMPLES {
        let v = chars_of(sample);
        assert_eq!(v, chars(sample));
        assert_eq!(string_of(&v), sample);
    }
    let mut out = String::from("ab");
    push_chars(&mut out, &chars("cd"));
    assert_eq!(out, "abcd");
}

#[test]
fn white_space_is_that_of_the_standard_library() {
    let mut code: u32 = 0;
    while code <= 0x10FFFF {
        if let Some(c) = char::from_u32(code) {
            assert_eq!(is_whitespace_char(c), c.is_whitespace(), "U+{:04X}", code);
        }
        code += 1;
    }
}

#[test]
fn lines_are_those_of_the_standard_library() {
    for sample in SAMPLES {
        let expected: Vec<String> = sample.lines().map(|l| l.to_string()).collect();
        assert_eq!(strings(split_lines(&chars(sample))), expected, "{:?}", sample);
    }
}

#[test]
fn lines_keep_a_lone_carriage_return() {
    assert_eq!(strings(split_lines(&chars("a\r"))), vec!["a\r".to_string()]);
    assert_eq!(strings(split_lines(&chars("a\r\nb"))), vec!["a".to_string(), "b".to_string()]);
    assert_eq!(strings(split_lines(&chars("\n"))), vec!["".to_string()]);
    assert!(split_lines(&chars("")).is_empty());
}

#[test]
fn tokens_are_those_of_the_standard_library() {
    for sample in SAMPLES {
        let expected: Vec<String> = sample.split_whitespace().map(|w| w.to_string()).collect();
        assert_eq!(strings(split_tokens(&chars(sample))), expected, "{:?}", sample);
    }
}

#[test]
fn tokens_of_blank_text_are_none() {
    assert!(split_tokens(&chars("")).is_empty());
    assert!(split_tokens(&chars(" \t\n ")).is_empty());
    assert_eq!(strings(split_tokens(&chars(" a  bc "))), vec!["a".to_string(), "bc".to_string()]);
}

#[test]
fn trimming_is_that_of_the_standard_library() {
    for sample in SAMPLES {
        let v = chars(sample);
        assert_eq!(string_of(&trim_class(&v, CharClass::Whitespace)), sample.trim());
        assert_eq!(string_of(&trim_class(&v, CharClass::Only(':'))), sample.trim_matches(':'));
        assert_eq!(string_of(&trim_class(&v, CharClass::Only('a'))), sample.trim_matches('a'));
    }
    assert_eq!(string_of(&trim_class(&chars(",,\"HP\",,"), CharClass::Only(','))), "\"HP\"");
    assert_eq!(string_of(&trim_class(&chars("\"\""), CharClass::Only('"'))), "");
}

#[test]
fn second_field_is_the_second_piece_of_a_split() {
    for sample in SAMPLES {
        let expected: Option<String> = sample.split(':').nth(1).map(|f| f.to_string());
        let found = split_second_field(&chars(sample), ':').map(|f| string_of(&f));
        assert_eq!(found, expected, "{:?}", sample);
    }
    assert_eq!(split_second_field(&chars("a:b:c"), ':').map(|f| string_of(&f)), Some("b".to_string()));
    assert_eq!(split_second_field(&chars("abc"), ':'), None);
    assert_eq!(split_second_field(&chars("abc:"), ':'), Some(Vec::new()));
}

#[test]
fn the_rest_after_a_separator_is_that_of_a_split_in_two() {
    for sample in SAMPLES {
        let expected: Option<String> = sample.split_once(':').map(|(_, rest)| rest.to_string());
        let found = split_after_first(&chars(sample), ':').map(|f| string_of(&f));
        assert_eq!(found, expected, "{:?}", sample);
    }
    assert_eq!(split_after_first(&chars("a:b:c"), ':').map(|f| string_of(&f)), Some("b:c".to_string()));
    assert_eq!(split_after_first(&chars("abc"), ':'), None);
    assert_eq!(split_after_first(&chars("abc:"), ':'), Some(Vec::new()));
    assert_eq!(split_after_first(&chars(":"), ':'), Some(Vec::new()));
}

#[test]
fn search_is_that_of_the_standard_library() {
    let patterns = ["", "a", "printer ", "default destination:", "\n", "b\r", "::", "two  three"];
    for sample in SAMPLES {
        for pattern in patterns {
            let v = chars(sample);
            let p = chars(pattern);
            assert_eq!(has_prefix(&v, &p), sample.starts_with(pattern), "{:?} {:?}", sample, pattern);
            assert_eq!(has_substring(&v, &p), sample.contains(pattern), "{:?} {:?}", sample, pattern);
        }
    }
}

#[test]
fn a_pattern_matches_only_where_it_stands() {
    let v = chars("abcabc");
    assert!(matches_at(&v, &chars("bc"), 1));
    assert!(matches_at(&v, &chars("bc"), 4));
    assert!(!matches_at(&v, &chars("bc"), 0));
    assert!(!matches_at(&v, &chars("bc"), 5));
    assert!(!matches_at(&v, &chars("bc"), 7));
    assert!(matches_at(&v, &chars(""), 6));
    assert!(!matches_at(&v, &chars(""), 7));
    assert!(same_chars(&v, &chars("abcabc")));
    assert!(!same_chars(&v, &chars("abcab")));
    assert!(!same_chars(&v, &chars("abcabd")));
}

#[test]
fn replacing_turns_every_occurrence() {
    assert_eq!(string_of(&replace_char(&chars("HP_Laser_Jet_"), '_', ' ')), "HP Laser Jet ");
    assert_eq!(string_of(&replace_char(&chars("plain"), '_', ' ')), "plain");
    for sample in SAMPLES {
        assert_eq!(string_of(&replace_char(&chars(sample), 'a', "b".chars().next().unwrap())), sample.replace('a', "b"));
    }
}
