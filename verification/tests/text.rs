use morseus::text::{append, chars_of, is_whitespace, split_on, split_whitespace, string_of, trim};

fn chars(s: &str) -> Vec<char> {
    s.chars().collect()
}

fn strings(parts: Vec<Vec<char>>) -> Vec<String> {
    parts.into_iter().map(|p| p.into_iter().collect()).collect()
}

#[test]
fn chars_of_and_string_of_are_inverse() {
    for s in ["", "SOS", "... --- ...", "héllo wörld", "\u{1F600}\t"].iter() {
        assert_eq!(chars_of(s), chars(s));
        assert_eq!(string_of(&chars_of(s)), *s);
    }
}

#[test]
fn string_of_keeps_the_order() {
    assert_eq!(string_of(&vec!['a', 'b', 'c']), "abc");
    assert_eq!(string_of(&vec![]), "");
}

#[test]
fn is_whitespace_agrees_with_unicode() {
    let mut count = 0;
    for n in 0..=0x10ffffu32 {
        if let Some(c) = char::from_u32(n) {
            assert_eq!(is_whitespace(c), c.is_whitespace());
            if is_whitespace(c) {
                count += 1;
            }
        }
    }
    assert_eq!(count, 25);
}

#[test]
fn trim_removes_white_space_at_both_ends() {
    assert_eq!(trim(&chars("  .- -...  ")), chars(".- -..."));
    assert_eq!(trim(&chars("\t\n A B \u{3000}")), chars("A B"));
    assert_eq!(trim(&chars("A")), chars("A"));
    assert_eq!(trim(&chars("")), chars(""));
    assert_eq!(trim(&chars("   ")), chars(""));
}

#[test]
fn trim_agrees_with_str_trim() {
    for s in ["", " ", "a", " a", "a ", " a b ", "\u{a0}x\u{2003}", "\r\n", " . - / "].iter() {
        assert_eq!(string_of(&trim(&chars(s))), s.trim());
    }
}

#[test]
fn split_on_gives_one_piece_more_than_separators() {
    assert_eq!(strings(split_on(&chars("a/b"), '/')), vec!["a", "b"]);
    assert_eq!(strings(split_on(&chars(""), '/')), vec![""]);
    assert_eq!(strings(split_on(&chars("/"), '/')), vec!["", ""]);
    assert_eq!(strings(split_on(&chars("a//b/"), '/')), vec!["a", "", "b", ""]);
    assert_eq!(strings(split_on(&chars("abc"), '/')), vec!["abc"]);
}

#[test]
fn split_on_agrees_with_str_split() {
    for s in ["", " ", "a b", "  a  b  ", "HELLO WORLD ... --- ...", "a/b c"].iter() {
        let expected: Vec<String> = s.split(' ').map(|p| p.to_string()).collect();
        assert_eq!(strings(split_on(&chars(s), ' ')), expected);
        let expected: Vec<String> = s.split("/").map(|p| p.to_string()).collect();
        assert_eq!(strings(split_on(&chars(s), '/')), expected);
    }
}

#[test]
fn split_whitespace_gives_the_tokens() {
    assert_eq!(strings(split_whitespace(&chars(" .-  -...\t-.-. "))), vec![".-", "-...", "-.-."]);
    assert_eq!(strings(split_whitespace(&chars(""))), Vec::<String>::new());
    assert_eq!(strings(split_whitespace(&chars(" \n "))), Vec::<String>::new());
    assert_eq!(strings(split_whitespace(&chars("x"))), vec!["x"]);
}

#[test]
fn split_whitespace_agrees_with_str_split_whitespace() {
    for s in ["", " ", "a b", "  a  b  ", "a\u{2028}b\u{85}c", "... --- ...", "\ta"].iter() {
        let expected: Vec<String> = s.split_whitespace().map(|p| p.to_string()).collect();
        assert_eq!(strings(split_whitespace(&chars(s))), expected);
    }
}

#[test]
fn append_adds_at_the_end() {
    let mut out = chars("ab");
    append(&mut out, &chars("cd"));
    assert_eq!(out, chars("abcd"));
    append(&mut out, &chars(""));
    assert_eq!(out, chars("abcd"));
}
