use cosmic_paste::text::{
    chars_start_with, chars_to_string, collapse_chars, concat_str, is_control, is_whitespace, pad_chars,
    push_decimal, push_hex, str_chars, trim_chars, truncate_end_chars, truncate_middle_chars, ELLIPSIS,
};

fn chars(s: &str) -> Vec<char> {
    s.chars().collect()
}

fn string(v: &[char]) -> String {
    v.iter().collect()
}

#[test]
fn whitespace_and_control_agree_with_std_for_every_char() {
    for u in 0u32..=0x10FFFF {
        if let Some(c) = char::from_u32(u) {
            assert_eq!(is_whitespace(c), c.is_whitespace(), "whitespace mismatch at {u:#x}");
            assert_eq!(is_control(c), c.is_control(), "control mismatch at {u:#x}");
        }
    }
}

#[test]
fn chars_round_trip_through_string() {
    let text = "héllo, wörld …";
    let cs = str_chars(text);
    assert_eq!(cs, chars(text));
    assert_eq!(chars_to_string(&cs), text);
}

#[test]
fn collapse_joins_words_with_single_spaces() {
    let out = collapse_chars(&chars("  first\tline \n\n second   line  "));
    assert_eq!(string(&out), "first line second line");
    assert!(collapse_chars(&chars(" \t\n ")).is_empty());
}

#[test]
fn truncate_end_keeps_prefix_and_adds_ellipsis() {
    assert_eq!(string(&truncate_end_chars(&chars("abcdef"), 3)), "abc\u{2026}");
    assert_eq!(string(&truncate_end_chars(&chars("abc"), 3)), "abc");
    assert!(truncate_end_chars(&chars("abc"), 0).is_empty());
}

#[test]
fn truncate_middle_keeps_both_ends() {
    assert_eq!(string(&truncate_middle_chars(&chars("abcdefghijklmnopqrstuvwxyz"), 10)), "abcd\u{2026}vwxyz");
    assert_eq!(string(&truncate_middle_chars(&chars("abcdef"), 1)), ELLIPSIS.to_string());
    assert_eq!(string(&truncate_middle_chars(&chars("abc"), 5)), "abc");
    assert!(truncate_middle_chars(&chars("abc"), 0).is_empty());
}

#[test]
fn pad_extends_to_width_only_when_shorter() {
    assert_eq!(string(&pad_chars(&chars("ab"), 5, '.')), "ab...");
    assert_eq!(string(&pad_chars(&chars("abcdef"), 3, '.')), "abcdef");
}

#[test]
fn decimal_and_hex_formatting() {
    let mut out = chars("n=");
    push_decimal(&mut out, 0);
    push_decimal(&mut out, 18446744073709551615);
    assert_eq!(string(&out), "n=018446744073709551615");
    let mut hex = Vec::new();
    push_hex(&mut hex, &[0x00, 0x7f, 0xab, 0xff]);
    assert_eq!(string(&hex), "007fabff");
}

#[test]
fn trim_prefix_and_concat() {
    assert_eq!(string(&trim_chars(&chars(" \t spaced \n"))), "spaced");
    assert!(chars_start_with(&chars("foo bar"), &chars("foo")));
    assert!(!chars_start_with(&chars("fo"), &chars("foo")));
    assert_eq!(concat_str("invalid uuid: ", "x"), "invalid uuid: x");
}
