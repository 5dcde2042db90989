use completion_chat::format::{
    byte_len_capped, decimal, is_space, justify_string, render_reply, split_words, trim_start,
    wrap, WIDTH,
};

fn normalized(s: &str) -> String {
    s.split_whitespace().collect::<Vec<&str>>().join(" ")
}

#[test]
fn justify_short_text_is_normalized() {
    assert_eq!(justify_string("  Hello   world\n\tagain  "), "Hello world again");
}

#[test]
fn justify_empty_and_blank() {
    assert_eq!(justify_string(""), "");
    assert_eq!(justify_string(" \n\t "), "");
}

#[test]
fn justify_wraps_at_eighty_columns() {
    let text = "The quick brown fox jumps over the lazy dog. ".repeat(4);
    let expected = "The quick brown fox jumps over the lazy dog. The quick brown fox jumps over the\n\
                    lazy dog. The quick brown fox jumps over the lazy dog. The quick brown fox jumps\n\
                    over the lazy dog.";
    assert_eq!(justify_string(&text), expected);
}

#[test]
fn wrap_to_a_narrow_width() {
    assert_eq!(wrap("one two three four five six", 10), "one two\nthree four\nfive six");
}

#[test]
fn wrap_width_zero_puts_each_word_on_its_line() {
    assert_eq!(wrap("a bc d", 0), "a\nbc\nd");
}

#[test]
fn long_word_stands_alone() {
    let long = "x".repeat(85);
    let text = format!("tiny {} end", long);
    assert_eq!(justify_string(&text), format!("tiny\n{}\nend", long));
}

#[test]
fn long_first_word_gets_no_leading_newline() {
    let long = "y".repeat(80);
    let text = format!("{} z", long);
    assert_eq!(justify_string(&text), format!("{}\nz", long));
}

#[test]
fn width_counts_utf8_bytes() {
    let forty = "é".repeat(40);
    assert_eq!(justify_string(&format!("{} a", forty)), format!("{}\na", forty));
    let thirty_nine = "é".repeat(39);
    assert_eq!(justify_string(&format!("{} a", thirty_nine)), format!("{} a", thirty_nine));
}

#[test]
fn exactly_eighty_bytes_fit_on_a_line() {
    let a = "a".repeat(39);
    let b = "b".repeat(40);
    let text = format!("{} {}", a, b);
    assert_eq!(justify_string(&text), text);
    let c = "c".repeat(41);
    assert_eq!(justify_string(&format!("{} {}", a, c)), format!("{}\n{}", a, c));
}

#[test]
fn wrapping_only_turns_separators_into_newlines() {
    let text = "  Lorem ipsum dolor sit amet,\tconsectetur adipiscing elit, sed do eiusmod tempor \
                incididunt ut labore et dolore magna aliqua. Ut enim ad minim veniam, quis nostrud \
                exercitation ullamco laboris nisi ut aliquip ex ea commodo consequat.\n";
    for width in [0usize, 5, 17, 80, 200] {
        let wrapped = wrap(text, width);
        assert_eq!(wrapped.replace('\n', " "), normalized(text));
    }
}

#[test]
fn wrapped_lines_fit_unless_a_single_word() {
    let text = format!(
        "short words then {} and more short words that go on and on for a while longer",
        "w".repeat(30)
    );
    for width in [10usize, 20, 40, 80] {
        for line in wrap(&text, width).split('\n') {
            assert!(line.len() <= width || !line.contains(' '), "line {:?}", line);
        }
    }
}

#[test]
fn render_reply_splits_lines_then_wraps() {
    assert_eq!(render_reply(" there!"), vec!["there!".to_string()]);
    assert_eq!(render_reply("a\nb\n"), vec!["a".to_string(), "b".to_string()]);
    assert_eq!(
        render_reply("a\n\n  b  c"),
        vec!["a".to_string(), "".to_string(), "b c".to_string()]
    );
    assert_eq!(render_reply(""), Vec::<String>::new());
    assert_eq!(render_reply("\n"), vec!["".to_string()]);
}

#[test]
fn render_reply_wraps_each_line() {
    let long = "word ".repeat(20);
    let lines = render_reply(&format!("{}\nend", long));
    assert_eq!(lines.len(), 2);
    assert_eq!(lines[0], justify_string(&long));
    assert!(lines[0].contains('\n'));
    assert_eq!(lines[1], "end");
}

#[test]
fn split_words_on_unicode_whitespace() {
    assert_eq!(
        split_words("\u{3000}a\u{00A0}b  c\u{2028}"),
        vec!["a".to_string(), "b".to_string(), "c".to_string()]
    );
    assert!(split_words("").is_empty());
}

#[test]
fn space_test_matches_std() {
    for u in 0u32..0x3100 {
        if let Some(c) = char::from_u32(u) {
            assert_eq!(is_space(c), c.is_whitespace(), "{:#x}", u);
        }
    }
}

#[test]
fn byte_len_is_capped() {
    assert_eq!(byte_len_capped("héllo", 100), 6);
    assert_eq!(byte_len_capped("héllo", 3), 3);
    assert_eq!(byte_len_capped("\u{1F600}", 10), 4);
    assert_eq!(byte_len_capped("", 10), 0);
}

#[test]
fn trim_start_drops_leading_whitespace() {
    assert_eq!(trim_start("  \n there! "), "there! ");
    assert_eq!(trim_start("   "), "");
    assert_eq!(trim_start("x"), "x");
}

#[test]
fn decimal_digits() {
    assert_eq!(decimal(0), "0");
    assert_eq!(decimal(7), "7");
    assert_eq!(decimal(2000), "2000");
    assert_eq!(decimal(u64::MAX), u64::MAX.to_string());
}

#[test]
fn width_is_eighty() {
    assert_eq!(WIDTH, 80);
}
