use flashcards::text::{dec_string, read_nonempty_lines, str_chars};

fn lines(xs: &[&str]) -> Vec<String> {
    xs.iter().map(|s| s.to_string()).collect()
}

#[test]
fn trimming_strips_edges_only() {
    let out = read_nonempty_lines(&lines(&["  a b  ", "\t x \t"]));
    assert_eq!(out, vec!["a b", "x"]);
}

#[test]
fn blank_lines_are_dropped() {
    let out = read_nonempty_lines(&lines(&["", "  ", "\t", "kept", ""]));
    assert_eq!(out, vec!["kept"]);
}

#[test]
fn unicode_whitespace_is_trimmed() {
    let out = read_nonempty_lines(&lines(&["\u{00A0}word\u{3000}", "\u{2003}\u{2003}"]));
    assert_eq!(out, vec!["word"]);
}

#[test]
fn clean_lines_pass_through_unchanged() {
    let input = lines(&["alpha", "beta gamma", "d"]);
    let out = read_nonempty_lines(&input);
    assert_eq!(out, input);
}

#[test]
fn decimal_rendering_is_exact() {
    assert_eq!(dec_string(0), "0");
    assert_eq!(dec_string(7), "7");
    assert_eq!(dec_string(10), "10");
    assert_eq!(dec_string(905), "905");
    assert_eq!(dec_string(usize::MAX), usize::MAX.to_string());
}

#[test]
fn str_chars_decodes_multibyte_text() {
    let cs = str_chars("héllo ✓");
    assert_eq!(cs, "héllo ✓".chars().collect::<Vec<char>>());
}
