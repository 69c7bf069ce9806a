use subkernel::text::has_final_newline;
use subkernel::text::split_lines;

fn std_lines(text: &str) -> Vec<String> {
    text.lines().map(String::from).collect()
}

#[test]
fn final_newline() {
    assert!(!has_final_newline(""));
    assert!(has_final_newline("\n"));
    assert!(has_final_newline("a\n"));
    assert!(!has_final_newline("a\nb"));
    assert!(!has_final_newline("a\r"));
    assert!(!has_final_newline("caf\u{e9}"));
    assert!(has_final_newline("caf\u{e9}\n"));
}

#[test]
fn lines_of_a_text() {
    assert!(split_lines("").is_empty());
    assert_eq!(split_lines("\n"), vec![""]);
    assert_eq!(split_lines("a"), vec!["a"]);
    assert_eq!(split_lines("a\n"), vec!["a"]);
    assert_eq!(split_lines("a\nb"), vec!["a", "b"]);
    assert_eq!(split_lines("a\r\nb\n"), vec!["a", "b"]);
    assert_eq!(split_lines("a\r\r\nb\n"), vec!["a\r", "b"]);
    assert_eq!(split_lines("\r\n"), vec![""]);
    assert_eq!(split_lines("a\n\nb\n"), vec!["a", "", "b"]);
    assert_eq!(split_lines("a\rb\n"), vec!["a\rb"]);
    assert_eq!(split_lines("\u{e9}\u{4e2d}\n\u{1f600}\r\n"), vec!["\u{e9}\u{4e2d}", "\u{1f600}"]);
}

#[test]
fn lines_agree_with_the_standard_library_on_terminated_text() {
    for text in ["\n", "a\n", "a\r\n", "a\n\r\n\n", "x\ry\n", "one\ntwo\r\nthree\n", "\r\r\n"] {
        assert_eq!(split_lines(text), std_lines(text));
    }
}
