use cargo_nuttx::text::{decimal_string, join_with, split_on, terminate_lines};

#[test]
fn decimal_string_renders_like_display() {
    assert_eq!(decimal_string(0), "0");
    assert_eq!(decimal_string(7), "7");
    assert_eq!(decimal_string(10), "10");
    assert_eq!(decimal_string(100), "100");
    assert_eq!(decimal_string(255), "255");
    assert_eq!(decimal_string(16384), "16384");
    assert_eq!(decimal_string(u32::MAX as u64), "4294967295");
    assert_eq!(decimal_string(u64::MAX), u64::MAX.to_string());
}

#[test]
fn split_on_matches_str_split() {
    for s in ["", " ", "a", "a b", "a b  c", " -C x ", "-Clink-arg=-T a.ld -Cpanic=abort"] {
        let expected: Vec<String> = s.split(" ").map(|p| p.to_string()).collect();
        assert_eq!(split_on(s, ' '), expected, "splitting {:?}", s);
    }
    assert_eq!(split_on("a:b::c", ':'), vec!["a", "b", "", "c"]);
    assert_eq!(split_on("über straße", ' '), vec!["über", "straße"]);
}

#[test]
fn join_with_matches_slice_join() {
    let pieces: Vec<String> = vec!["/n/include".to_string(), "/n/include/arch".to_string()];
    assert_eq!(join_with(&pieces, ":"), "/n/include:/n/include/arch");
    assert_eq!(join_with(&Vec::new(), ":"), "");
    assert_eq!(join_with(&vec!["one".to_string()], ", "), "one");
    assert_eq!(join_with(&vec!["a".to_string(), "".to_string(), "b".to_string()], " "), "a  b");
}

#[test]
fn join_of_split_gives_the_string_back() {
    for s in ["", " ", "  ", "-C opt-level=s", " lead and trail ", "x"] {
        assert_eq!(join_with(&split_on(s, ' '), " "), s);
    }
}

#[test]
fn split_pieces_hold_no_separator() {
    for piece in split_on(" a  bb c ", ' ') {
        assert!(!piece.contains(' '));
    }
}

#[test]
fn terminate_lines_adds_a_missing_line_break() {
    assert_eq!(terminate_lines(""), "");
    assert_eq!(terminate_lines("X=1"), "X=1\n");
    assert_eq!(terminate_lines("X=1\n"), "X=1\n");
    assert_eq!(terminate_lines("X=1\nY=2"), "X=1\nY=2\n");
    assert_eq!(terminate_lines("\n"), "\n");
}
