use logid::layout::{entry_id_string, replace_first_exec, spaces_exec, split_lines};

fn chars(s: &str) -> Vec<char> {
    s.chars().collect()
}

fn text(v: &[char]) -> String {
    v.iter().collect()
}

#[test]
fn lines_like_str_lines() {
    for s in ["", "a", "a\n", "a\nb", "a\r\nb\r\n", "\n", "a\n\nb", "x\r", "\r\n\r\n"] {
        let got: Vec<String> = split_lines(&chars(s)).iter().map(|l| text(l)).collect();
        let expected: Vec<String> = s.lines().map(|l| l.to_string()).collect();
        assert_eq!(got, expected, "lines of {:?}", s);
    }
}

#[test]
fn replace_first_like_replacen() {
    for (s, pat, with) in [
        ("a-b-c", "-", "+"),
        ("abc", "x", "y"),
        ("abc", "", "X"),
        ("├───> x ├", "├", "╰"),
        ("aaa", "aa", "b"),
        ("", "a", "b"),
    ] {
        let got = text(&replace_first_exec(&chars(s), &chars(pat), &chars(with)));
        assert_eq!(got, s.replacen(pat, with, 1));
    }
}

#[test]
fn spaces_of_length() {
    assert_eq!(text(&spaces_exec(3)), "   ");
    assert_eq!(text(&spaces_exec(0)), "");
}

#[test]
fn entry_id_as_hyphenated_hex() {
    assert_eq!(
        text(&entry_id_string(0x0123_4567_89ab_cdef_0011_2233_4455_6677)),
        "01234567-89ab-cdef-0011-223344556677"
    );
    assert_eq!(text(&entry_id_string(0)), "00000000-0000-0000-0000-000000000000");
    assert_eq!(text(&entry_id_string(u128::MAX)), "ffffffff-ffff-ffff-ffff-ffffffffffff");
}
