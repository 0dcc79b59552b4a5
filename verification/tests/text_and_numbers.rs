use c9watch::number::{decimal, parse_u32};
use c9watch::text::{last_segment, split, trim, trim_end_matches};

#[test]
fn parse_matches_std() {
    for s in ["0", "42", "+7", "+", "", "-1", " 1", "4294967295", "4294967296", "99999999999", "007", "12a"] {
        assert_eq!(parse_u32(s), s.parse::<u32>().ok(), "input {:?}", s);
    }
}

#[test]
fn decimal_matches_to_string_and_parses_back() {
    for n in [0u32, 9, 10, 99, 100, 12345, u32::MAX] {
        assert_eq!(decimal(n), n.to_string());
        assert_eq!(parse_u32(&decimal(n)), Some(n));
    }
}

#[test]
fn trim_matches_std() {
    for s in ["  a b \n", "\u{3000}x\u{85}", "", " \t\r\n", "plain", "\u{200B}z"] {
        assert_eq!(trim(s), s.trim(), "input {:?}", s);
        assert_eq!(trim(trim(s)), trim(s));
    }
}

#[test]
fn split_matches_std() {
    for s in ["a,b,,c", "", ",", "abc", "a,"] {
        assert_eq!(split(s, ','), s.split(',').collect::<Vec<_>>());
    }
}

#[test]
fn last_segment_matches_rsplit() {
    for s in ["/usr/bin/zed", "zed", "/", "a/", "/a/b/c"] {
        assert_eq!(last_segment(s, '/'), s.rsplit('/').next().unwrap());
    }
}

#[test]
fn trim_end_matches_repeats() {
    assert_eq!(trim_end_matches("Code.exe", ".exe"), "Code");
    assert_eq!(trim_end_matches("a.exe.exe", ".exe"), "a");
    assert_eq!(trim_end_matches(".exe", ".exe"), "");
    assert_eq!(trim_end_matches("x.EXE", ".exe"), "x.EXE");
}
