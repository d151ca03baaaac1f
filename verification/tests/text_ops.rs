use commander::text::{
    field_of, find_char, first_line, second_ws_token, split_lines, str_contains, str_eq,
    str_starts_with, trim_spaces,
};

#[test]
fn contains_finds_inner_substring() {
    assert!(str_contains("suricata_ids", "_ids"));
    assert!(str_contains("abc", ""));
    assert!(!str_contains("suricata", "snort"));
    assert!(!str_contains("", "a"));
    assert!(str_contains("aaab", "aab"));
}

#[test]
fn starts_with_checks_prefix_only() {
    assert!(str_starts_with("level3_moderate.rules", "level3"));
    assert!(!str_starts_with("level3_moderate.rules", "level4"));
    assert!(!str_starts_with("lev", "level"));
    assert!(str_starts_with("anything", ""));
}

#[test]
fn string_equality_is_exact() {
    assert!(str_eq("snort", "snort"));
    assert!(!str_eq("snort", "snort "));
    assert!(!str_eq("snort", "Snort"));
    assert!(str_eq("", ""));
}

#[test]
fn find_char_returns_first_hit_or_length() {
    assert_eq!(find_char("a\tb\tc", '\t'), 1);
    assert_eq!(find_char("abc", '\t'), 3);
    assert_eq!(find_char("", 'x'), 0);
}

#[test]
fn fields_split_at_separator() {
    let line = "name\tUp 2 hours\timage:tag\tabcdef";
    assert_eq!(field_of(line, '\t', 0).0, "name");
    assert_eq!(field_of(line, '\t', 1).0, "Up 2 hours");
    assert_eq!(field_of(line, '\t', 2).0, "image:tag");
    assert_eq!(field_of(line, '\t', 3).0, "abcdef");
    assert_eq!(field_of(line, '\t', 4), ("", false));
    assert_eq!(field_of("lone", '\t', 1), ("", false));
    assert_eq!(field_of("a\t\tb", '\t', 1), ("", true));
}

#[test]
fn trim_removes_edges_only() {
    assert_eq!(trim_spaces("  br-abc \t"), "br-abc");
    assert_eq!(trim_spaces("plain"), "plain");
    assert_eq!(trim_spaces("   "), "");
    assert_eq!(trim_spaces(""), "");
    assert_eq!(trim_spaces(" a b "), "a b");
}

#[test]
fn first_line_stops_at_line_feed() {
    assert_eq!(first_line("# Level 3 - Moderate\nalert tcp any"), "# Level 3 - Moderate");
    assert_eq!(first_line("# Level 3 - Moderate\r\nalert tcp any"), "# Level 3 - Moderate");
    assert_eq!(first_line("single line"), "single line");
    assert_eq!(first_line(""), "");
    assert_eq!(first_line("\nsecond"), "");
}

#[test]
fn split_lines_matches_line_semantics() {
    let text = "one\ntwo\r\nthree";
    assert_eq!(split_lines(text), vec!["one", "two", "three"]);
    assert_eq!(split_lines("ends\n"), vec!["ends"]);
    assert_eq!(split_lines(""), Vec::<String>::new());
    assert_eq!(split_lines("\n\n"), vec!["", ""]);
}

#[test]
fn second_token_skips_leading_blanks() {
    assert_eq!(second_ws_token("    inet 172.28.0.1/24 brd 172.28.0.255"), Some("172.28.0.1/24"));
    assert_eq!(second_ws_token("inet"), None);
    assert_eq!(second_ws_token(""), None);
    assert_eq!(second_ws_token("  a   b  "), Some("b"));
}
