use tuimux::text::{
    chars_of, concat3, contains_chars, decimal_string, is_blank, is_whitespace_char,
    split_chars, splitn_chars, string_of, trim_end_string, trimmed_string,
};
use tuimux::tmux::parse::{
    clean_capture, first_nonblank_line, listing_has_line, parse_session_listing,
    parse_session_names, parse_window_string, parse_windows,
};

fn chars(s: &str) -> Vec<char> {
    chars_of(s)
}

fn pieces(v: Vec<Vec<char>>) -> Vec<String> {
    v.iter().map(|p| string_of(p)).collect()
}

#[test]
fn decimal_string_writes_digits() {
    assert_eq!(decimal_string(0), "0");
    assert_eq!(decimal_string(7), "7");
    assert_eq!(decimal_string(10), "10");
    assert_eq!(decimal_string(4096), "4096");
    assert_eq!(decimal_string(usize::MAX), usize::MAX.to_string());
}

#[test]
fn concatenation_joins_in_order() {
    assert_eq!(tuimux::text::concat("ab", "cd"), "abcd");
    assert_eq!(concat3("a", "", "c"), "ac");
    assert_eq!(concat3("one ", "two ", "three"), "one two three");
}

#[test]
fn trimming_follows_str_trim() {
    assert_eq!(trimmed_string(&chars("  main \t\n")), "main");
    assert_eq!(trimmed_string(&chars("\u{a0}x\u{3000}")), "x");
    assert_eq!(trim_end_string(&chars("  keep front  \n")), "  keep front");
    assert!(is_blank(&chars(" \t\r\n")));
    assert!(is_blank(&chars("")));
    assert!(!is_blank(&chars(" a ")));
    for c in [' ', '\t', '\n', '\u{85}', '\u{2028}', '\u{3000}', 'a', '_'] {
        assert_eq!(is_whitespace_char(c), c.is_whitespace());
    }
}

#[test]
fn substring_search() {
    assert!(contains_chars(&chars("dev-server"), &chars("serv")));
    assert!(contains_chars(&chars("abc"), &chars("")));
    assert!(!contains_chars(&chars("abc"), &chars("abcd")));
    assert!(!contains_chars(&chars("abc"), &chars("ca")));
}

#[test]
fn splitting_matches_str_split() {
    let text = "a\u{1f}b\u{1f}\u{1f}c";
    let got = pieces(split_chars(&chars(text), '\u{1f}'));
    let want: Vec<String> = text.split('\u{1f}').map(str::to_string).collect();
    assert_eq!(got, want);
    assert_eq!(pieces(split_chars(&chars(""), '\n')), vec![String::new()]);

    let got = pieces(splitn_chars(&chars("1\u{1f}two\u{1f}lay\u{1f}/p\u{1f}q"), 4, '\u{1f}'));
    assert_eq!(got, vec!["1", "two", "lay", "/p\u{1f}q"]);
    let got = pieces(splitn_chars(&chars("x"), 4, '\u{1f}'));
    assert_eq!(got, vec!["x"]);
}

#[test]
fn window_string_with_four_fields() {
    let w = parse_window_string("3\u{1f}editor\u{1f}b25d,80x24,0,0\u{1f}/home/me/src").unwrap();
    assert_eq!(w.index, "3");
    assert_eq!(w.name, "editor");
    assert_eq!(w.layout, "b25d,80x24,0,0");
    assert_eq!(w.active_pane_path, "/home/me/src");
    assert_eq!(w.activity, 0);
}

#[test]
fn window_string_keeps_extra_separators_in_the_path() {
    let w = parse_window_string("1\u{1f}a\u{1f}l\u{1f}/x\u{1f}y").unwrap();
    assert_eq!(w.active_pane_path, "/x\u{1f}y");
}

#[test]
fn window_string_with_too_few_fields_is_an_error() {
    let e = parse_window_string("1\u{1f}a\u{1f}l").unwrap_err();
    assert_eq!(e, "Failed to parse window string: 1\u{1f}a\u{1f}l");
}

#[test]
fn window_listing_skips_blank_lines() {
    let text = "0\u{1f}shell\u{1f}l0\u{1f}/a\n  \n1\u{1f}logs\u{1f}l1\u{1f}/b\n";
    let ws = parse_windows(text).unwrap();
    assert_eq!(ws.len(), 2);
    assert_eq!(ws[0].name, "shell");
    assert_eq!(ws[1].index, "1");
    assert_eq!(ws[1].active_pane_path, "/b");
}

#[test]
fn window_listing_fails_at_a_bad_line() {
    let text = "0\u{1f}shell\u{1f}l0\u{1f}/a\nbroken\n1\u{1f}logs\u{1f}l1\u{1f}/b";
    assert_eq!(parse_windows(text).unwrap_err(), "Failed to parse window string: broken");
}

#[test]
fn session_listing_groups_windows_by_session() {
    let text = "main\u{1f}/home\u{1f}0\u{1f}vim\u{1f}L\u{1f}/home/p\n\
                work\u{1f}/w\u{1f}1\u{1f}build\u{1f}L\u{1f}/w/b\n\
                main\u{1f}/other\u{1f}2\u{1f}logs\u{1f}L\u{1f}/var/log\n\
                \n\
                incomplete\u{1f}line\n";
    let sessions = parse_session_listing(text);
    assert_eq!(sessions.len(), 2);
    assert_eq!(sessions[0].name, "main");
    assert_eq!(sessions[0].work_dir, "/home");
    assert_eq!(sessions[0].windows.len(), 2);
    assert_eq!(sessions[0].windows[0].name, "vim");
    assert_eq!(sessions[0].windows[1].index, "2");
    assert_eq!(sessions[0].windows[1].active_pane_path, "/var/log");
    assert_eq!(sessions[1].name, "work");
    assert_eq!(sessions[1].windows.len(), 1);
    assert_eq!(sessions[1].windows[0].name, "build");
}

#[test]
fn session_listing_of_nothing_is_empty() {
    assert!(parse_session_listing("").is_empty());
    assert!(parse_session_listing("\n \n").is_empty());
}

#[test]
fn every_listed_window_is_kept_once() {
    let text = "a\u{1f}/\u{1f}0\u{1f}w0\u{1f}L\u{1f}/\n\
                b\u{1f}/\u{1f}0\u{1f}w1\u{1f}L\u{1f}/\n\
                a\u{1f}/\u{1f}1\u{1f}w2\u{1f}L\u{1f}/\n\
                c\u{1f}/\u{1f}0\u{1f}w3\u{1f}L\u{1f}/";
    let sessions = parse_session_listing(text);
    let total: usize = sessions.iter().map(|s| s.windows.len()).sum();
    assert_eq!(total, 4);
    let mut names: Vec<&str> = sessions.iter().map(|s| s.name.as_str()).collect();
    names.sort();
    names.dedup();
    assert_eq!(names.len(), sessions.len());
}

#[test]
fn session_names_are_trimmed_and_blank_lines_dropped() {
    let names = parse_session_names(" main \n\nwork\n  \n");
    assert_eq!(names, vec!["main", "work"]);
    assert!(parse_session_names("").is_empty());
}

#[test]
fn listing_lines_match_exactly() {
    assert!(listing_has_line("main\nwork\n", "work"));
    assert!(!listing_has_line("main\nwork\n", "wor"));
    assert!(!listing_has_line("main \nwork", "main"));
    assert!(!listing_has_line("a\n\nb", ""));
    assert!(!listing_has_line("", ""));
}

#[test]
fn first_nonblank_line_is_trimmed() {
    assert_eq!(first_nonblank_line("\n  \n %3 \n%4\n"), Some(String::from("%3")));
    assert_eq!(first_nonblank_line(" \n\t\n"), None);
    assert_eq!(first_nonblank_line(""), None);
}

#[test]
fn captured_text_is_cleaned() {
    assert_eq!(clean_capture("a\tb\r\nc  \n\n"), "a        b\nc");
    assert_eq!(clean_capture("\r\r"), "");
    assert_eq!(clean_capture("  x"), "  x");
}
