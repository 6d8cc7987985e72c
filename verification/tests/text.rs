use knr_bootstrap::text::{
    contains, has_entry, join, last_field, same, split_lines, starts_with, strip_prefix, strings,
    trim, trim_end_matches, trim_start_matches, white_space,
};

const SAMPLES: [&str; 14] = [
    "",
    "\n",
    "\r",
    "\r\n",
    "a",
    "a\n",
    "a\r\nb",
    "a\rb\n\n",
    "a\n\r\nb\r",
    "\n\na\n\n",
    "\u{e4}\u{20ac}\n\u{1f600}\r\n",
    "  x  ",
    "\t\u{a0}\u{3000}y z\u{2028}\r\n",
    "unix://unix:///run/x.git.git//",
];

#[test]
fn white_space_is_that_of_unicode() {
    for code in 0..=0x10ffffu32 {
        if let Some(c) = char::from_u32(code) {
            assert_eq!(white_space(c), c.is_whitespace(), "{code:x}");
        }
    }
}

#[test]
fn lines_end_with_line_feeds() {
    assert_eq!(split_lines("a\r\nb\n\nc\r"), vec!["a", "b", "", "c\r"]);
    for sample in SAMPLES {
        assert_eq!(split_lines(sample), sample.lines().collect::<Vec<_>>());
    }
}

#[test]
fn trimming_takes_white_space_off_both_ends() {
    assert_eq!(trim("\u{3000} x y \n"), "x y");
    for sample in SAMPLES {
        assert_eq!(trim(sample), sample.trim());
    }
}

#[test]
fn prefixes_and_suffixes_come_off() {
    assert_eq!(strip_prefix("# public key: k", "# public key: "), Some("k"));
    assert_eq!(strip_prefix("# public key:", "# public key: "), None);
    assert_eq!(trim_end_matches("o/r.git.git", ".git"), "o/r");
    assert_eq!(trim_start_matches("unix://unix:///x", "unix://"), "/x");
    for sample in SAMPLES {
        assert_eq!(starts_with(sample, "unix"), sample.starts_with("unix"));
        assert_eq!(strip_prefix(sample, "a"), sample.strip_prefix("a"));
        assert_eq!(trim_start_matches(sample, "unix://"), sample.trim_start_matches("unix://"));
        assert_eq!(trim_end_matches(sample, "/"), sample.trim_end_matches('/'));
        assert_eq!(
            trim_end_matches(trim_end_matches(sample, "/"), ".git"),
            sample.trim_end_matches('/').trim_end_matches(".git"),
        );
    }
    assert_eq!(trim_start_matches("aaa", ""), "aaa");
    assert_eq!(trim_end_matches("aaa", ""), "aaa");
}

#[test]
fn parts_are_found() {
    assert!(contains("podman version 5", "podman"));
    assert!(contains("a podman", "podman"));
    assert!(!contains("podma", "podman"));
    assert!(!contains("podma n", "podman"));
    assert!(contains("", ""));
    assert!(same("", ""));
    assert!(!same("a", "b"));
    assert!(!same("a", "aa"));
}

#[test]
fn the_last_field_follows_the_last_separator() {
    assert_eq!(last_field("0.0.0.0:1:2", ':'), "2");
    assert_eq!(last_field("no separator", ':'), "no separator");
    assert_eq!(last_field("ends:", ':'), "");
    for sample in SAMPLES {
        assert_eq!(last_field(sample, ':'), sample.rsplit(':').next().unwrap());
    }
}

#[test]
fn joining_puts_the_separator_between() {
    assert_eq!(join(&strings(&[]), ", "), "");
    assert_eq!(join(&strings(&["a"]), ", "), "a");
    assert_eq!(join(&strings(&["a", "", "c"]), ", "), "a, , c");
}

#[test]
fn entries_are_whole_lines() {
    assert!(has_entry("other\n  mgmt \r\n", "mgmt"));
    assert!(!has_entry("mgmt2\nnot mgmt\n", "mgmt"));
    assert!(!has_entry("No kind clusters found.", "mgmt"));
    assert!(!has_entry("", "mgmt"));
}
