use std::path::Path;
use agtalk::migrate::{
    legacy_needs_base_schema, legacy_version_update, migration_plan, version_after,
    CURRENT_VERSION, LEGACY_CURRENT_VERSION,
};
use agtalk::pathname::{file_name, is_absolute};
use agtalk::text::{
    contains_str, eq_ignore_ascii_case, is_empty, is_whitespace, join, starts_with, str_eq,
    strip_prefix, trim, truncate_chars,
};



fn strings(v: &[&str]) -> Vec<String> {
    v.iter().map(|s| s.to_string()).collect()
}

#[test]
fn ascii_case_and_equality() {
    assert!(eq_ignore_ascii_case("TrUe", "true"));
    assert!(!eq_ignore_ascii_case("true ", "true"));
    assert!(!eq_ignore_ascii_case("É", "é"));
    assert!(str_eq("abc", "abc"));
    assert!(!str_eq("abc", "abd"));
    assert!(is_empty(""));
    assert!(!is_empty(" "));
}

#[test]
fn prefixes() {
    assert!(starts_with("plugin:wez", "plugin:"));
    assert!(!starts_with("plug", "plugin:"));
    assert_eq!(strip_prefix("plugin:wez", "plugin:"), Some("wez".to_string()));
    assert_eq!(strip_prefix("plugin:", "plugin:"), Some(String::new()));
    assert_eq!(strip_prefix("zellij", "plugin:"), None);
}

#[test]
fn trimming_matches_std() {
    for s in ["  a b  ", "\t\n", "", "x", "\u{3000}全角\u{3000}", "\u{85}z\u{a0}"] {
        assert_eq!(trim(s), s.trim());
    }
    assert!(is_whitespace('\u{2009}'));
    assert!(!is_whitespace('\u{200B}'));
}

#[test]
fn truncation() {
    assert_eq!(truncate_chars("hello", 5), "hello");
    assert_eq!(truncate_chars("hello", 4), "hell…");
    assert_eq!(truncate_chars("你好世界", 1), "你…");
    assert_eq!(truncate_chars("abc", 0), "…");
}

#[test]
fn joining_and_membership() {
    assert_eq!(join(&strings(&["a", "b", "c"]), "; "), "a; b; c");
    assert_eq!(join(&strings(&["a"]), "; "), "a");
    assert_eq!(join(&strings(&[]), "; "), "");
    assert!(contains_str(&strings(&["x", "y"]), "y"));
    assert!(!contains_str(&strings(&["x", "y"]), "z"));
}

#[test]
fn paths_like_std() {
    for s in ["/tmp/project/.agtalk", "/tmp/project/.agtalk/", ".agtalk", "a/b/..", "/", "", "a//b", "./x/.", "..", "a/./"] {
        let want = Path::new(s).file_name().map(|f| f.to_str().unwrap().to_string());
        assert_eq!(file_name(s), want, "file_name of {:?}", s);
        assert_eq!(is_absolute(s), Path::new(s).is_absolute(), "is_absolute of {:?}", s);
    }
}

#[test]
fn migration_plans() {
    assert_eq!(CURRENT_VERSION, 11);
    assert_eq!(migration_plan(0), (1..=11).collect::<Vec<u32>>());
    assert_eq!(migration_plan(9), vec![10, 11]);
    assert_eq!(migration_plan(11), Vec::<u32>::new());
    assert_eq!(migration_plan(12), Vec::<u32>::new());
    assert_eq!(version_after(3), 11);
    assert_eq!(version_after(12), 12);
    assert!(migration_plan(version_after(4)).is_empty());
}

#[test]
fn legacy_store_versions() {
    assert!(legacy_needs_base_schema(0));
    assert!(!legacy_needs_base_schema(1));
    assert_eq!(legacy_version_update(0), Some(LEGACY_CURRENT_VERSION));
    assert_eq!(legacy_version_update(9), Some(10));
    assert_eq!(legacy_version_update(10), None);
}
