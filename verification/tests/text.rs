use prior_web::net::factory::{FactoryRunUpdateDisplay};
use prior_web::order::sort_vec_by_key;
use prior_web::text::{
    char_is_whitespace, i64_decimal, u64_decimal, usize_decimal, chars_of, collapse_whitespace, concat3, insert_sorted_unique, join_strings,
    split_nonempty_pieces, split_trimmed_pieces, str_contains, str_ends_with, str_eq,
    str_starts_with, string_of, strip_prefix_str, to_ascii_lower, to_hex_lower, trim,
    trim_end_matching, trim_end_str,
};

fn update(ts: i64, title: &str) -> FactoryRunUpdateDisplay {
    FactoryRunUpdateDisplay { kind: "k".to_string(), ts, title: title.to_string(), body: String::new() }
}

#[test]
fn trimming() {
    assert_eq!(trim("\u{a0} a b \t\n"), "a b");
    assert_eq!(trim("   "), "");
    assert_eq!(trim_end_matching("https://x///", '/'), "https://x");
    assert_eq!(trim_end_str("app.git.git", ".git"), "app");
    assert_eq!(trim_end_str("git", ".git"), "git");
    assert_eq!(strip_prefix_str("git@github.com:a/b", "git@github.com:").as_deref(), Some("a/b"));
    assert_eq!(strip_prefix_str("a/b", "https://"), None);
}

#[test]
fn collapsing_and_splitting() {
    let v = chars_of("  one\t\ttwo \n three ");
    assert_eq!(string_of(&collapse_whitespace(&v)), "one two three");
    assert_eq!(split_trimmed_pieces(" a , b  c,,", ',', ' '), vec!["a", "b", "c"]);
    assert_eq!(split_nonempty_pieces("/a//b/", '/'), vec!["a", "b"]);
    assert_eq!(split_nonempty_pieces(" a /b", '/'), vec![" a ", "b"]);
    assert_eq!(join_strings(&vec!["x".to_string(), "y".to_string(), "z".to_string()], ", "), "x, y, z");
    assert_eq!(join_strings(&vec![], " "), "");
}

#[test]
fn comparisons() {
    assert!(str_eq("é", "é"));
    assert!(!str_eq("a", "ab"));
    assert!(str_contains("abcabd", "abd"));
    assert!(!str_contains("ab", "abc"));
    assert!(str_starts_with("#general", "#"));
    assert!(str_ends_with("u:x#general", "#general"));
    assert_eq!(to_ascii_lower("FAILED Ünïcode"), "failed Ünïcode");
    assert_eq!(concat3("a", "-", "b"), "a-b");
}

#[test]
fn hex() {
    assert_eq!(to_hex_lower(&[0x00, 0x0f, 0xab, 0xff]), "000fabff");
    assert_eq!(to_hex_lower(&[]), "");
}

#[test]
fn sorted_unique_insert() {
    let mut v: Vec<String> = Vec::new();
    for s in ["m", "b", "z", "b", "a"] {
        insert_sorted_unique(&mut v, s.to_string());
    }
    assert_eq!(v, vec!["a", "b", "m", "z"]);
}

#[test]
fn stable_sort_by_key() {
    let sorted = sort_vec_by_key(vec![update(3, "c"), update(1, "a"), update(3, "d"), update(2, "b")]);
    let titles: Vec<&str> = sorted.iter().map(|u| u.title.as_str()).collect();
    assert_eq!(titles, vec!["a", "b", "c", "d"]);
}

#[test]
fn random_tokens_differ_from_zero_bytes() {
    let t = prior_web::auth::routes::random_token();
    assert_ne!(t, "0".repeat(64));
}

#[test]
fn decimals_and_white_space() {
    assert_eq!(u64_decimal(0), "0");
    assert_eq!(u64_decimal(u64::MAX), u64::MAX.to_string());
    assert_eq!(i64_decimal(i64::MIN), i64::MIN.to_string());
    assert_eq!(i64_decimal(-7), "-7");
    assert_eq!(usize_decimal(120), "120");
    for c in ['\t', ' ', '\u{85}', '\u{a0}', '\u{2009}', '\u{3000}'] {
        assert!(char_is_whitespace(c));
    }
    for c in ['a', '\u{200b}', '_'] {
        assert!(!char_is_whitespace(c));
    }
    for c in (0..0x3100u32).filter_map(char::from_u32) {
        assert_eq!(char_is_whitespace(c), c.is_whitespace());
    }
}
