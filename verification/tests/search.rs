use symbol_diff::model::Symbol;
use symbol_diff::search::{str_contains, str_eq, symbol_matches_search};

fn sym(name: &str, demangled: Option<&str>) -> Symbol {
    Symbol {
        name: name.to_string(),
        demangled_name: demangled.map(|d| d.to_string()),
        address: 0,
        size: 0,
        size_known: true,
        common: false,
        global: true,
        local: false,
        weak: false,
        match_percent: None,
    }
}

#[test]
fn empty_query_matches_any_symbol() {
    assert!(symbol_matches_search(&sym("Foo", None), ""));
    assert!(symbol_matches_search(&sym("", Some("bar")), ""));
}

#[test]
fn demangled_path_is_case_insensitive() {
    // The demangled name is folded to lowercase before matching.
    assert!(symbol_matches_search(&sym("Foo", Some("foo::bar")), "foo"));
}

#[test]
fn raw_path_is_case_sensitive() {
    // "Foo" does not contain "foo", and there is no demangled name.
    assert!(!symbol_matches_search(&sym("Foo", None), "foo"));
}

#[test]
fn raw_name_matches_exact_case() {
    assert!(symbol_matches_search(&sym("Foo", None), "Fo"));
    assert!(!symbol_matches_search(&sym("Foo", None), "fo"));
}

#[test]
fn demangled_fold_applies_to_symbol_side_only() {
    // The query reaches this function already lowercased; an uppercase
    // query therefore matches nothing, not even an uppercase name.
    assert!(symbol_matches_search(&sym("zzz", Some("Foo::Bar")), "foo::b"));
    assert!(!symbol_matches_search(&sym("zzz", Some("Foo::Bar")), "Foo"));
}

#[test]
fn substring_in_the_middle() {
    assert!(symbol_matches_search(&sym("abcde", None), "cd"));
    assert!(!symbol_matches_search(&sym("abcde", None), "ce"));
}

#[test]
fn str_contains_basics() {
    assert!(str_contains("hello", "ell"));
    assert!(str_contains("hello", "hello"));
    assert!(str_contains("hello", ""));
    assert!(str_contains("", ""));
    assert!(!str_contains("hello", "elo"));
    assert!(!str_contains("he", "hello"));
}

#[test]
fn str_eq_basics() {
    assert!(str_eq("abc", "abc"));
    assert!(str_eq("", ""));
    assert!(!str_eq("abc", "abd"));
    assert!(!str_eq("abc", "ab"));
}
