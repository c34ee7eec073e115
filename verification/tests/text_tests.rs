use resident::text::{
    ends_with, i64_to_string, same_text, starts_with, trim_start_matches, u64_to_string,
};

#[test]
fn decimal_rendering() {
    assert_eq!(u64_to_string(0), "0");
    assert_eq!(u64_to_string(7), "7");
    assert_eq!(u64_to_string(10), "10");
    assert_eq!(u64_to_string(u64::MAX), u64::MAX.to_string());
    assert_eq!(i64_to_string(-42), "-42");
    assert_eq!(i64_to_string(i64::MIN), i64::MIN.to_string());
    assert_eq!(i64_to_string(i64::MAX), i64::MAX.to_string());
}

#[test]
fn prefix_and_suffix_tests() {
    assert!(starts_with("chrome-extension://abc", "chrome-extension://"));
    assert!(!starts_with("chrome", "chrome-extension://"));
    assert!(starts_with("anything", ""));
    assert!(ends_with("index.html", ".html"));
    assert!(!ends_with("html", ".html"));
    assert!(ends_with("é.js", ".js"));
    assert!(same_text("Quit", "Quit"));
    assert!(!same_text("Quit", "Quit "));
}

#[test]
fn trim_start_matches_like_std() {
    for (s, p) in [
        ("/resource/index.html", "/resource/"),
        ("/resource//resource/a.js", "/resource/"),
        ("/resource/resource/a.js", "/resource/"),
        ("index.html", "/resource/"),
        ("", "/resource/"),
        ("abc", ""),
        ("ééx", "é"),
    ] {
        assert_eq!(trim_start_matches(s, p), s.trim_start_matches(p));
    }
}
