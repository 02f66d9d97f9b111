use media_savant_api::text::{eq_ignore_ascii_case, str_equal, to_ascii_lower, trim_end_slashes};

#[test]
fn trim_strips_one_trailing_slash() {
    assert_eq!(trim_end_slashes("http://h/"), "http://h");
}

#[test]
fn trim_strips_every_trailing_slash() {
    assert_eq!(trim_end_slashes("http://h///"), "http://h");
}

#[test]
fn trim_leaves_inner_slashes() {
    assert_eq!(trim_end_slashes("http://h/base"), "http://h/base");
    assert_eq!(trim_end_slashes("http://h/base/"), "http://h/base");
}

#[test]
fn trim_of_empty_and_of_slashes_only() {
    assert_eq!(trim_end_slashes(""), "");
    assert_eq!(trim_end_slashes("/"), "");
    assert_eq!(trim_end_slashes("////"), "");
}

#[test]
fn trim_counts_characters_not_bytes() {
    assert_eq!(trim_end_slashes("http://héé/"), "http://héé");
    assert_eq!(trim_end_slashes("日本/語//"), "日本/語");
}

#[test]
fn trim_agrees_with_std() {
    for s in ["", "/", "a", "a/", "a//", "/a", "//a//", "https://example.org/jf/", "é/"] {
        assert_eq!(trim_end_slashes(s), s.trim_end_matches('/'));
    }
}

#[test]
fn trim_is_idempotent() {
    for s in ["", "/", "a/", "https://example.org///"] {
        let once = trim_end_slashes(s);
        assert_eq!(trim_end_slashes(&once), once);
        assert!(!once.ends_with('/'));
    }
}

#[test]
fn str_equal_compares_contents() {
    assert!(str_equal("", ""));
    assert!(str_equal("range", "range"));
    assert!(!str_equal("range", "Range"));
    assert!(!str_equal("range", "ranges"));
    assert!(!str_equal("ranges", "range"));
    assert!(str_equal("héllo", "héllo"));
    assert!(!str_equal("héllo", "hello"));
}

#[test]
fn lower_case_touches_ascii_letters_only() {
    assert_eq!(to_ascii_lower('A'), 'a');
    assert_eq!(to_ascii_lower('Z'), 'z');
    assert_eq!(to_ascii_lower('m'), 'm');
    assert_eq!(to_ascii_lower('@'), '@');
    assert_eq!(to_ascii_lower('['), '[');
    assert_eq!(to_ascii_lower('-'), '-');
    assert_eq!(to_ascii_lower('É'), 'É');
    for c in ['A', 'q', '0', '_', 'Ö', '{'] {
        assert_eq!(to_ascii_lower(c), c.to_ascii_lowercase());
    }
}

#[test]
fn header_names_compare_without_case() {
    assert!(eq_ignore_ascii_case("Content-Type", "content-type"));
    assert!(eq_ignore_ascii_case("RANGE", "range"));
    assert!(eq_ignore_ascii_case("", ""));
    assert!(!eq_ignore_ascii_case("range", "ranges"));
    assert!(!eq_ignore_ascii_case("accept", "accepT-"));
    assert!(!eq_ignore_ascii_case("@", "`"));
    assert!(!eq_ignore_ascii_case("[", "{"));
    assert!(!eq_ignore_ascii_case("É", "é"));
}

#[test]
fn header_name_comparison_agrees_with_std() {
    let names = ["content-type", "Content-Type", "CONTENT-LENGTH", "range", "Range ", "", "accept"];
    for a in names {
        for b in names {
            assert_eq!(eq_ignore_ascii_case(a, b), a.eq_ignore_ascii_case(b));
        }
    }
}
