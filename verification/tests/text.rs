use proof_harness::text::{same, split_once, strip_prefix, trim, white_space};

#[test]
fn white_space_is_that_of_the_standard_library() {
    for c in '\0'..=char::MAX {
        assert_eq!(white_space(c), c.is_whitespace(), "{:?}", c);
    }
}

#[test]
fn trim_is_that_of_the_standard_library() {
    for s in ["", " ", "a", " a", "a ", "\t a b\u{2003}\n", "\u{3000}ü\u{85}", " \r\n ", "\u{feff}a"] {
        assert_eq!(trim(s), s.trim());
    }
}

#[test]
fn split_once_is_that_of_the_standard_library() {
    for s in ["", ":", "a:b", "a:b:c", "::", "ab", "ü:é", "日:本:語"] {
        assert_eq!(split_once(s, ':'), s.split_once(':'));
    }
}

#[test]
fn strip_prefix_is_that_of_the_standard_library() {
    for s in ["", "pro", "provider:", "provider:codex", "xprovider:", "Provider:a", "provider:ü"] {
        assert_eq!(strip_prefix(s, "provider:"), s.strip_prefix("provider:"));
    }
    assert_eq!(strip_prefix("abc", ""), Some("abc"));
}

#[test]
fn same_compares_content() {
    assert!(same("popOut", &String::from("popOut")));
    assert!(!same("popOut", "popout"));
    assert!(!same("popOut", "popOu"));
    assert!(same("", ""));
}
