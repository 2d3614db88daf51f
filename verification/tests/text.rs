use cellar_sandbox::text::{
    bool_to_text, join_path, join_text, to_upper_char, u64_to_decimal, upper_equals,
};

#[test]
fn decimal_of_small_and_large_numbers() {
    assert_eq!(u64_to_decimal(0), "0");
    assert_eq!(u64_to_decimal(7), "7");
    assert_eq!(u64_to_decimal(10), "10");
    assert_eq!(u64_to_decimal(984), "984");
    assert_eq!(u64_to_decimal(1000), "1000");
    assert_eq!(u64_to_decimal(1234567890), "1234567890");
    assert_eq!(u64_to_decimal(u64::MAX), "18446744073709551615");
}

#[test]
fn decimal_agrees_with_the_standard_rendering() {
    let mut n: u64 = 1;
    while n < u64::MAX / 7 {
        assert_eq!(u64_to_decimal(n), n.to_string());
        assert_eq!(u64_to_decimal(n - 1), (n - 1).to_string());
        n = n * 7 + 3;
    }
}

#[test]
fn booleans_are_spelled_out() {
    assert_eq!(bool_to_text(true), "true");
    assert_eq!(bool_to_text(false), "false");
}

#[test]
fn join_text_joins_in_order() {
    assert_eq!(join_text("--profile=", "/etc/p"), "--profile=/etc/p");
    assert_eq!(join_text("", "x"), "x");
    assert_eq!(join_text("x", ""), "x");
}

#[test]
fn upper_char_changes_small_latin_letters_only() {
    assert_eq!(to_upper_char('a'), 'A');
    assert_eq!(to_upper_char('z'), 'Z');
    assert_eq!(to_upper_char('m'), 'M');
    assert_eq!(to_upper_char('A'), 'A');
    assert_eq!(to_upper_char('0'), '0');
    assert_eq!(to_upper_char('`'), '`');
    assert_eq!(to_upper_char('{'), '{');
    assert_eq!(to_upper_char('é'), 'é');
}

#[test]
fn upper_equals_ignores_the_case_of_the_text() {
    assert!(upper_equals("auto", "AUTO"));
    assert!(upper_equals("AuTo", "AUTO"));
    assert!(upper_equals("AUTO", "AUTO"));
    assert!(!upper_equals("AUTO", "auto"));
    assert!(!upper_equals("aut", "AUTO"));
    assert!(!upper_equals("autos", "AUTO"));
    assert!(upper_equals("", ""));
}

#[test]
fn join_path_adds_one_slash_where_needed() {
    assert_eq!(join_path("cellar", "winecellar.json"), "cellar/winecellar.json");
    assert_eq!(join_path("cellar/", "winecellar.json"), "cellar/winecellar.json");
    assert_eq!(join_path("", "winecellar.json"), "winecellar.json");
    assert_eq!(join_path("/", "winecellar.json"), "/winecellar.json");
    assert_eq!(join_path("/a/b", "c"), "/a/b/c");
}

#[test]
fn join_path_agrees_with_the_standard_join() {
    for base in ["cellar", "cellar/", "", "/", "/a/b", "./x", "päth"] {
        let expected = std::path::Path::new(base).join("winecellar.json");
        assert_eq!(join_path(base, "winecellar.json"), expected.to_str().unwrap());
    }
}
