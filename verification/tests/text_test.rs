use speedrunapi::text::{
    bool_to_string, collapse_crlf_str, i64_to_string, lower_str, str_eq, str_eq_ci,
    trim_marks_str,
};

#[test]
fn collapse_replaces_double_crlf() {
    assert_eq!(collapse_crlf_str("A\r\n\r\nB"), "A B");
    assert_eq!(collapse_crlf_str("A\r\nB"), "A\r\nB");
    assert_eq!(collapse_crlf_str(""), "");
    assert_eq!(collapse_crlf_str("\r\n\r\n\r\n\r\n"), "  ");
    assert_eq!(collapse_crlf_str("x\r\n\r\n"), "x ");
}

#[test]
fn trim_strips_marks_both_ends() {
    assert_eq!(trim_marks_str("\"role\""), "role");
    assert_eq!(trim_marks_str("\\\"role\\\""), "role");
    assert_eq!(trim_marks_str("role"), "role");
    assert_eq!(trim_marks_str("ro\"le"), "ro\"le");
    assert_eq!(trim_marks_str("\"\\\""), "");
    assert_eq!(trim_marks_str(""), "");
}

#[test]
fn decimal_rendering() {
    assert_eq!(i64_to_string(0), "0");
    assert_eq!(i64_to_string(2011), "2011");
    assert_eq!(i64_to_string(-7), "-7");
    assert_eq!(i64_to_string(i64::MAX), "9223372036854775807");
    assert_eq!(i64_to_string(i64::MIN), "-9223372036854775808");
}

#[test]
fn booleans_render_as_words() {
    assert_eq!(bool_to_string(true), "true");
    assert_eq!(bool_to_string(false), "false");
}

#[test]
fn lowercasing_is_ascii_only() {
    assert_eq!(lower_str("LoGo"), "logo");
    assert_eq!(lower_str("déjà-VU"), "déjà-vu");
}

#[test]
fn string_equality() {
    assert!(str_eq("abc", "abc"));
    assert!(!str_eq("abc", "abd"));
    assert!(!str_eq("abc", "ab"));
    assert!(str_eq_ci("LOGO", "logo"));
    assert!(str_eq_ci("Logo", "logO"));
    assert!(!str_eq_ci("logo", "icon"));
}
