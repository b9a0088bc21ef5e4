use tjxy_db::hashing::{text_sha256, to_hex_lower};
use tjxy_db::text::{blank, chars_of, contains_control, contains_control_except_line_breaks, is_bounded_plain_text, str_eq};

#[test]
fn hex_rendering_is_lower_case_two_digits_per_byte() {
    assert_eq!(to_hex_lower(&[]), "");
    assert_eq!(to_hex_lower(&[0x00, 0x0f, 0xa0, 0xff]), "000fa0ff");
}

#[test]
fn text_predicates_follow_std() {
    for case in ["", " ", "a", " a ", "\u{3000}", "\u{85}", "x\u{7f}", "\r\n", "\t", "名前"] {
        let chars = chars_of(case);
        assert_eq!(chars, case.chars().collect::<Vec<_>>());
        assert_eq!(blank(&chars), case.trim().is_empty(), "{case:?}");
        assert_eq!(contains_control(&chars), case.chars().any(char::is_control), "{case:?}");
        assert_eq!(
            contains_control_except_line_breaks(&chars),
            case.chars().any(|c| c.is_control() && !matches!(c, '\n' | '\r' | '\t')),
            "{case:?}"
        );
    }
    assert!(is_bounded_plain_text("ok", 2));
    assert!(!is_bounded_plain_text("ok!", 2));
    assert!(!is_bounded_plain_text("\u{85}", 2));
    assert!(str_eq("a", "a") && !str_eq("a", "b") && !str_eq("a", "ab"));
}

#[test]
fn text_digests_are_sha256_hex() {
    assert_eq!(text_sha256(""), "e3b0c44298fc1c149afbf4c8996fb92427ae41e4649b934ca495991b7852b855");
    assert_eq!(text_sha256("abc"), "ba7816bf8f01cfea414140de5dae2223b00361a396177a9cb410ff61f20015ad");
}
