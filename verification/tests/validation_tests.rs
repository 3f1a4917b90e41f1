use security_suite::folders::application::service::FolderService;
use security_suite::logs::application::service::LogService;
use security_suite::shared::text::{is_white_space_char, trimmed_len_at_least, trimmed_utf8_len_at_least};
use security_suite::users::application::service::UserService;

#[test]
fn username_needs_three_characters_once_trimmed() {
    assert!(UserService::validate_username("abc").is_ok());
    assert!(UserService::validate_username("ab").is_err());
    assert!(UserService::validate_username("   ab   ").is_err());
    assert!(UserService::validate_username("  abc\t").is_ok());
    assert!(UserService::validate_username("a b").is_ok());
    // Characters, not bytes: "ññ" is two characters in four bytes.
    assert!(UserService::validate_username("ññ").is_err());
    assert!(UserService::validate_username("ñññ").is_ok());
    assert!(UserService::validate_username("\u{3000}a\u{3000}").is_err());
}

#[test]
fn padding_never_changes_a_verdict() {
    for s in ["ab", "abc", "john@example.com", "@a.bc", "a@b.c", "x"] {
        let padded = format!(" \u{a0}\t{s}\u{2009}\n");
        assert_eq!(UserService::validate_username(s).is_ok(), UserService::validate_username(&padded).is_ok());
        assert_eq!(UserService::validate_email(s).is_ok(), UserService::validate_email(&padded).is_ok());
        assert_eq!(FolderService::validate_name(s).is_ok(), FolderService::validate_name(&padded).is_ok());
        assert_eq!(LogService::validate_details(s).is_ok(), LogService::validate_details(&padded).is_ok());
    }
}

#[test]
fn email_shape() {
    assert!(UserService::validate_email("john@example.com").is_ok());
    assert!(UserService::validate_email("a@b.c").is_ok());
    assert!(UserService::validate_email("  a@b.c  ").is_ok());
    assert!(UserService::validate_email("no-es-un-email").is_err());
    assert!(UserService::validate_email("@b.cd").is_err());
    assert!(UserService::validate_email("ab.c@").is_err());
    assert!(UserService::validate_email("a@bc").is_err());
    assert!(UserService::validate_email("a.b.c").is_err());
    assert!(UserService::validate_email("ab@.c").is_ok());
    assert!(UserService::validate_email("a@.c").is_err());
    assert!(UserService::validate_email("").is_err());
}

#[test]
fn password_counts_characters_without_trimming() {
    assert!(UserService::validate_password("12345678").is_ok());
    assert!(UserService::validate_password("1234567").is_err());
    assert!(UserService::validate_password("       1").is_ok());
    assert!(UserService::validate_password("ñññññññ").is_err());
    assert!(UserService::validate_password("ññññññññ").is_ok());
}

#[test]
fn folder_owner_must_not_be_nil() {
    assert!(FolderService::validate_user_id(&0).is_err());
    assert!(FolderService::validate_user_id(&1).is_ok());
}

#[test]
fn whitespace_is_unicode_white_space() {
    for c in [' ', '\t', '\n', '\u{b}', '\u{c}', '\r', '\u{85}', '\u{a0}', '\u{1680}', '\u{2000}', '\u{200a}', '\u{2028}', '\u{2029}', '\u{202f}', '\u{205f}', '\u{3000}'] {
        assert!(is_white_space_char(c));
        assert_eq!(is_white_space_char(c), c.is_whitespace());
    }
    for c in ['a', '\u{0}', '\u{200b}', '\u{feff}', '_', '\u{1f600}'] {
        assert!(!is_white_space_char(c));
        assert_eq!(is_white_space_char(c), c.is_whitespace());
    }
    for u in 0..0x3100u32 {
        if let Some(c) = char::from_u32(u) {
            assert_eq!(is_white_space_char(c), c.is_whitespace(), "{u:#x}");
        }
    }
}

#[test]
fn trimmed_length_counts_characters_of_str_trim() {
    for s in ["", "  ", " a ", "añ", " \u{3000}日本\u{3000} ", "😀", "ab\u{a0}"] {
        for min in 0..10u8 {
            assert_eq!(trimmed_len_at_least(s, min), s.trim().chars().count() >= min as usize, "{s:?} {min}");
        }
    }
}

#[test]
fn folder_names_details_and_emails_count_utf8_bytes() {
    // "ññ" is two characters in four bytes: long enough where bytes count.
    assert!(FolderService::validate_name("ññ").is_ok());
    assert!(FolderService::validate_name(" ñ ").is_err());
    assert!(LogService::validate_details("日").is_ok());
    assert!(LogService::validate_details("ñ").is_err());
    // Four characters, six bytes.
    assert!(UserService::validate_email("ñ@.ñ").is_ok());
    assert!(UserService::validate_email("a@.b").is_err());
}

#[test]
fn trimmed_byte_length_matches_str_trim_len() {
    for s in ["", "  ", " a ", "añ", " \u{3000}日本\u{3000} ", "😀", "ab\u{a0}"] {
        for min in 0..10u8 {
            assert_eq!(trimmed_utf8_len_at_least(s, min), s.trim().len() >= min as usize, "{s:?} {min}");
        }
    }
}
