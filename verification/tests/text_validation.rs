use wichita_housing_logistics::error::{d1_error, log_line, public_message, AppError};
use wichita_housing_logistics::text::{
    contains_sub, decimal_string, join, parse_i64, str_eq, trim, utf8_len_exceeds,
};
use wichita_housing_logistics::validation::{
    check_batch_len, inserted_id, normalize_optional, normalize_text, require_changed,
    require_found, row_id_arg, validate_allowed,
};
use wichita_housing_logistics::web::empty_to_none;

fn client_msg(e: &AppError) -> Option<String> {
    match e {
        AppError::Client(m) => Some(m.clone()),
        AppError::Internal { .. } => None,
    }
}

fn internal_parts(e: &AppError) -> Option<(String, String)> {
    match e {
        AppError::Internal { context, source } => Some((context.to_string(), source.clone())),
        AppError::Client(_) => None,
    }
}

#[test]
fn trim_removes_unicode_whitespace_on_both_ends() {
    assert_eq!(trim("  hello world \t\n"), "hello world");
    assert_eq!(trim("\u{3000}\u{00A0}name\u{2028}"), "name");
    assert_eq!(trim("   "), "");
    assert_eq!(trim(""), "");
    assert_eq!(trim("a  b"), "a  b");
}

#[test]
fn trim_agrees_with_std_trim() {
    for s in ["  x ", "\u{85}y\u{205F}", "\u{200B}z", "é ", " \r\n\t"] {
        assert_eq!(trim(s), s.trim());
    }
}

#[test]
fn trimming_twice_is_trimming_once() {
    for s in ["  a b  ", "\t\tq", "r\n", "", "  "] {
        let once = trim(s);
        assert_eq!(trim(&once), once);
    }
}

#[test]
fn decimal_string_matches_display() {
    for n in [0_i64, 7, 10, 42, -1, -305, i64::MAX, i64::MIN] {
        assert_eq!(decimal_string(n), n.to_string());
    }
}

#[test]
fn parse_i64_matches_std_parse() {
    for s in ["0", "12", "+7", "-7", "", "-", "+", "1a", " 3", "9223372036854775807",
        "9223372036854775808", "-9223372036854775808", "-9223372036854775809",
        "00042", "99999999999999999999999"] {
        assert_eq!(parse_i64(s), s.parse::<i64>().ok(), "input {s:?}");
    }
}

#[test]
fn parse_reads_back_what_decimal_writes() {
    for n in [0_i64, 1, -1, 123456, i64::MAX, i64::MIN] {
        assert_eq!(parse_i64(&decimal_string(n)), Some(n));
    }
}

#[test]
fn join_puts_separator_between_items() {
    assert_eq!(join(&["a", "b", "c"], ", "), "a, b, c");
    assert_eq!(join(&["only"], ", "), "only");
    assert_eq!(join(&[], ", "), "");
}

#[test]
fn substring_and_equality() {
    assert!(contains_sub("VASH — Wichita VA", "VASH"));
    assert!(!contains_sub("HumanKind Villas", "VASH"));
    assert!(contains_sub("abc", ""));
    assert!(str_eq("same", "same"));
    assert!(!str_eq("same", "Same"));
}

#[test]
fn utf8_length_counts_bytes() {
    let a = "a".repeat(120);
    assert!(!utf8_len_exceeds(&a, 120));
    let b = "a".repeat(121);
    assert!(utf8_len_exceeds(&b, 120));
    let c = "é".repeat(61); // 122 bytes, 61 characters
    assert!(utf8_len_exceeds(&c, 120));
}

#[test]
fn validate_allowed_accepts_members_and_lists_the_choices() {
    let allowed = ["warn", "red"];
    assert_eq!(validate_allowed("Level", "red", &allowed).unwrap(), "red");
    let e = validate_allowed("Level", "amber", &allowed).unwrap_err();
    assert_eq!(client_msg(&e).unwrap(), "Level must be one of: warn, red");
}

#[test]
fn normalize_text_outcomes() {
    assert_eq!(normalize_text("Phone", "  555 ", 40, false).unwrap(), Some("555".to_string()));
    assert_eq!(normalize_text("Phone", "   ", 40, false).unwrap(), None);
    let e = normalize_text("Author", " ", 80, true).unwrap_err();
    assert_eq!(client_msg(&e).unwrap(), "Author is required.");
    let e = normalize_text("Notes", "abcdef", 5, false).unwrap_err();
    assert_eq!(client_msg(&e).unwrap(), "Notes is capped at 5 characters.");
    // The cap counts characters, not bytes.
    assert_eq!(normalize_text("Notes", "ééééé", 5, true).unwrap(), Some("ééééé".to_string()));
}

#[test]
fn normalized_text_is_stable() {
    let once = normalize_text("Body", "  keep me \n", 20, true).unwrap().unwrap();
    let twice = normalize_text("Body", &once, 20, true).unwrap().unwrap();
    assert_eq!(once, twice);
}

#[test]
fn normalize_optional_skips_missing_values() {
    assert_eq!(normalize_optional("Email", &None, 120).unwrap(), None);
    assert_eq!(
        normalize_optional("Email", &Some(" a@b.org ".to_string()), 120).unwrap(),
        Some("a@b.org".to_string())
    );
}

#[test]
fn record_ids_must_fit_32_bits() {
    assert_eq!(row_id_arg(17).unwrap(), 17);
    assert_eq!(row_id_arg(-5).unwrap(), -5);
    let e = row_id_arg(i64::from(i32::MAX) + 1).unwrap_err();
    assert_eq!(client_msg(&e).unwrap(), "Record id is out of range.");
}

#[test]
fn write_outcomes() {
    assert_eq!(inserted_id(Some(9)).unwrap(), 9);
    let e = inserted_id(None).unwrap_err();
    assert_eq!(
        internal_parts(&e).unwrap(),
        (
            "INSERT completed without returning last_row_id.".to_string(),
            "missing last_row_id".to_string()
        )
    );
    assert!(require_changed(1, "Household", 4).is_ok());
    let e = require_changed(0, "Household", 4).unwrap_err();
    assert_eq!(client_msg(&e).unwrap(), "Household 4 was not found.");
    let e = require_found::<u8>(None, "Resource", -2).unwrap_err();
    assert_eq!(client_msg(&e).unwrap(), "Resource -2 was not found.");
    assert_eq!(require_found(Some(3_u8), "Resource", 1).unwrap(), 3);
}

#[test]
fn batch_length_mismatch_is_internal() {
    assert!(check_batch_len("ctx", 2, 2).is_ok());
    let e = check_batch_len("households batch", 1, 2).unwrap_err();
    assert_eq!(
        internal_parts(&e).unwrap(),
        ("households batch".to_string(), "expected 2, got 1".to_string())
    );
}

#[test]
fn internal_errors_are_never_shown_to_the_client() {
    let e = AppError::internal("Failed to insert household.", "disk full");
    assert_eq!(public_message(&e), "Request failed. Try again later.");
    assert_eq!(log_line(&e).unwrap(), "Failed to insert household.: disk full");
    let e = d1_error("Failed to bind.", 42);
    assert_eq!(internal_parts(&e).unwrap().1, "42");
    let e = AppError::client("Household 3 was not found.".to_string());
    assert_eq!(public_message(&e), "Household 3 was not found.");
    assert!(log_line(&e).is_none());
}

#[test]
fn empty_form_fields_become_none() {
    assert_eq!(empty_to_none("   ".to_string()), None);
    assert_eq!(empty_to_none(" 316-555-0000 ".to_string()), Some("316-555-0000".to_string()));
}
