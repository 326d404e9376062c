//! Input validation and formatting utilities.

use rust_international_airport::utils::{
    calculate_load_factor, format_currency, format_duration, generate_seat_number,
    validate_airport_code, validate_email,
};

#[test]
fn test_airport_code_validation() {
    assert!(validate_airport_code("LAX"));
    assert!(validate_airport_code("JFK"));
    assert!(!validate_airport_code("lax"));
    assert!(!validate_airport_code("LAXX"));
    assert!(!validate_airport_code("LA"));
}

#[test]
fn test_email_validation() {
    assert!(validate_email("user@example.com"));
    assert!(validate_email("test.email+tag@domain.co.uk"));
    assert!(!validate_email("invalid-email"));
    assert!(!validate_email("@domain.com"));
    assert!(!validate_email("user@"));
}

#[test]
fn test_load_factor_calculation() {
    assert_eq!(calculate_load_factor(150, 200), 7500);
    assert_eq!(calculate_load_factor(0, 200), 0);
    assert_eq!(calculate_load_factor(200, 200), 10000);
    assert_eq!(calculate_load_factor(100, 0), 0);
}

#[test]
fn test_format_currency() {
    assert_eq!(format_currency(299990, "USD"), "$299.99");
    assert_eq!(format_currency(199500, "EUR"), "€199.50");
    assert_eq!(format_currency(149990, "GBP"), "£149.99");
    assert_eq!(format_currency(99990, "CAD"), "99.99 CAD");
}

#[test]
fn test_format_duration() {
    assert_eq!(format_duration(8 * 3600 + 30 * 60), "8h 30m");
    assert_eq!(format_duration(0), "0h 0m");
    assert_eq!(format_duration(59), "0h 0m");
    assert_eq!(format_duration(60), "0h 1m");
}

#[test]
fn test_generate_seat_number() {
    // 12 * 6 = 72, 72 % 10 = 2 -> the letter cycle's third letter.
    assert_eq!(generate_seat_number(12, 6), "12C");
    // 1 * 10 = 10, 10 % 10 = 0 -> 'A'.
    assert_eq!(generate_seat_number(1, 10), "1A");
    // 3 * 3 = 9 -> 'K' (the cycle skips 'I').
    assert_eq!(generate_seat_number(3, 3), "3K");
}
