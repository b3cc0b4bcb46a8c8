use im::formatter::{format_display_number, format_phone_number};

#[test]
fn test_format_phone_number() {
    // US number with no country code
    assert_eq!(format_phone_number("5551234567"), "+15551234567");

    // Already has country code
    assert_eq!(format_phone_number("+15551234567"), "+15551234567");

    // Non-phone number string is returned as-is
    assert_eq!(
        format_phone_number("email@example.com"),
        "email@example.com"
    );
}

#[test]
fn test_format_display_number() {
    // US number with country code
    assert_eq!(format_display_number("+15551234567"), "5551234567");

    // US number with country code digit
    assert_eq!(format_display_number("15551234567"), "5551234567");

    // US number without country code is returned as-is
    assert_eq!(format_display_number("5551234567"), "5551234567");

    // Non-phone number string is returned as-is
    assert_eq!(
        format_display_number("email@example.com"),
        "email@example.com"
    );
}

#[test]
fn phone_number_with_country_digit_but_no_plus_gets_plus() {
    assert_eq!(format_phone_number("1-555-123"), "+1-555-123");
    assert_eq!(format_phone_number("15551234567"), "+115551234567");
}

#[test]
fn phone_number_edge_cases() {
    assert_eq!(format_phone_number(""), "+1");
    assert_eq!(format_phone_number("+1 555"), "+1 555");
    assert_eq!(format_phone_number("1"), "+11");
}

#[test]
fn display_number_edge_cases() {
    assert_eq!(format_display_number("+1"), "+1");
    assert_eq!(format_display_number("+12"), "2");
    assert_eq!(format_display_number("1"), "");
    assert_eq!(format_display_number("1a"), "1a");
}
