use book_catalog::validation::{is_valid_isbn_format, validate_book_form};

#[test]
fn empty_title_is_flagged_alone() {
    let r = validate_book_form("", "A", "P", "100", "1234567890");
    assert_eq!(r.title.as_deref(), Some("required"));
    assert!(r.author.is_none());
    assert!(r.publisher.is_none());
    assert!(r.price.is_none());
    assert!(r.isbn.is_none());
    assert!(r.has_errors());
}

#[test]
fn zero_price_is_flagged_alone() {
    let r = validate_book_form("T", "A", "P", "0", "1234567890");
    assert!(r.title.is_none());
    assert!(r.author.is_none());
    assert!(r.publisher.is_none());
    assert_eq!(r.price.as_deref(), Some("must be greater than 0"));
    assert!(r.isbn.is_none());
}

#[test]
fn hyphenated_isbn13_is_accepted() {
    let r = validate_book_form("T", "A", "P", "100", "978-4-798158228");
    assert!(r.isbn.is_none());
    assert!(!r.has_errors());
}

#[test]
fn all_fields_empty_are_all_required() {
    let r = validate_book_form("", "", "", "", "");
    assert_eq!(r.title.as_deref(), Some("required"));
    assert_eq!(r.author.as_deref(), Some("required"));
    assert_eq!(r.publisher.as_deref(), Some("required"));
    assert_eq!(r.price.as_deref(), Some("required"));
    assert_eq!(r.isbn.as_deref(), Some("required"));
}

#[test]
fn whitespace_only_fields_are_required() {
    let r = validate_book_form("  ", "\t", " \n ", "   ", "  ");
    assert_eq!(r.title.as_deref(), Some("required"));
    assert_eq!(r.author.as_deref(), Some("required"));
    assert_eq!(r.publisher.as_deref(), Some("required"));
    assert_eq!(r.price.as_deref(), Some("required"));
    assert_eq!(r.isbn.as_deref(), Some("required"));
}

#[test]
fn title_length_bound_is_200_characters() {
    let ok = "t".repeat(200);
    let too_long = "t".repeat(201);
    assert!(validate_book_form(&ok, "A", "P", "1", "1234567890").title.is_none());
    let r = validate_book_form(&too_long, "A", "P", "1", "1234567890");
    assert_eq!(r.title.as_deref(), Some("too long"));
}

#[test]
fn author_and_publisher_bound_is_100_characters() {
    let ok = "a".repeat(100);
    let too_long = "a".repeat(101);
    let r = validate_book_form("T", &ok, &ok, "1", "1234567890");
    assert!(r.author.is_none());
    assert!(r.publisher.is_none());
    let r = validate_book_form("T", &too_long, &too_long, "1", "1234567890");
    assert_eq!(r.author.as_deref(), Some("too long"));
    assert_eq!(r.publisher.as_deref(), Some("too long"));
}

#[test]
fn surrounding_whitespace_is_trimmed_before_length_check() {
    let padded = format!("   {}   ", "t".repeat(200));
    let r = validate_book_form(&padded, "A", "P", "1", "1234567890");
    assert!(r.title.is_none());
}

#[test]
fn non_numeric_price_is_rejected() {
    let r = validate_book_form("T", "A", "P", "abc", "1234567890");
    assert_eq!(r.price.as_deref(), Some("must be a positive integer"));
}

#[test]
fn negative_price_is_rejected() {
    let r = validate_book_form("T", "A", "P", "-5", "1234567890");
    assert_eq!(r.price.as_deref(), Some("must be a positive integer"));
}

#[test]
fn overflowing_price_is_rejected_as_non_integer() {
    let r = validate_book_form("T", "A", "P", "5000000000", "1234567890");
    assert_eq!(r.price.as_deref(), Some("must be a positive integer"));
}

#[test]
fn price_upper_bound_is_one_million() {
    let r = validate_book_form("T", "A", "P", "1000000", "1234567890");
    assert!(r.price.is_none());
    let r = validate_book_form("T", "A", "P", "1000001", "1234567890");
    assert_eq!(r.price.as_deref(), Some("must not exceed 1,000,000"));
}

#[test]
fn price_with_leading_plus_and_padding_parses() {
    let r = validate_book_form("T", "A", "P", " +100 ", "1234567890");
    assert!(r.price.is_none());
}

#[test]
fn isbn_with_wrong_digit_count_is_rejected() {
    let r = validate_book_form("T", "A", "P", "100", "123456789");
    assert_eq!(r.isbn.as_deref(), Some("must be 10 or 13 digits (hyphens allowed)"));
    let r = validate_book_form("T", "A", "P", "100", "12345678901234");
    assert_eq!(r.isbn.as_deref(), Some("must be 10 or 13 digits (hyphens allowed)"));
}

#[test]
fn isbn10_with_hyphens_is_accepted() {
    let r = validate_book_form("T", "A", "P", "100", "4-06-519981-0");
    assert!(r.isbn.is_none());
}

#[test]
fn isbn_format_counts_only_digits() {
    assert!(is_valid_isbn_format("9784798158228"));
    assert!(is_valid_isbn_format("978-4-798158228"));
    assert!(is_valid_isbn_format("1234567890"));
    assert!(!is_valid_isbn_format("12345"));
    assert!(!is_valid_isbn_format("12345678901234"));
    assert!(!is_valid_isbn_format("no digits at all"));
}

#[test]
fn error_free_result_reports_no_errors() {
    let r = validate_book_form("T", "A", "P", "100", "1234567890");
    assert!(!r.has_errors());
    assert!(r.title.is_none());
    assert!(r.author.is_none());
    assert!(r.publisher.is_none());
    assert!(r.price.is_none());
    assert!(r.isbn.is_none());
}
