use bookbinder::isbn::{calculate_check_digit, display_isbn, isbn_to_array, validate_isbn};

#[test]
fn test_isbn_to_array() {
    let a = "ISBN13 978-1-4920-6766-5";
    let b = "ISBN13 9781492067665";
    let c = "978-1-4920-6766-5";
    let d = "9781492067665";

    let expected = [9, 7, 8, 1, 4, 9, 2, 0, 6, 7, 6, 6, 5];

    assert_eq!(isbn_to_array(a).unwrap(), expected);
    assert_eq!(isbn_to_array(b).unwrap(), expected);
    assert_eq!(isbn_to_array(c).unwrap(), expected);
    assert_eq!(isbn_to_array(d).unwrap(), expected);
}

#[test]
fn test_validate_isbn() {
    let a = "ISBN13 978-1-4920-6766-5";
    let b = "ISBN-13 9781492067665";
    let c = "978-1-4920-6766-5";
    let d = "9781492067665";

    let e = "978-1-4920-6766-6";

    assert_eq!(validate_isbn(a), true);
    assert_eq!(validate_isbn(b), true);
    assert_eq!(validate_isbn(c), true);
    assert_eq!(validate_isbn(d), true);
    assert_eq!(validate_isbn(e), false);
}

#[test]
fn isbn_with_edition_in_brackets_is_valid() {
    assert!(validate_isbn("ISBN13 978-1-4920-6766-5 (epub)"));
}

#[test]
fn isbn_with_too_few_digits_is_refused() {
    assert_eq!(isbn_to_array("978-1-4920"), Err(()));
    assert_eq!(isbn_to_array(""), Err(()));
    assert_eq!(validate_isbn("not a number"), false);
}

#[test]
fn isbn_with_fifteen_digits_must_begin_with_thirteen() {
    assert_eq!(isbn_to_array("12 9781492067665"), Err(()));
    assert_eq!(
        isbn_to_array("13 9781492067665"),
        Ok([9, 7, 8, 1, 4, 9, 2, 0, 6, 7, 6, 6, 5])
    );
}

#[test]
fn check_digit_of_twelve_digits() {
    let digits = [9, 7, 8, 1, 4, 9, 2, 0, 6, 7, 6, 6];
    assert_eq!(calculate_check_digit(&digits), 5);
    let zeros = [0; 12];
    assert_eq!(calculate_check_digit(&zeros), 0);
}

#[test]
fn display_isbn_prints_number_and_edition() {
    assert_eq!(
        display_isbn("ISBN13 978-1-4920-6766-5", Some("epub")),
        Ok("ISBN-13: 978-1-4920-6766-5 (epub)".to_string())
    );
    assert_eq!(
        display_isbn("ISBN-13 9781492067665", None),
        Ok("ISBN-13: 9781492067665".to_string())
    );
    assert_eq!(display_isbn("978-1-4920-6766-6", None), Err(()));
}
