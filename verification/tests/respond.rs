use upload_form::rejection::{MultipartError, Rejection};
use upload_form::respond::{decimal_text, response_text};
use upload_form::user::{NewUser, User};

fn user(name: &str, age: i32) -> Result<NewUser, MultipartError> {
    Ok(NewUser { avatar: vec![1, 2, 3], user: User { name: name.to_string(), age } })
}

#[test]
fn success_is_greeted() {
    assert_eq!(response_text(&user("Ana", 30)), "Hello, 30 year old named Ana!");
    assert_eq!(response_text(&user("", 0)), "Hello, 0 year old named !");
    assert_eq!(response_text(&user("Zoë", -1)), "Hello, -1 year old named Zoë!");
}

#[test]
fn failure_shows_the_reason() {
    let error = MultipartError::new("Missing field 'data'".to_string());
    assert_eq!(response_text(&Err(error)), "Error: Missing field 'data'");
    let error = MultipartError::from_rejection(&Rejection::MalformedMultipart);
    assert_eq!(response_text(&Err(error)), "Error: Malformed multipart body");
}

#[test]
fn integers_are_written_in_decimal() {
    assert_eq!(decimal_text(0), "0");
    assert_eq!(decimal_text(7), "7");
    assert_eq!(decimal_text(10), "10");
    assert_eq!(decimal_text(1234567890), "1234567890");
    assert_eq!(decimal_text(-5), "-5");
    assert_eq!(decimal_text(-100), "-100");
    assert_eq!(decimal_text(i32::MAX), "2147483647");
    assert_eq!(decimal_text(i32::MIN), "-2147483648");
}

#[test]
fn decimal_agrees_with_the_standard_formatting() {
    for n in [-99999, -1000, -11, -10, -9, 1, 9, 11, 99, 100, 101, 65535, 65536, 999999999] {
        assert_eq!(decimal_text(n), format!("{}", n));
    }
}

#[test]
fn every_rejection_has_its_sentence() {
    let name = || "f".to_string();
    assert_eq!(
        Rejection::MissingContentType.reason(),
        "Incorrect contentType, should be 'multipart/form-data"
    );
    assert_eq!(Rejection::MalformedMultipart.reason(), "Malformed multipart body");
    assert_eq!(Rejection::UnknownField(name()).reason(), "Unknown field 'f'");
    assert_eq!(Rejection::FieldTooLarge(name()).reason(), "Field 'f' is too large");
    assert_eq!(
        Rejection::ContentTypeMismatch(name(), "text/plain".to_string()).reason(),
        "Field 'f' has an unacceptable content type 'text/plain'"
    );
    assert_eq!(Rejection::MissingField(name()).reason(), "Missing field 'f'");
    assert_eq!(
        Rejection::UnexpectedMultipleOccurrence(name()).reason(),
        "Extra 'f' fields supplied"
    );
    assert_eq!(Rejection::MalformedPayload("bad".to_string()).reason(), "bad");
}

#[test]
fn error_prints_its_reason() {
    let error = MultipartError::new("why".to_string());
    assert_eq!(error.reason, "why");
    assert_eq!(error.message(), "why");
    let error = MultipartError::from_rejection(&Rejection::MissingField("data".to_string()));
    assert_eq!(error.message(), "Missing field 'data'");
}
