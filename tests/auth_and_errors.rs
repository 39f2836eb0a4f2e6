use qr_slip::auth::{bearer_token, login_expiry, parse_user_keys, refresh_token_cookie, CreateUser};
use qr_slip::error::Error;
use qr_slip::model::NewUser;

#[test]
fn bearer_prefix_is_removed() {
    assert_eq!(bearer_token("Bearer abc.def").ok().unwrap(), "abc.def");
    assert_eq!(bearer_token("Bearer Bearer x").ok().unwrap(), "x");
    assert_eq!(bearer_token("Bearer ").ok().unwrap(), "");
}

#[test]
fn header_without_bearer_prefix_is_refused() {
    assert!(matches!(bearer_token("Basic abc"), Err(Error::InvalidAuthHeaderError)));
    assert!(matches!(bearer_token("Bearer"), Err(Error::InvalidAuthHeaderError)));
}

#[test]
fn user_keys_are_read() {
    assert_eq!(parse_user_keys("1, 2 ,3").ok().unwrap(), vec![1, 2, 3]);
    assert_eq!(parse_user_keys(" -7").ok().unwrap(), vec![-7]);
    assert_eq!(parse_user_keys("+2147483647").ok().unwrap(), vec![2147483647]);
}

#[test]
fn bad_user_keys_are_refused() {
    assert!(matches!(parse_user_keys("1,a"), Err(Error::BadRequestError)));
    assert!(matches!(parse_user_keys(""), Err(Error::BadRequestError)));
    assert!(matches!(parse_user_keys("1,"), Err(Error::BadRequestError)));
    assert!(matches!(parse_user_keys("2147483648"), Err(Error::BadRequestError)));
}

#[test]
fn refresh_cookie_text() {
    assert_eq!(
        refresh_token_cookie("42", "Mon, 1 Jan 2024 00:00:00 +0000"),
        "refresh_token=42; Expires=Mon, 1 Jan 2024 00:00:00 +0000; HttpOnly"
    );
}

#[test]
fn login_token_expires_after_fifteen_minutes() {
    assert_eq!(login_expiry(1_000), Some(1_900));
    assert_eq!(login_expiry(i64::MAX), None);
}

#[test]
fn error_statuses() {
    assert_eq!(Error::InvalidCredentialsError.status_code(), 403);
    assert_eq!(Error::MissingAuthHeaderError.status_code(), 401);
    assert_eq!(Error::InvalidJwtError.status_code(), 401);
    assert_eq!(Error::PrincipalExistsError("bob".to_string()).status_code(), 400);
    assert_eq!(Error::InvalidRequestInputError("x".to_string()).status_code(), 400);
    assert_eq!(Error::QrCodeError("x".to_string()).status_code(), 500);
    assert_eq!(Error::TeraError("x".to_string()).status_code(), 500);
    assert_eq!(Error::PdfError("x".to_string()).status_code(), 500);
    assert_eq!(Error::IoError("x".to_string()).status_code(), 500);
    assert_eq!(Error::QueryError.status_code(), 500);
}

#[test]
fn error_messages() {
    assert_eq!(
        Error::PrincipalExistsError("bob".to_string()).message(),
        "There already exists a principal with the given identifier: 'bob'"
    );
    assert_eq!(Error::InvalidCredentialsError.message(), "invalid credentials");
    assert_eq!(Error::TeraError("template".to_string()).message(), "template");
}

#[test]
fn new_user_from_request() {
    let c = CreateUser {
        name: "n".to_string(),
        address: "a".to_string(),
        zip_code: "z".to_string(),
        city: "c".to_string(),
        iban: "i".to_string(),
        country: "CH".to_string(),
    };
    let u = NewUser::from_create_user(c, 7);
    assert_eq!(u.fk_principal, 7);
    assert_eq!(u.country, "CH");
}
