use chat_backend::errors::{decimal_text, AppError};
use chat_backend::ident::{format_id, parse_user_id};
use chat_backend::models::OrderStatus;
use chat_backend::store::StoreError;
use chat_backend::utils::{
    generate_random_string, sanitize_phone, user_id_from_text, validate_email, CODE_CHARSET,
};

#[test]
fn phone_keeps_digits_only() {
    assert_eq!(sanitize_phone("+1 (555) 010-9999"), "15550109999");
    assert_eq!(sanitize_phone(""), "");
    assert_eq!(sanitize_phone("abc"), "");
    assert_eq!(sanitize_phone("٣4"), "٣4");
}

#[test]
fn random_codes_have_length_and_alphabet() {
    let s = generate_random_string(12);
    assert_eq!(s.chars().count(), 12);
    assert!(s.chars().all(|c| CODE_CHARSET.contains(c)));
    assert_eq!(generate_random_string(0), "");
}

#[test]
fn email_shape() {
    assert!(validate_email("someone@example.com"));
    assert!(!validate_email("someone@example"));
    assert!(!validate_email("no at sign.com"));
    assert!(!validate_email(""));
}

#[test]
fn uuid_text_round_trip() {
    let v: u128 = 0x0123_4567_89ab_cdef_0123_4567_89ab_cdef;
    assert_eq!(format_id(v), "01234567-89ab-cdef-0123-456789abcdef");
    assert_eq!(parse_user_id("01234567-89ab-cdef-0123-456789abcdef"), Some(v));
    assert_eq!(parse_user_id("0123456789abcdef0123456789abcdef"), Some(v));
    assert_eq!(parse_user_id("xyz"), None);
}

#[test]
fn identity_text_to_user() {
    assert_eq!(user_id_from_text(&None), None);
    assert_eq!(user_id_from_text(&Some("bad".to_string())), None);
    assert_eq!(
        user_id_from_text(&Some("00000000-0000-0000-0000-00000000002a".to_string())),
        Some(42)
    );
}

#[test]
fn status_codes() {
    assert_eq!(AppError::BadRequest("x".to_string()).status_code(), 400);
    assert_eq!(AppError::Unauthorized.status_code(), 401);
    assert_eq!(AppError::Forbidden.status_code(), 403);
    assert_eq!(AppError::NotFound("x".to_string()).status_code(), 404);
    assert_eq!(AppError::Conflict("x".to_string()).status_code(), 409);
    assert_eq!(AppError::InternalError.status_code(), 500);
    assert_eq!(AppError::DatabaseError(StoreError::DuplicateId).status_code(), 500);
    assert_eq!(AppError::PasswordHashError.status_code(), 500);
    assert_eq!(AppError::AwsError("s3".to_string()).status_code(), 500);
    assert_eq!(AppError::InvalidOtp.status_code(), 400);
    assert_eq!(AppError::OtpExpired.status_code(), 400);
}

#[test]
fn error_bodies() {
    assert_eq!(
        AppError::NotFound("Product".to_string()).error_body(),
        r#"{"code":404,"error":"Not found: Product"}"#
    );
    assert_eq!(
        AppError::DatabaseError(StoreError::UnknownConversation).error_body(),
        r#"{"code":500,"error":"Database error occurred"}"#
    );
    assert_eq!(AppError::OtpExpired.message(), "OTP expired");
    assert_eq!(
        AppError::DatabaseError(StoreError::UnknownConversation).message(),
        "Database error: conversation not found"
    );
}

#[test]
fn decimal_numbers() {
    assert_eq!(decimal_text(0), "0");
    assert_eq!(decimal_text(7), "7");
    assert_eq!(decimal_text(409), "409");
    assert_eq!(decimal_text(65535), "65535");
}

#[test]
fn order_status_names() {
    assert_eq!(OrderStatus::Pending.as_str(), "pending");
    assert_eq!(OrderStatus::Shipped.as_str(), "shipped");
    assert_eq!(OrderStatus::Delivered.as_str(), "delivered");
}
