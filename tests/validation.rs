use authcore::email::is_valid_email;
use authcore::operations::{SigninReply, SignupReply};
use authcore::validation::{
    validate_signin_payload, validate_signup_payload, FieldError, SigninFormField,
    SigninPayload, SignupFormField, SignupPayload,
};

fn signup(email: &str, password: &str, confirm_password: &str) -> SignupPayload {
    SignupPayload {
        email: email.to_string(),
        password: password.to_string(),
        confirm_password: confirm_password.to_string(),
    }
}

fn signin(email: &str, password: &str) -> SigninPayload {
    SigninPayload { email: email.to_string(), password: password.to_string(), next: None }
}

#[test]
fn test_is_valid_email() {
    assert!(is_valid_email("test@email.com"));
    assert!(!is_valid_email("test"));
}

#[test]
fn email_grammar_edges() {
    assert!(is_valid_email("a@b"));
    assert!(is_valid_email("first.last+tag@sub-domain.example.org"));
    assert!(!is_valid_email("@example.com"));
    assert!(!is_valid_email("a@"));
    assert!(!is_valid_email("a@-example.com"));
    assert!(!is_valid_email("a@example-.com"));
    assert!(!is_valid_email("a@example..com"));
    assert!(!is_valid_email("a@example.com."));
    assert!(!is_valid_email("a b@example.com"));
    assert!(!is_valid_email("a@b@c"));
    assert!(!is_valid_email("zoë@example.com"));
    let label63 = "a".repeat(63);
    let label64 = "a".repeat(64);
    assert!(is_valid_email(&format!("x@{}.com", label63)));
    assert!(!is_valid_email(&format!("x@{}.com", label64)));
}

#[test]
fn signup_payload_accepted() {
    assert!(validate_signup_payload(&signup("test@example.com", "password123", "password123")).is_ok());
}

#[test]
fn sign_up_with_invalid_email_payload() {
    let long = format!("{}@email.com", "a".repeat(245));
    let cases = [
        ("", FieldError::Required),
        (long.as_str(), FieldError::EmailTooLong),
        ("invalid-email", FieldError::InvalidEmail),
    ];
    for (email, expected) in cases {
        let data = validate_signup_payload(&signup(email, "password123", "password123")).unwrap_err();
        assert_eq!(data.errors.email, Some(expected));
        assert_eq!(data.errors.password, None);
        assert_eq!(data.errors.confirm_password, None);
        assert_eq!(data.focus, SignupFormField::Email);
        assert_eq!(data.values.email, email);
        assert_eq!(SignupReply::Invalid(data).status(), 422);
    }
}

#[test]
fn sign_up_with_invalid_password_payload() {
    let long = "a".repeat(257);
    let cases = [
        ("", FieldError::Required),
        ("a", FieldError::PasswordTooShort),
        (long.as_str(), FieldError::PasswordTooLong),
    ];
    for (password, expected) in cases {
        let data = validate_signup_payload(&signup("test@example.com", password, password)).unwrap_err();
        assert_eq!(data.errors.password, Some(expected));
        assert_eq!(data.focus, SignupFormField::Password);
        assert_eq!(SignupReply::Invalid(data).status(), 422);
    }
}

#[test]
fn sign_up_with_invalid_confirm_password_payload() {
    let cases = [("", FieldError::Required), ("mismatched-confirm-password", FieldError::PasswordMismatch)];
    for (confirm, expected) in cases {
        let data = validate_signup_payload(&signup("test@example.com", "password123", confirm)).unwrap_err();
        assert_eq!(data.errors.confirm_password, Some(expected));
        assert_eq!(data.errors.password, None);
        assert_eq!(data.focus, SignupFormField::ConfirmPassword);
        assert_eq!(SignupReply::Invalid(data).status(), 422);
    }
}

#[test]
fn signup_focus_goes_to_first_invalid_field() {
    let data = validate_signup_payload(&signup("bad", "short", "other")).unwrap_err();
    assert_eq!(data.errors.email, Some(FieldError::InvalidEmail));
    assert_eq!(data.errors.password, Some(FieldError::PasswordTooShort));
    assert_eq!(data.errors.confirm_password, Some(FieldError::PasswordMismatch));
    assert_eq!(data.focus, SignupFormField::Email);
}

#[test]
fn password_limits_count_bytes() {
    // Eight bytes in four characters is long enough.
    assert!(validate_signup_payload(&signup("test@example.com", "éééé", "éééé")).is_ok());
    let exact = "a".repeat(256);
    assert!(validate_signup_payload(&signup("test@example.com", &exact, &exact)).is_ok());
    let email254 = format!("{}@email.com", "a".repeat(244));
    assert_eq!(email254.len(), 254);
    assert!(validate_signup_payload(&signup(&email254, "password123", "password123")).is_ok());
}

#[test]
fn sign_in_with_invalid_email_payload() {
    let cases = [("", FieldError::Required), ("invalid-email", FieldError::InvalidEmail)];
    for (email, expected) in cases {
        let data = validate_signin_payload(&signin(email, "password123")).unwrap_err();
        assert_eq!(data.errors.email, Some(expected));
        assert_eq!(data.focus, SigninFormField::Email);
        assert_eq!(SigninReply::Invalid(data).status(), 422);
    }
}

#[test]
fn sign_in_with_invalid_password_payload() {
    let data = validate_signin_payload(&signin("test@example.com", "")).unwrap_err();
    assert_eq!(data.errors.password, Some(FieldError::Required));
    assert_eq!(data.errors.email, None);
    assert_eq!(data.focus, SigninFormField::Password);
    assert_eq!(SigninReply::Invalid(data).status(), 422);
}

#[test]
fn signin_keeps_next_page() {
    let payload = SigninPayload {
        email: "".to_string(),
        password: "x".to_string(),
        next: Some("/protected".to_string()),
    };
    let data = validate_signin_payload(&payload).unwrap_err();
    assert_eq!(data.values.next.as_deref(), Some("/protected"));
    assert!(validate_signin_payload(&signin("test@example.com", "x")).is_ok());
}

#[test]
fn field_error_messages() {
    assert_eq!(FieldError::Required.message(), "This field is required");
    assert_eq!(FieldError::EmailTaken.message(), "Email is already taken");
    assert_eq!(FieldError::InvalidCredentials.message(), "Incorrect email or password");
}
