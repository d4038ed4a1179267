use vstd::prelude::*;
use vstd::utf8::encode_utf8;

use crate::email::{is_valid_email, valid_email};

verus! {

pub const EMAIL_MAX_LENGTH: usize = 254;

pub const PASSWORD_MIN_LENGTH: usize = 8;

pub const PASSWORD_MAX_LENGTH: usize = 256;

/// Length of a text in UTF-8 bytes, which is what the length limits count.
pub open spec fn byte_len(s: Seq<char>) -> nat {
    encode_utf8(s).len()
}

/// What is wrong with one field of a form.
#[derive(Clone, Copy, Debug, PartialEq, Eq, Structural)]
pub enum FieldError {
    Required,
    EmailTooLong,
    InvalidEmail,
    PasswordTooShort,
    PasswordTooLong,
    PasswordMismatch,
    EmailTaken,
    InvalidCredentials,
}

impl FieldError {
    /// The text shown to the user for this error.
    pub fn message(&self) -> (r: &'static str)
        ensures
            r@ == match *self {
                FieldError::Required => "This field is required"@,
                FieldError::EmailTooLong => "Email must be at most 254 characters"@,
                FieldError::InvalidEmail => "Invalid email"@,
                FieldError::PasswordTooShort => "Password must be at least 8 characters"@,
                FieldError::PasswordTooLong => "Password must be at most 256 characters"@,
                FieldError::PasswordMismatch => "Password doesn't match"@,
                FieldError::EmailTaken => "Email is already taken"@,
                FieldError::InvalidCredentials => "Incorrect email or password"@,
            },
    {
        match self {
            FieldError::Required => "This field is required",
            FieldError::EmailTooLong => "Email must be at most 254 characters",
            FieldError::InvalidEmail => "Invalid email",
            FieldError::PasswordTooShort => "Password must be at least 8 characters",
            FieldError::PasswordTooLong => "Password must be at most 256 characters",
            FieldError::PasswordMismatch => "Password doesn't match",
            FieldError::EmailTaken => "Email is already taken",
            FieldError::InvalidCredentials => "Incorrect email or password",
        }
    }
}

// ---------------------------------------------------------------- sign-up form

/// The field of the sign-up form that gets the focus.
#[derive(Clone, Copy, Debug, PartialEq, Eq, Structural)]
pub enum SignupFormField {
    Email,
    Password,
    ConfirmPassword,
}

impl Default for SignupFormField {
    fn default() -> (r: Self)
        ensures
            r == SignupFormField::Email,
    {
        SignupFormField::Email
    }
}

pub struct SignupPayload {
    pub email: String,
    pub password: String,
    pub confirm_password: String,
}

pub struct SignupFormValues {
    pub email: String,
}

#[derive(Clone, Copy, Debug, PartialEq, Eq, Structural)]
pub struct SignupFormErrors {
    pub email: Option<FieldError>,
    pub password: Option<FieldError>,
    pub confirm_password: Option<FieldError>,
}

impl SignupFormErrors {
    pub open spec fn any(self) -> bool {
        self.email is Some || self.password is Some || self.confirm_password is Some
    }

    pub fn has_errors(&self) -> (r: bool)
        ensures
            r == self.any(),
    {
        self.email.is_some() || self.password.is_some() || self.confirm_password.is_some()
    }
}

impl Default for SignupFormErrors {
    fn default() -> (r: Self)
        ensures
            !r.any(),
    {
        SignupFormErrors { email: None, password: None, confirm_password: None }
    }
}

/// What the sign-up form is rendered with again after a rejected submission.
pub struct SignupFormData {
    pub focus: SignupFormField,
    pub values: SignupFormValues,
    pub errors: SignupFormErrors,
}

pub open spec fn signup_email_error(email: Seq<char>) -> Option<FieldError> {
    if email.len() == 0 {
        Some(FieldError::Required)
    } else if byte_len(email) > EMAIL_MAX_LENGTH {
        Some(FieldError::EmailTooLong)
    } else if !valid_email(email) {
        Some(FieldError::InvalidEmail)
    } else {
        None
    }
}

pub open spec fn signup_password_error(password: Seq<char>) -> Option<FieldError> {
    if password.len() == 0 {
        Some(FieldError::Required)
    } else if byte_len(password) < PASSWORD_MIN_LENGTH {
        Some(FieldError::PasswordTooShort)
    } else if byte_len(password) > PASSWORD_MAX_LENGTH {
        Some(FieldError::PasswordTooLong)
    } else {
        None
    }
}

pub open spec fn confirm_password_error(password: Seq<char>, confirm: Seq<char>) -> Option<
    FieldError,
> {
    if confirm.len() == 0 {
        Some(FieldError::Required)
    } else if confirm != password {
        Some(FieldError::PasswordMismatch)
    } else {
        None
    }
}

pub open spec fn signup_errors(email: Seq<char>, password: Seq<char>, confirm: Seq<char>) -> SignupFormErrors {
    SignupFormErrors {
        email: signup_email_error(email),
        password: signup_password_error(password),
        confirm_password: confirm_password_error(password, confirm),
    }
}

/// The focus goes to the first field, from the top of the form, that has an error.
pub open spec fn signup_focus(errors: SignupFormErrors) -> SignupFormField {
    if errors.email is Some {
        SignupFormField::Email
    } else if errors.password is Some {
        SignupFormField::Password
    } else if errors.confirm_password is Some {
        SignupFormField::ConfirmPassword
    } else {
        SignupFormField::Email
    }
}

fn email_error(email: &str) -> (r: Option<FieldError>)
    ensures
        r == signup_email_error(email@),
{
    if email.is_empty() {
        Some(FieldError::Required)
    } else if email.as_bytes().len() > EMAIL_MAX_LENGTH {
        Some(FieldError::EmailTooLong)
    } else if !is_valid_email(email) {
        Some(FieldError::InvalidEmail)
    } else {
        None
    }
}

/// Checks a sign-up submission before anything is hashed or stored.
pub fn validate_signup_payload(payload: &SignupPayload) -> (r: Result<(), SignupFormData>)
    ensures
        r is Ok <==> !signup_errors(payload.email@, payload.password@, payload.confirm_password@).any(),
        r matches Err(d) ==> {
            &&& d.errors == signup_errors(
                payload.email@,
                payload.password@,
                payload.confirm_password@,
            )
            &&& d.focus == signup_focus(d.errors)
            &&& d.values.email@ == payload.email@
        },
{
    let mut focus = SignupFormField::default();
    let mut errors = SignupFormErrors::default();

    if payload.confirm_password.as_str().is_empty() {
        errors.confirm_password = Some(FieldError::Required);
        focus = SignupFormField::ConfirmPassword;
    } else if !(payload.confirm_password == payload.password) {
        errors.confirm_password = Some(FieldError::PasswordMismatch);
        focus = SignupFormField::ConfirmPassword;
    }

    let password = payload.password.as_str();
    if password.is_empty() {
        errors.password = Some(FieldError::Required);
        focus = SignupFormField::Password;
    } else if password.as_bytes().len() < PASSWORD_MIN_LENGTH {
        errors.password = Some(FieldError::PasswordTooShort);
        focus = SignupFormField::Password;
    } else if password.as_bytes().len() > PASSWORD_MAX_LENGTH {
        errors.password = Some(FieldError::PasswordTooLong);
        focus = SignupFormField::Password;
    }

    let email = email_error(payload.email.as_str());
    if email.is_some() {
        errors.email = email;
        focus = SignupFormField::Email;
    }

    if !errors.has_errors() {
        return Ok(());
    }
    Err(
        SignupFormData {
            focus,
            values: SignupFormValues { email: payload.email.clone() },
            errors,
        },
    )
}

// ---------------------------------------------------------------- sign-in form

/// The field of the sign-in form that gets the focus.
#[derive(Clone, Copy, Debug, PartialEq, Eq, Structural)]
pub enum SigninFormField {
    Email,
    Password,
}

impl Default for SigninFormField {
    fn default() -> (r: Self)
        ensures
            r == SigninFormField::Email,
    {
        SigninFormField::Email
    }
}

pub struct SigninPayload {
    pub email: String,
    pub password: String,
    pub next: Option<String>,
}

pub struct SigninFormValues {
    pub email: String,
    pub next: Option<String>,
}

#[derive(Clone, Copy, Debug, PartialEq, Eq, Structural)]
pub struct SigninFormErrors {
    pub email: Option<FieldError>,
    pub password: Option<FieldError>,
    pub general: Option<FieldError>,
}

impl SigninFormErrors {
    pub open spec fn any(self) -> bool {
        self.email is Some || self.password is Some || self.general is Some
    }

    pub fn has_errors(&self) -> (r: bool)
        ensures
            r == self.any(),
    {
        self.email.is_some() || self.password.is_some() || self.general.is_some()
    }
}

impl Default for SigninFormErrors {
    fn default() -> (r: Self)
        ensures
            !r.any(),
    {
        SigninFormErrors { email: None, password: None, general: None }
    }
}

/// What the sign-in form is rendered with again after a rejected submission.
pub struct SigninFormData {
    pub focus: SigninFormField,
    pub values: SigninFormValues,
    pub errors: SigninFormErrors,
}

pub open spec fn signin_email_error(email: Seq<char>) -> Option<FieldError> {
    if email.len() == 0 {
        Some(FieldError::Required)
    } else if !valid_email(email) {
        Some(FieldError::InvalidEmail)
    } else {
        None
    }
}

pub open spec fn signin_errors(email: Seq<char>, password: Seq<char>) -> SigninFormErrors {
    SigninFormErrors {
        email: signin_email_error(email),
        password: if password.len() == 0 {
            Some(FieldError::Required)
        } else {
            None
        },
        general: None,
    }
}

pub open spec fn signin_focus(errors: SigninFormErrors) -> SigninFormField {
    if errors.email is Some {
        SigninFormField::Email
    } else if errors.password is Some {
        SigninFormField::Password
    } else {
        SigninFormField::Email
    }
}

pub open spec fn same_next(a: Option<String>, b: Option<String>) -> bool {
    match (a, b) {
        (Some(x), Some(y)) => x@ == y@,
        (None, None) => true,
        _ => false,
    }
}

fn clone_next(next: &Option<String>) -> (r: Option<String>)
    ensures
        same_next(r, *next),
{
    match next {
        Some(s) => Some(s.clone()),
        None => None,
    }
}

/// Checks a sign-in submission before any account is looked up.
pub fn validate_signin_payload(payload: &SigninPayload) -> (r: Result<(), SigninFormData>)
    ensures
        r is Ok <==> !signin_errors(payload.email@, payload.password@).any(),
        r matches Err(d) ==> {
            &&& d.errors == signin_errors(payload.email@, payload.password@)
            &&& d.focus == signin_focus(d.errors)
            &&& d.values.email@ == payload.email@
            &&& same_next(d.values.next, payload.next)
        },
{
    let mut focus = SigninFormField::default();
    let mut errors = SigninFormErrors::default();

    if payload.password.as_str().is_empty() {
        errors.password = Some(FieldError::Required);
        focus = SigninFormField::Password;
    }

    let email = payload.email.as_str();
    if email.is_empty() {
        errors.email = Some(FieldError::Required);
        focus = SigninFormField::Email;
    } else if !is_valid_email(email) {
        errors.email = Some(FieldError::InvalidEmail);
        focus = SigninFormField::Email;
    }

    if !errors.has_errors() {
        return Ok(());
    }
    Err(
        SigninFormData {
            focus,
            values: SigninFormValues { email: payload.email.clone(), next: clone_next(&payload.next) },
            errors,
        },
    )
}

} // verus!
