use vstd::prelude::*;
use vstd::utf8::encode_utf8;

use crate::auth::AuthUser;
use crate::password::{argon2_accepts, hash_password, HashPasswordError};
use crate::validation::{
    same_next, FieldError, SigninFormData, SigninFormErrors, SigninFormField, SigninFormValues,
    SignupFormData, SignupFormErrors, SignupFormField, SignupFormValues,
};

verus! {

pub const HOME_ROUTE: &'static str = "/";

pub const SIGNIN_ROUTE: &'static str = "/signin";

pub const PROTECTED_ROUTE: &'static str = "/protected";

pub const STATUS_OK: u16 = 200;

pub const STATUS_CREATED: u16 = 201;

pub const STATUS_NO_CONTENT: u16 = 204;

pub const STATUS_UNAUTHORIZED: u16 = 401;

pub const STATUS_CONFLICT: u16 = 409;

pub const STATUS_UNPROCESSABLE_ENTITY: u16 = 422;

pub const STATUS_INTERNAL_SERVER_ERROR: u16 = 500;

// ---------------------------------------------------------------- sign-up

pub struct SignupData {
    pub email: String,
    pub password: String,
}

/// The row to insert for a new account: its e-mail address and password hash.
pub struct CreateUserData {
    pub email: String,
    pub password: String,
}

/// Why inserting an account failed. `S` is the storage engine's own error.
pub enum CreateUserError<S> {
    EmailAlreadyExistsError,
    DatabaseError(S),
}

impl<S> CreateUserError<S> {
    /// Classifies a failed insert. The storage engine's unique-constraint
    /// violation is the one signal of a taken e-mail address: nothing is
    /// checked beforehand, so two concurrent sign-ups cannot both pass.
    pub fn from_insert_error(is_unique_violation: bool, error: S) -> (r: Self)
        ensures
            is_unique_violation ==> r is EmailAlreadyExistsError,
            !is_unique_violation ==> r == CreateUserError::DatabaseError(error),
    {
        if is_unique_violation {
            CreateUserError::EmailAlreadyExistsError
        } else {
            CreateUserError::DatabaseError(error)
        }
    }
}

/// Why a sign-up failed. `S` is the storage engine's error, `L` the session
/// layer's.
pub enum SignupError<S, L> {
    HashPasswordError(HashPasswordError),
    UserEmailAlreadyExistsError,
    CreateUserError(CreateUserError<S>),
    LoginError(L),
}

impl<S, L> SignupError<S, L> {
    /// A taken e-mail address becomes its own outcome; any other storage
    /// failure stays a storage failure.
    pub fn from_create_user_error(error: CreateUserError<S>) -> (r: Self)
        ensures
            error is EmailAlreadyExistsError ==> r is UserEmailAlreadyExistsError,
            error is DatabaseError ==> r == SignupError::<S, L>::CreateUserError(error),
    {
        match error {
            CreateUserError::EmailAlreadyExistsError => SignupError::UserEmailAlreadyExistsError,
            other => SignupError::CreateUserError(other),
        }
    }
}

/// First step of a sign-up: hash the password. The row to insert keeps the
/// e-mail address as typed and a hash that verifies the password.
pub fn prepare_signup<S, L>(data: SignupData) -> (r: Result<CreateUserData, SignupError<S, L>>)
    ensures
        r matches Ok(row) ==> row.email@ == data.email@ && argon2_accepts(
            encode_utf8(data.password@),
            row.password@,
        ),
        r matches Err(e) ==> e is HashPasswordError,
{
    match hash_password(data.password.as_str().as_bytes()) {
        Ok(hash) => Ok(CreateUserData { email: data.email, password: hash }),
        Err(e) => Err(SignupError::HashPasswordError(e)),
    }
}

/// The answer to a submitted sign-up form.
pub enum SignupReply {
    /// The form did not pass validation.
    Invalid(SignupFormData),
    /// The account exists and its session is open: go to the protected page.
    Created,
    /// Another account holds the e-mail address.
    EmailTaken(SignupFormData),
    /// Anything else: a system failure, shown without detail.
    Failed,
}

impl SignupReply {
    pub open spec fn spec_status(&self) -> u16 {
        match self {
            SignupReply::Invalid(_) => STATUS_UNPROCESSABLE_ENTITY,
            SignupReply::Created => STATUS_CREATED,
            SignupReply::EmailTaken(_) => STATUS_CONFLICT,
            SignupReply::Failed => STATUS_INTERNAL_SERVER_ERROR,
        }
    }

    pub fn status(&self) -> (r: u16)
        ensures
            r == self.spec_status(),
    {
        match self {
            SignupReply::Invalid(_) => STATUS_UNPROCESSABLE_ENTITY,
            SignupReply::Created => STATUS_CREATED,
            SignupReply::EmailTaken(_) => STATUS_CONFLICT,
            SignupReply::Failed => STATUS_INTERNAL_SERVER_ERROR,
        }
    }
}

/// The sign-up form shown again when the e-mail address is taken.
pub open spec fn email_taken_form(d: SignupFormData, email: Seq<char>) -> bool {
    &&& d.values.email@ == email
    &&& d.errors == SignupFormErrors {
        email: Some(FieldError::EmailTaken),
        password: None,
        confirm_password: None,
    }
    &&& d.focus == SignupFormField::Email
}

/// Turns the outcome of a sign-up into the reply.
pub fn signup_reply<S, L>(email: &str, outcome: &Result<(), SignupError<S, L>>) -> (r: SignupReply)
    ensures
        outcome is Ok ==> r is Created,
        outcome matches Err(SignupError::UserEmailAlreadyExistsError) ==> (r matches SignupReply::EmailTaken(d)
            && email_taken_form(d, email@)),
        (outcome matches Err(e) && !(e is UserEmailAlreadyExistsError)) ==> r is Failed,
{
    match outcome {
        Ok(()) => SignupReply::Created,
        Err(SignupError::UserEmailAlreadyExistsError) => {
            let errors = SignupFormErrors {
                email: Some(FieldError::EmailTaken),
                password: None,
                confirm_password: None,
            };
            SignupReply::EmailTaken(
                SignupFormData {
                    focus: SignupFormField::Email,
                    values: SignupFormValues { email: email.to_owned() },
                    errors,
                },
            )
        },
        Err(_) => SignupReply::Failed,
    }
}

// ---------------------------------------------------------------- sign-in

pub struct SigninData {
    pub email: String,
    pub password: String,
}

/// Why a sign-in failed. `L` is the session layer's error.
pub enum SigninError<L> {
    InvalidCredentialsError,
    AuthenticationError(L),
}

/// The account to log in, from what the authenticator answered: a refusal
/// becomes `InvalidCredentialsError`, a failure stays a failure.
pub fn signed_in_user<L>(authenticated: Result<Option<AuthUser>, L>) -> (r: Result<
    AuthUser,
    SigninError<L>,
>)
    ensures
        authenticated matches Ok(Some(u)) ==> r == Ok::<AuthUser, SigninError<L>>(u),
        authenticated matches Ok(None) ==> r matches Err(SigninError::InvalidCredentialsError),
        authenticated matches Err(e) ==> r == Err::<AuthUser, SigninError<L>>(
            SigninError::AuthenticationError(e),
        ),
{
    match authenticated {
        Ok(Some(user)) => Ok(user),
        Ok(None) => Err(SigninError::InvalidCredentialsError),
        Err(e) => Err(SigninError::AuthenticationError(e)),
    }
}

/// The answer to a submitted sign-in form.
pub enum SigninReply {
    Invalid(SigninFormData),
    /// Signed in: go to `next`.
    SignedIn { next: String },
    /// Unknown address or wrong password, which the form does not tell apart.
    Rejected(SigninFormData),
    Failed,
}

impl SigninReply {
    pub open spec fn spec_status(&self) -> u16 {
        match self {
            SigninReply::Invalid(_) => STATUS_UNPROCESSABLE_ENTITY,
            SigninReply::SignedIn { .. } => STATUS_OK,
            SigninReply::Rejected(_) => STATUS_UNAUTHORIZED,
            SigninReply::Failed => STATUS_INTERNAL_SERVER_ERROR,
        }
    }

    pub fn status(&self) -> (r: u16)
        ensures
            r == self.spec_status(),
    {
        match self {
            SigninReply::Invalid(_) => STATUS_UNPROCESSABLE_ENTITY,
            SigninReply::SignedIn { .. } => STATUS_OK,
            SigninReply::Rejected(_) => STATUS_UNAUTHORIZED,
            SigninReply::Failed => STATUS_INTERNAL_SERVER_ERROR,
        }
    }
}

/// Where a successful sign-in leads: the page asked for, else the protected page.
pub open spec fn next_page(next: Option<String>) -> Seq<char> {
    match next {
        Some(n) => n@,
        None => PROTECTED_ROUTE@,
    }
}

/// The sign-in form shown again after a refusal: one general error, which
/// does not say whether the address or the password was wrong.
pub open spec fn rejected_form(d: SigninFormData, email: Seq<char>, next: Option<String>) -> bool {
    &&& d.values.email@ == email
    &&& same_next(d.values.next, next)
    &&& d.errors == SigninFormErrors {
        email: None,
        password: None,
        general: Some(FieldError::InvalidCredentials),
    }
    &&& d.focus == SigninFormField::Email
}

/// Turns the outcome of a sign-in into the reply.
pub fn signin_reply<L>(email: &str, next: &Option<String>, outcome: &Result<(), SigninError<L>>) -> (r: SigninReply)
    ensures
        outcome is Ok ==> (r matches SigninReply::SignedIn { next: n } && n@ == next_page(*next)),
        outcome matches Err(SigninError::InvalidCredentialsError) ==> (r matches SigninReply::Rejected(d)
            && rejected_form(d, email@, *next)),
        outcome matches Err(SigninError::AuthenticationError(_)) ==> r is Failed,
{
    match outcome {
        Ok(()) => {
            let n = match next {
                Some(n) => n.clone(),
                None => PROTECTED_ROUTE.to_owned(),
            };
            SigninReply::SignedIn { next: n }
        },
        Err(SigninError::InvalidCredentialsError) => {
            let next_copy = match next {
                Some(n) => Some(n.clone()),
                None => None,
            };
            SigninReply::Rejected(
                SigninFormData {
                    focus: SigninFormField::Email,
                    values: SigninFormValues { email: email.to_owned(), next: next_copy },
                    errors: SigninFormErrors {
                        email: None,
                        password: None,
                        general: Some(FieldError::InvalidCredentials),
                    },
                },
            )
        },
        Err(SigninError::AuthenticationError(_)) => SigninReply::Failed,
    }
}

// ---------------------------------------------------------------- sign-out

/// Why a sign-out failed: the session layer could not drop the session.
pub struct SignoutError<L>(pub L);

/// Status of the answer to a sign-out: it always goes home, unless the
/// session layer failed.
pub fn signout_status<L>(outcome: &Result<(), SignoutError<L>>) -> (r: u16)
    ensures
        outcome is Ok ==> r == STATUS_NO_CONTENT,
        outcome is Err ==> r == STATUS_INTERNAL_SERVER_ERROR,
{
    match outcome {
        Ok(()) => STATUS_NO_CONTENT,
        Err(_) => STATUS_INTERNAL_SERVER_ERROR,
    }
}

} // verus!
