use vstd::prelude::*;
use vstd::utf8::encode_utf8;

use crate::password::{argon2_accepts, hash_password, verify_password, HashPasswordError};

verus! {

/// An account as the authenticator sees it: its id and its password hash.
#[derive(Clone)]
pub struct AuthUser {
    pub id: i32,
    pub password: String,
}

impl AuthUser {
    /// The bytes a session keeps to stay bound to the account's current
    /// password: once the password changes, the session no longer matches.
    pub fn session_auth_hash(&self) -> (r: &[u8])
        ensures
            r@ == encode_utf8(self.password@),
    {
        self.password.as_str().as_bytes()
    }
}

pub struct Credentials {
    pub email: String,
    pub password: String,
}

#[derive(Debug)]
pub enum AuthenticationError {
    HashPasswordError(HashPasswordError),
}

/// What `authenticate` may return, given the password typed in and the
/// account found under the e-mail address, if any.
pub open spec fn authentication_outcome(
    password: Seq<char>,
    found: Option<AuthUser>,
    r: Result<Option<AuthUser>, AuthenticationError>,
) -> bool {
    match found {
        Some(user) => r == Ok::<Option<AuthUser>, AuthenticationError>(
            if argon2_accepts(encode_utf8(password), user.password@) {
                Some(user)
            } else {
                None
            },
        ),
        None => r matches Ok(v) ==> v is None,
    }
}

/// Decides a sign-in attempt once the account under the e-mail address has
/// been looked up. An unknown address still costs one password hash, so that
/// it takes about as long as a wrong password. Only a hashing failure is an
/// error; a refusal is `Ok(None)`.
pub fn authenticate(creds: &Credentials, found: Option<AuthUser>) -> (r: Result<
    Option<AuthUser>,
    AuthenticationError,
>)
    ensures
        authentication_outcome(creds.password@, found, r),
{
    let password = creds.password.as_str().as_bytes();
    match found {
        Some(user) => {
            if verify_password(password, user.password.as_str()) {
                Ok(Some(user))
            } else {
                Ok(None)
            }
        },
        None => {
            match hash_password(password) {
                Ok(_) => Ok(None),
                Err(e) => Err(AuthenticationError::HashPasswordError(e)),
            }
        },
    }
}

/// An unknown e-mail address and a known one with a wrong password are
/// refused alike: both attempts end in the same `Ok(None)`.
pub proof fn lemma_refusals_look_alike(
    password: Seq<char>,
    user: AuthUser,
    unknown: Result<Option<AuthUser>, AuthenticationError>,
    wrong: Result<Option<AuthUser>, AuthenticationError>,
)
    requires
        authentication_outcome(password, None, unknown),
        unknown is Ok,
        !argon2_accepts(encode_utf8(password), user.password@),
        authentication_outcome(password, Some(user), wrong),
    ensures
        unknown == wrong,
        wrong == Ok::<Option<AuthUser>, AuthenticationError>(None),
{
}

/// A password signs in to an account whose stored hash was derived from it.
pub proof fn lemma_hashed_password_signs_in(
    password: Seq<char>,
    hashed: Result<String, HashPasswordError>,
    user: AuthUser,
    r: Result<Option<AuthUser>, AuthenticationError>,
)
    requires
        hashed matches Ok(h) ==> argon2_accepts(encode_utf8(password), h@),
        hashed matches Ok(h) && user.password@ == h@,
        authentication_outcome(password, Some(user), r),
    ensures
        r == Ok::<Option<AuthUser>, AuthenticationError>(Some(user)),
{
}

} // verus!
