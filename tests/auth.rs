use authcore::auth::{authenticate, AuthUser, Credentials};
use authcore::operations::{
    prepare_signup, signed_in_user, signin_reply, signup_reply, CreateUserError, SigninError,
    SigninReply, SignupData, SignupError, SignupReply,
};
use authcore::password::{hash_password, verify_password};
use authcore::validation::FieldError;

fn creds(email: &str, password: &str) -> Credentials {
    Credentials { email: email.to_string(), password: password.to_string() }
}

#[test]
fn hashed_password_verifies() {
    let hash = hash_password(b"password123").unwrap();
    assert!(hash.starts_with("$argon2id$"));
    assert!(verify_password(b"password123", &hash));
    assert!(!verify_password(b"wrong", &hash));
}

#[test]
fn hashing_twice_gives_different_strings() {
    let first = hash_password(b"secret-pass").unwrap();
    let second = hash_password(b"secret-pass").unwrap();
    assert_ne!(first, second);
    assert!(verify_password(b"secret-pass", &first));
    assert!(verify_password(b"secret-pass", &second));
}

#[test]
fn malformed_hash_is_a_mismatch() {
    assert!(!verify_password(b"password123", "not a hash"));
    assert!(!verify_password(b"password123", ""));
}

#[test]
fn session_auth_hash_is_password_hash() {
    let user = AuthUser { id: 3, password: "$argon2id$abc".to_string() };
    assert_eq!(user.session_auth_hash(), b"$argon2id$abc");
}

#[test]
fn sign_in_scenario() {
    let hash = hash_password(b"password123").unwrap();
    let account = || AuthUser { id: 1, password: hash.clone() };

    let ok = authenticate(&creds("a@example.com", "password123"), Some(account())).unwrap();
    assert_eq!(ok.map(|u| u.id), Some(1));

    let wrong = authenticate(&creds("a@example.com", "wrong"), Some(account())).unwrap();
    assert!(wrong.is_none());

    let missing = authenticate(&creds("missing@example.com", "x"), None).unwrap();
    assert!(missing.is_none());
}

#[test]
fn sign_in() {
    let hash = hash_password(b"password123").unwrap();
    let user = AuthUser { id: 7, password: hash };
    let found = authenticate(&creds("test@example.com", "password123"), Some(user));
    let signed_in = signed_in_user(found).ok().unwrap();
    assert_eq!(signed_in.id, 7);
    let reply = signin_reply::<()>("test@example.com", &None, &Ok(()));
    assert_eq!(reply.status(), 200);
    match reply {
        SigninReply::SignedIn { next } => assert_eq!(next, "/protected"),
        _ => panic!("expected a sign-in"),
    }
    let reply = signin_reply::<()>("test@example.com", &Some("/elsewhere".to_string()), &Ok(()));
    match reply {
        SigninReply::SignedIn { next } => assert_eq!(next, "/elsewhere"),
        _ => panic!("expected a sign-in"),
    }
}

#[test]
fn sign_in_with_non_existing_email() {
    let found = authenticate(&creds("test@example.com", "password123"), None);
    let outcome = signed_in_user(found).map(|_| ());
    assert!(matches!(outcome, Err(SigninError::InvalidCredentialsError)));
    let reply = signin_reply("test@example.com", &None, &outcome);
    assert_eq!(reply.status(), 401);
}

#[test]
fn sign_in_with_invalid_password() {
    let hash = hash_password(b"password123").unwrap();
    let user = AuthUser { id: 1, password: hash };
    let found = authenticate(&creds("test@example.com", "invalid-password"), Some(user));
    let outcome = signed_in_user(found).map(|_| ());
    let reply = signin_reply("test@example.com", &None, &outcome);
    assert_eq!(reply.status(), 401);
    match reply {
        SigninReply::Rejected(data) => {
            assert_eq!(data.errors.general, Some(FieldError::InvalidCredentials));
            assert_eq!(data.errors.email, None);
            assert_eq!(data.values.email, "test@example.com");
        }
        _ => panic!("expected a refusal"),
    }
}

#[test]
fn unknown_email_and_wrong_password_are_refused_alike() {
    let hash = hash_password(b"password123").unwrap();
    let user = AuthUser { id: 1, password: hash };
    let wrong = authenticate(&creds("a@example.com", "nope"), Some(user)).unwrap();
    let unknown = authenticate(&creds("b@example.com", "nope"), None).unwrap();
    assert!(wrong.is_none());
    assert!(unknown.is_none());
}

#[test]
fn sign_in_failure_of_the_session_layer() {
    let outcome: Result<(), SigninError<&str>> = Err(SigninError::AuthenticationError("down"));
    assert_eq!(signin_reply("a@example.com", &None, &outcome).status(), 500);
    let failed = signed_in_user::<&str>(Err("down"));
    assert!(matches!(failed, Err(SigninError::AuthenticationError("down"))));
}

#[test]
fn sign_up() {
    let data = SignupData { email: "test@example.com".to_string(), password: "password123".to_string() };
    let row = prepare_signup::<(), ()>(data).ok().unwrap();
    assert_eq!(row.email, "test@example.com");
    assert!(verify_password(b"password123", &row.password));
    let reply = signup_reply::<(), ()>("test@example.com", &Ok(()));
    assert!(matches!(reply, SignupReply::Created));
    assert_eq!(reply.status(), 201);
}

#[test]
fn sign_up_with_already_existing_email() {
    let first = signup_reply::<(), ()>("test@example.com", &Ok(()));
    assert_eq!(first.status(), 201);
    let insert_failure = CreateUserError::from_insert_error(true, "duplicate key");
    assert!(matches!(insert_failure, CreateUserError::EmailAlreadyExistsError));
    let error = SignupError::<&str, ()>::from_create_user_error(insert_failure);
    let reply = signup_reply("test@example.com", &Err(error));
    assert_eq!(reply.status(), 409);
    match reply {
        SignupReply::EmailTaken(data) => {
            assert_eq!(data.errors.email, Some(FieldError::EmailTaken));
            assert_eq!(data.values.email, "test@example.com");
        }
        _ => panic!("expected a conflict"),
    }
}

#[test]
fn storage_failure_is_not_a_conflict() {
    let insert_failure = CreateUserError::from_insert_error(false, "connection reset");
    assert!(matches!(insert_failure, CreateUserError::DatabaseError("connection reset")));
    let error = SignupError::<&str, ()>::from_create_user_error(insert_failure);
    assert!(matches!(error, SignupError::CreateUserError(CreateUserError::DatabaseError(_))));
    assert_eq!(signup_reply("test@example.com", &Err(error)).status(), 500);
    let login_failure: SignupError<(), &str> = SignupError::LoginError("store");
    assert_eq!(signup_reply("test@example.com", &Err(login_failure)).status(), 500);
}
