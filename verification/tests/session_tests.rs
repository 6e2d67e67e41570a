use craftcms::models::{ErrorKind, Failure, User};
use craftcms::session::{
    authenticate, create_session, create_user, current_time, grant, password_outcome,
    session_of_row, stored_expiry, user_with_hash, verify_session, verify_user, Session,
    SESSION_SECONDS,
};

fn user(id: i64, email: &str, password: &str) -> User {
    let mut stored = create_user(email, password).unwrap();
    stored.id = id;
    stored
}

#[test]
fn new_user_has_a_salted_argon2_hash() {
    let one = create_user("a@example.com", "secret").unwrap();
    let two = create_user("a@example.com", "secret").unwrap();
    assert_eq!(one.email, "a@example.com");
    assert_eq!(one.id, 0);
    assert_eq!(one.access_token, None);
    assert!(one.password_hash.starts_with("$argon2id$"));
    assert_ne!(one.password_hash, "secret");
    assert_ne!(one.password_hash, two.password_hash);
}

#[test]
fn password_is_checked_against_the_stored_hash() {
    let stored = create_user("a@example.com", "correct horse").unwrap();
    assert_eq!(verify_user(&stored.password_hash, "correct horse"), Ok(true));
    assert_eq!(verify_user(&stored.password_hash, "wrong"), Ok(false));
    let failure = verify_user("not a hash", "correct horse").unwrap_err();
    assert_eq!(failure.kind, ErrorKind::InternalFailure);
}

#[test]
fn unknown_email_and_wrong_password_fail_alike() {
    let stored = user(7, "a@example.com", "pw");
    let unknown = authenticate(None, "pw").unwrap_err();
    let wrong = authenticate(Some(&stored), "other").unwrap_err();
    assert_eq!(unknown.kind, ErrorKind::InvalidCredentials);
    assert_eq!(unknown, wrong);
    assert_eq!(unknown.detail, "Invalid credentials");
    assert_eq!(authenticate(Some(&stored), "pw"), Ok(7));
}

#[test]
fn unreadable_stored_hash_is_an_internal_failure() {
    let broken = User {
        id: 1,
        email: "a@example.com".to_string(),
        password_hash: "garbage".to_string(),
        access_token: None,
    };
    assert_eq!(authenticate(Some(&broken), "pw").unwrap_err().kind, ErrorKind::InternalFailure);
}

#[test]
fn grant_follows_the_check() {
    assert_eq!(grant(Some(3), Ok(true)), Ok(3));
    assert_eq!(grant(Some(3), Ok(false)).unwrap_err().kind, ErrorKind::InvalidCredentials);
    assert_eq!(grant(None, Ok(true)).unwrap_err().kind, ErrorKind::InvalidCredentials);
    let failure = Failure::internal("bad".to_string());
    assert_eq!(grant(Some(3), Err(failure.clone())), Err(failure));
    assert_eq!(password_outcome(Ok(true)), Ok(true));
    assert_eq!(password_outcome(Err("bad".to_string())), Err(Failure::internal("bad".to_string())));
}

#[test]
fn user_with_hash_keeps_the_hash_or_the_error() {
    let ok = user_with_hash("a@b.c", Ok("$hash".to_string())).unwrap();
    assert_eq!(ok.password_hash, "$hash");
    assert_eq!(ok.email, "a@b.c");
    let failure = user_with_hash("a@b.c", Err("salt invalid".to_string())).unwrap_err();
    assert_eq!(failure, Failure::internal("salt invalid".to_string()));
}

#[test]
fn session_is_valid_until_its_expiry() {
    let session = Session::issue("token".to_string(), 5, 1_000).unwrap();
    assert_eq!(SESSION_SECONDS, 86_400);
    assert_eq!(session.created_at, 1_000);
    assert_eq!(session.expires_at, 87_400);
    assert_eq!(session.user_id, 5);
    assert!(session.is_valid_at(1_000));
    assert!(session.is_valid_at(87_399));
    assert!(!session.is_valid_at(87_400));
    assert!(!session.is_valid_at(87_401));
    assert!(verify_session(Some(&session), 1_000));
    assert!(!verify_session(Some(&session), 87_400));
}

#[test]
fn revoked_or_unknown_token_is_not_valid() {
    assert!(!verify_session(None, 0));
    assert!(!verify_session(None, i64::MIN));
}

#[test]
fn session_cannot_be_issued_past_the_end_of_time() {
    let failure = Session::issue("t".to_string(), 1, i64::MAX - 86_399).unwrap_err();
    assert_eq!(failure, Failure::internal("the expiry is out of range".to_string()));
    let last = Session::issue("t".to_string(), 1, i64::MAX - 86_400).unwrap();
    assert_eq!(last.expires_at, i64::MAX);
}

#[test]
fn created_session_is_valid_now_and_has_a_fresh_token() {
    let before = current_time();
    let one = create_session(11).unwrap();
    let two = create_session(11).unwrap();
    assert!(before > 1_600_000_000);
    assert_eq!(one.user_id, 11);
    assert_eq!(one.token.len(), 36);
    assert_ne!(one.token, two.token);
    assert_eq!(one.expires_at, one.created_at + 86_400);
    assert!(one.created_at >= before);
    assert!(verify_session(Some(&one), current_time()));
    assert!(!verify_session(Some(&one), one.expires_at));
}

#[test]
fn expiry_is_written_and_read_as_a_utc_timestamp() {
    let session = Session {
        token: "t".to_string(),
        user_id: 1,
        created_at: 1_431_561_600,
        expires_at: 1_431_648_000,
    };
    assert_eq!(session.expires_at_text(), Some("2015-05-15 00:00:00".to_string()));
    let read =
        Session::from_row("t".to_string(), 1, "2015-05-14 00:00:00", "2015-05-15 00:00:00").unwrap();
    assert_eq!(read, session);
    assert_eq!(Session::from_row("t".to_string(), 1, "yesterday", "2015-05-15 00:00:00"), None);
    assert_eq!(Session::from_row("t".to_string(), 1, "2015-05-14 00:00:00", "1431648000"), None);
    let far = Session { token: "t".to_string(), user_id: 1, created_at: 0, expires_at: i64::MAX };
    assert_eq!(far.expires_at_text(), None);
    assert_eq!(Session::from_times("t".to_string(), 1, Some(1), None), None);
}

#[test]
fn session_rows_are_read_or_refused() {
    assert_eq!(session_of_row(None), Ok(None));
    let row = (
        "t".to_string(),
        3,
        "2015-05-14 00:00:00".to_string(),
        "2015-05-15 00:00:00".to_string(),
    );
    assert_eq!(
        session_of_row(Some(row)),
        Ok(Some(Session {
            token: "t".to_string(),
            user_id: 3,
            created_at: 1_431_561_600,
            expires_at: 1_431_648_000,
        }))
    );
    let broken = ("t".to_string(), 3, "2015-05-14 00:00:00".to_string(), "soon".to_string());
    assert_eq!(
        session_of_row(Some(broken)),
        Err(Failure::internal("the session has unreadable times".to_string()))
    );
}

#[test]
fn expiry_is_stored_or_refused() {
    let session = Session::issue("t".to_string(), 1, 1_431_561_600).unwrap();
    assert_eq!(stored_expiry(&session), Ok("2015-05-15 00:00:00".to_string()));
    let far = Session { token: "t".to_string(), user_id: 1, created_at: 0, expires_at: i64::MAX };
    assert_eq!(
        stored_expiry(&far),
        Err(Failure::internal("the expiry cannot be written".to_string()))
    );
}
