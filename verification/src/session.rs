//! The session manager: how a password is stored and checked, how a session
//! is issued, and until when it is valid.

use argon2::password_hash::{PasswordHasher, PasswordVerifier};
use crate::models::{ErrorKind, Failure, FailureView, User};
use vstd::prelude::*;
use vstd::string::*;

verus! {

/// The time for which a session is valid after it was issued: 24 hours, in seconds.
pub const SESSION_SECONDS: i64 = 86_400;

/// The text that Argon2, with the crate's default parameters, makes of a
/// password and a salt, or the words of the error it reports.
pub uninterp spec fn password_hash(password: Seq<char>, salt: Seq<char>) -> Result<
    Seq<char>,
    Seq<char>,
>;

/// Whether Argon2 finds that a password matches a stored hash, or the words
/// of the error with which the stored text is refused as a hash.
pub uninterp spec fn password_verdict(password: Seq<char>, stored_hash: Seq<char>) -> Result<
    bool,
    Seq<char>,
>;

/// The text `YYYY-MM-DD HH:MM:SS` that `chrono` writes for a number of
/// seconds since the epoch, in UTC, or `None` where the number is out of its range.
pub uninterp spec fn timestamp_text(seconds: int) -> Option<Seq<char>>;

/// The number of seconds since the epoch that `chrono` reads from a text of
/// the form `YYYY-MM-DD HH:MM:SS`, taken as UTC, or `None` where it refuses
/// the text.
pub uninterp spec fn timestamp_seconds(text: Seq<char>) -> Option<int>;

/// Calls `SaltString::generate` with the operating system's random number
/// generator. The salt is random: nothing is claimed of it.
#[verifier::external_body]
fn random_salt() -> String {
    let salt = argon2::password_hash::SaltString::generate(
        &mut argon2::password_hash::rand_core::OsRng,
    );
    salt.as_str().to_string()
}

/// Calls `Argon2::default().hash_password` with the salt read back by
/// `SaltString::from_b64`. The contract claims only that the outcome is the
/// one that `password_hash` names for the password and the salt.
#[verifier::external_body]
fn argon2_hash(password: &str, salt: &str) -> (r: Result<String, String>)
    ensures
        match r {
            Ok(hash) => password_hash(password@, salt@) == Ok::<Seq<char>, Seq<char>>(hash@),
            Err(words) => password_hash(password@, salt@) == Err::<Seq<char>, Seq<char>>(words@),
        },
{
    let salt = match argon2::password_hash::SaltString::from_b64(salt) {
        Ok(salt) => salt,
        Err(e) => return Err(e.to_string()),
    };
    match argon2::Argon2::default().hash_password(password.as_bytes(), &salt) {
        Ok(hash) => Ok(hash.to_string()),
        Err(e) => Err(e.to_string()),
    }
}

/// Calls `PasswordHash::new` on the stored text and
/// `Argon2::default().verify_password` on the result. The contract claims
/// only that the outcome is the one that `password_verdict` names for the
/// password and the stored text.
#[verifier::external_body]
fn argon2_verify(password: &str, stored_hash: &str) -> (r: Result<bool, String>)
    ensures
        match r {
            Ok(matches) => password_verdict(password@, stored_hash@) == Ok::<bool, Seq<char>>(
                matches,
            ),
            Err(words) => password_verdict(password@, stored_hash@) == Err::<bool, Seq<char>>(
                words@,
            ),
        },
{
    match argon2::password_hash::PasswordHash::new(stored_hash) {
        Ok(parsed) => Ok(
            argon2::Argon2::default().verify_password(password.as_bytes(), &parsed).is_ok(),
        ),
        Err(e) => Err(e.to_string()),
    }
}

/// Calls `Uuid::new_v4` and writes the result in its hyphenated form. The
/// token is random: the contract claims only its length, that of every
/// hyphenated UUID.
#[verifier::external_body]
fn random_token() -> (r: String)
    ensures
        r@.len() == 36,
{
    uuid::Uuid::new_v4().to_string()
}

/// Calls `chrono::Utc::now` and takes its number of seconds since the
/// epoch. The clock decides: nothing is claimed of the result. The call
/// panics on a machine whose clock stands before the epoch.
#[verifier::external_body]
fn clock_seconds() -> i64 {
    chrono::Utc::now().timestamp()
}

/// Calls `chrono::DateTime::from_timestamp` and writes the result in the
/// format `%Y-%m-%d %H:%M:%S`. The contract claims only that the outcome is
/// the one that `timestamp_text` names for the number of seconds.
#[verifier::external_body]
fn chrono_format(seconds: i64) -> (r: Option<String>)
    ensures
        match r {
            Some(text) => timestamp_text(seconds as int) == Some(text@),
            None => timestamp_text(seconds as int) is None,
        },
{
    match chrono::DateTime::from_timestamp(seconds, 0) {
        Some(time) => Some(time.format("%Y-%m-%d %H:%M:%S").to_string()),
        None => None,
    }
}

/// Calls `chrono::NaiveDateTime::parse_from_str` with the format
/// `%Y-%m-%d %H:%M:%S` and takes the result's number of seconds since the
/// epoch, in UTC. The contract claims only that the outcome is the one that
/// `timestamp_seconds` names for the text.
#[verifier::external_body]
fn chrono_parse(text: &str) -> (r: Option<i64>)
    ensures
        match r {
            Some(seconds) => timestamp_seconds(text@) == Some(seconds as int),
            None => timestamp_seconds(text@) is None,
        },
{
    match chrono::NaiveDateTime::parse_from_str(text, "%Y-%m-%d %H:%M:%S") {
        Ok(time) => Some(time.and_utc().timestamp()),
        Err(_) => None,
    }
}

/// The failure of a login: the same for an unknown email and for a wrong
/// password, so that the answer does not tell which emails have accounts.
pub open spec fn invalid_credentials() -> FailureView {
    FailureView { kind: ErrorKind::InvalidCredentials, detail: "Invalid credentials"@ }
}

/// What the check of a password says of a login, given the verdict of the
/// hashing function: a match passes, a mismatch is `InvalidCredentials`,
/// and a stored hash that cannot be read is an `InternalFailure`.
pub open spec fn password_check(verdict: Result<bool, Seq<char>>) -> Result<bool, FailureView> {
    match verdict {
        Ok(matches) => Ok(matches),
        Err(words) => Err(FailureView { kind: ErrorKind::InternalFailure, detail: words }),
    }
}

/// Whether the login of an account succeeds, given whether an account has
/// the email and what the check of the password said.
pub open spec fn granted(user_id: Option<i64>, check: Result<bool, FailureView>) -> Result<
    i64,
    FailureView,
> {
    match user_id {
        None => Err(invalid_credentials()),
        Some(id) => match check {
            Ok(true) => Ok(id),
            Ok(false) => Err(invalid_credentials()),
            Err(failure) => Err(failure),
        },
    }
}

/// The outcome of a login with a password, for the account that has the
/// email, if any.
pub open spec fn authentication(user: Option<User>, password: Seq<char>) -> Result<
    i64,
    FailureView,
> {
    match user {
        None => Err(invalid_credentials()),
        Some(u) => granted(Some(u.id), password_check(password_verdict(password, u.password_hash@))),
    }
}

/// `Ok` of a number or the view of a failure.
pub open spec fn id_or_failure(r: Result<i64, Failure>) -> Result<i64, FailureView> {
    match r {
        Ok(id) => Ok(id),
        Err(failure) => Err(failure@),
    }
}

/// `Ok` of a truth value or the view of a failure.
pub open spec fn flag_or_failure(r: Result<bool, Failure>) -> Result<bool, FailureView> {
    match r {
        Ok(flag) => Ok(flag),
        Err(failure) => Err(failure@),
    }
}

/// The account to store for an email, given what hashing its password gave.
/// The account has no id yet: the database assigns it.
pub fn user_with_hash(email: &str, hashed: Result<String, String>) -> (r: Result<User, Failure>)
    ensures
        match r {
            Ok(user) => {
                &&& hashed matches Ok(hash)
                &&& user.password_hash@ == hash@
                &&& user.email@ == email@
                &&& user.id == 0
                &&& user.access_token is None
            },
            Err(failure) => {
                &&& hashed matches Err(words)
                &&& failure@ == (FailureView { kind: ErrorKind::InternalFailure, detail: words@ })
            },
        },
{
    match hashed {
        Ok(hash) => Ok(
            User { id: 0, email: String::from_str(email), password_hash: hash, access_token: None },
        ),
        Err(words) => Err(Failure::internal(words)),
    }
}

/// The account to store for a new user: the email, and the password hashed
/// with a fresh random salt.
pub fn create_user(email: &str, password: &str) -> (r: Result<User, Failure>)
    ensures
        match r {
            Ok(user) => {
                &&& exists|salt: Seq<char>| #[trigger]
                    password_hash(password@, salt) == Ok::<Seq<char>, Seq<char>>(
                        user.password_hash@,
                    )
                &&& user.email@ == email@
                &&& user.id == 0
                &&& user.access_token is None
            },
            Err(failure) => {
                &&& exists|salt: Seq<char>| #[trigger]
                    password_hash(password@, salt) == Err::<Seq<char>, Seq<char>>(failure.detail@)
                &&& failure.kind == ErrorKind::InternalFailure
            },
        },
{
    let salt = random_salt();
    user_with_hash(email, argon2_hash(password, salt.as_str()))
}

/// What the check of a password says, given the verdict of the hashing function.
pub fn password_outcome(verdict: Result<bool, String>) -> (r: Result<bool, Failure>)
    ensures
        flag_or_failure(r) == password_check(
            match verdict {
                Ok(matches) => Ok(matches),
                Err(words) => Err(words@),
            },
        ),
{
    match verdict {
        Ok(matches) => Ok(matches),
        Err(words) => Err(Failure::internal(words)),
    }
}

/// Checks a password against the hash that is stored for an account.
pub fn verify_user(stored_hash: &str, password: &str) -> (r: Result<bool, Failure>)
    ensures
        flag_or_failure(r) == password_check(password_verdict(password@, stored_hash@)),
{
    password_outcome(argon2_verify(password, stored_hash))
}

/// Whether a login succeeds, given whether an account has the email and
/// what the check of the password said.
pub fn grant(user_id: Option<i64>, check: Result<bool, Failure>) -> (r: Result<i64, Failure>)
    ensures
        id_or_failure(r) == granted(user_id, flag_or_failure(check)),
{
    match user_id {
        None => Err(refusal()),
        Some(id) => match check {
            Ok(matches) => {
                if matches {
                    Ok(id)
                } else {
                    Err(refusal())
                }
            },
            Err(failure) => Err(failure),
        },
    }
}

/// The failure of a login.
fn refusal() -> (r: Failure)
    ensures
        r@ == invalid_credentials(),
{
    Failure::new(ErrorKind::InvalidCredentials, String::from_str("Invalid credentials"))
}

/// Checks the password of a login against the account that has its email,
/// if any, and gives the id of the account. An unknown email and a wrong
/// password fail alike.
pub fn authenticate(user: Option<&User>, password: &str) -> (r: Result<i64, Failure>)
    ensures
        id_or_failure(r) == authentication(
            match user {
                Some(u) => Some(*u),
                None => None,
            },
            password@,
        ),
{
    match user {
        None => grant(None, Ok(false)),
        Some(u) => grant(Some(u.id), verify_user(u.password_hash.as_str(), password)),
    }
}

/// A login with a wrong password fails exactly as a login with an unknown
/// email does: the failure does not tell which emails have accounts.
pub proof fn login_failures_look_alike(user: User, password: Seq<char>)
    requires
        password_verdict(password, user.password_hash@) == Ok::<bool, Seq<char>>(false),
    ensures
        authentication(Some(user), password) == authentication(None, password),
        authentication(None, password) == Err::<i64, FailureView>(invalid_credentials()),
{
}

/// A grant of access: an opaque token, the account it was issued to, and
/// the times, in seconds since the epoch, at which it was issued and at
/// which it expires.
#[derive(Debug, Clone, PartialEq, Eq)]
pub struct Session {
    pub token: String,
    pub user_id: i64,
    pub created_at: i64,
    pub expires_at: i64,
}

/// What a `Session` holds, as mathematical values.
pub struct SessionView {
    pub token: Seq<char>,
    pub user_id: int,
    pub created_at: int,
    pub expires_at: int,
}

impl View for Session {
    type V = SessionView;

    open spec fn view(&self) -> SessionView {
        SessionView {
            token: self.token@,
            user_id: self.user_id as int,
            created_at: self.created_at as int,
            expires_at: self.expires_at as int,
        }
    }
}

/// The session that is issued with a token to an account at a time.
pub open spec fn issued(token: Seq<char>, user_id: int, now: int) -> SessionView {
    SessionView { token, user_id, created_at: now, expires_at: now + SESSION_SECONDS }
}

impl SessionView {
    /// Whether the session is valid at a time: strictly before its expiry.
    pub open spec fn is_valid_at(self, now: int) -> bool {
        now < self.expires_at
    }
}

/// Whether a token is valid at a time, given the session that is stored for
/// it, if any.
pub open spec fn session_is_valid(session: Option<SessionView>, now: int) -> bool {
    match session {
        Some(s) => s.is_valid_at(now),
        None => false,
    }
}

/// The failure to issue a session whose expiry cannot be written as a time.
pub open spec fn expiry_out_of_range() -> FailureView {
    FailureView { kind: ErrorKind::InternalFailure, detail: "the expiry is out of range"@ }
}

impl Session {
    /// Issues a session with the given token to an account at the time
    /// `now`. It expires 24 hours later. The only failure is an expiry
    /// beyond the largest time that can be written.
    pub fn issue(token: String, user_id: i64, now: i64) -> (r: Result<Session, Failure>)
        ensures
            match r {
                Ok(session) => {
                    &&& now + SESSION_SECONDS <= i64::MAX
                    &&& session@ == issued(token@, user_id as int, now as int)
                },
                Err(failure) => {
                    &&& now + SESSION_SECONDS > i64::MAX
                    &&& failure@ == expiry_out_of_range()
                },
            },
    {
        match now.checked_add(SESSION_SECONDS) {
            Some(expires_at) => Ok(Session { token, user_id, created_at: now, expires_at }),
            None => Err(Failure::internal(String::from_str("the expiry is out of range"))),
        }
    }

    /// Whether the session is valid at the time `now`.
    pub fn is_valid_at(&self, now: i64) -> (r: bool)
        ensures
            r == self@.is_valid_at(now as int),
    {
        now < self.expires_at
    }

    /// The expiry as the text that the table of sessions holds.
    pub fn expires_at_text(&self) -> (r: Option<String>)
        ensures
            match r {
                Some(text) => timestamp_text(self.expires_at as int) == Some(text@),
                None => timestamp_text(self.expires_at as int) is None,
            },
    {
        chrono_format(self.expires_at)
    }

    /// The session that a row of the table of sessions stands for, given
    /// the times that its two texts were read as: `None` where either was
    /// refused.
    pub fn from_times(
        token: String,
        user_id: i64,
        created_at: Option<i64>,
        expires_at: Option<i64>,
    ) -> (r: Option<Session>)
        ensures
            match r {
                Some(session) => {
                    &&& created_at == Some(session.created_at)
                    &&& expires_at == Some(session.expires_at)
                    &&& session.token@ == token@
                    &&& session.user_id == user_id
                },
                None => created_at is None || expires_at is None,
            },
    {
        match created_at {
            Some(created_at) => match expires_at {
                Some(expires_at) => Some(Session { token, user_id, created_at, expires_at }),
                None => None,
            },
            None => None,
        }
    }

    /// The session that a row of the table of sessions stands for.
    pub fn from_row(token: String, user_id: i64, created_at: &str, expires_at: &str) -> (r: Option<
        Session,
    >)
        ensures
            match r {
                Some(session) => {
                    &&& timestamp_seconds(created_at@) == Some(session.created_at as int)
                    &&& timestamp_seconds(expires_at@) == Some(session.expires_at as int)
                    &&& session.token@ == token@
                    &&& session.user_id == user_id
                },
                None => timestamp_seconds(created_at@) is None || timestamp_seconds(expires_at@)
                    is None,
            },
    {
        Session::from_times(token, user_id, chrono_parse(created_at), chrono_parse(expires_at))
    }
}

/// The failure to store a session whose expiry cannot be written as a text.
pub open spec fn expiry_not_written() -> FailureView {
    FailureView { kind: ErrorKind::InternalFailure, detail: "the expiry cannot be written"@ }
}

/// The failure to read a session whose times are not texts of the form
/// that the table holds.
pub open spec fn unreadable_times() -> FailureView {
    FailureView { kind: ErrorKind::InternalFailure, detail: "the session has unreadable times"@ }
}

/// The expiry of a session as the table of sessions stores it, or the
/// failure to write it: an expiry out of the range of the calendar is an
/// `InternalFailure`.
pub fn stored_expiry(session: &Session) -> (r: Result<String, Failure>)
    ensures
        match r {
            Ok(text) => timestamp_text(session.expires_at as int) == Some(text@),
            Err(failure) => {
                &&& timestamp_text(session.expires_at as int) is None
                &&& failure@ == expiry_not_written()
            },
        },
{
    match session.expires_at_text() {
        Some(text) => Ok(text),
        None => Err(Failure::internal(String::from_str("the expiry cannot be written"))),
    }
}

/// The session that the lookup of a token found, given the row of the
/// table, if there is one: its token, its account and its two times as
/// texts. No row is no session; a row whose times cannot be read is an
/// `InternalFailure`.
pub fn session_of_row(row: Option<(String, i64, String, String)>) -> (r: Result<
    Option<Session>,
    Failure,
>)
    ensures
        match row {
            None => r matches Ok(None),
            Some(columns) => match r {
                Ok(Some(session)) => {
                    &&& timestamp_seconds(columns.2@) == Some(session.created_at as int)
                    &&& timestamp_seconds(columns.3@) == Some(session.expires_at as int)
                    &&& session.token@ == columns.0@
                    &&& session.user_id == columns.1
                },
                Ok(None) => false,
                Err(failure) => {
                    &&& timestamp_seconds(columns.2@) is None || timestamp_seconds(columns.3@)
                        is None
                    &&& failure@ == unreadable_times()
                },
            },
        },
{
    match row {
        None => Ok(None),
        Some(columns) => {
            let (token, user_id, created_at, expires_at) = columns;
            match Session::from_row(token, user_id, created_at.as_str(), expires_at.as_str()) {
                Some(session) => Ok(Some(session)),
                None => Err(Failure::internal(String::from_str("the session has unreadable times"))),
            }
        },
    }
}

/// The time of the clock, in seconds since the epoch.
pub fn current_time() -> i64 {
    clock_seconds()
}

/// Issues a session to an account: a fresh random token, valid for 24 hours
/// from the time of the clock.
pub fn create_session(user_id: i64) -> (r: Result<Session, Failure>)
    ensures
        match r {
            Ok(session) => {
                &&& session.user_id == user_id
                &&& session.expires_at == session.created_at + SESSION_SECONDS
                &&& session@.is_valid_at(session.created_at as int)
                &&& session.token@.len() == 36
            },
            Err(failure) => failure@ == expiry_out_of_range(),
        },
{
    Session::issue(random_token(), user_id, clock_seconds())
}

/// Whether a token is valid at the time `now`, given the session that is
/// stored for it, if any: a session exists and `now` is before its expiry.
pub fn verify_session(session: Option<&Session>, now: i64) -> (r: bool)
    ensures
        r == session_is_valid(
            match session {
                Some(s) => Some(s@),
                None => None,
            },
            now as int,
        ),
{
    match session {
        Some(s) => s.is_valid_at(now),
        None => false,
    }
}

/// The table of sessions: the sessions that were issued and not revoked, by token.
pub struct SessionTable {
    pub sessions: Map<Seq<char>, SessionView>,
}

impl SessionTable {
    /// The table after a session is stored.
    pub open spec fn store(self, session: SessionView) -> SessionTable {
        SessionTable { sessions: self.sessions.insert(session.token, session) }
    }

    /// The table after the session of a token is revoked.
    pub open spec fn revoke(self, token: Seq<char>) -> SessionTable {
        SessionTable { sessions: self.sessions.remove(token) }
    }

    /// The session that is stored for a token, if any.
    pub open spec fn lookup(self, token: Seq<char>) -> Option<SessionView> {
        if self.sessions.dom().contains(token) {
            Some(self.sessions[token])
        } else {
            None
        }
    }

    /// Whether a token is valid at a time.
    pub open spec fn is_valid(self, token: Seq<char>, now: int) -> bool {
        session_is_valid(self.lookup(token), now)
    }
}

/// A session is valid from the moment it is issued until its expiry, 24
/// hours later, and from then on it is not.
pub proof fn session_expires(table: SessionTable, token: Seq<char>, user_id: int, now: int, at: int)
    ensures
        table.store(issued(token, user_id, now)).is_valid(token, now),
        table.store(issued(token, user_id, now)).is_valid(token, at) <==> at < now
            + SESSION_SECONDS,
{
}

/// A token is not valid once its session is revoked, at whatever time, and
/// revoking a token that has no session changes nothing.
pub proof fn session_revoked(table: SessionTable, token: Seq<char>, at: int)
    ensures
        !table.revoke(token).is_valid(token, at),
        table.revoke(token).revoke(token) == table.revoke(token),
        table.lookup(token) is None ==> table.revoke(token) == table,
        forall|other: Seq<char>|
            other != token ==> table.revoke(token).is_valid(other, at) == table.is_valid(other, at),
{
    assert(table.revoke(token).revoke(token).sessions =~= table.revoke(token).sessions);
    if table.lookup(token) is None {
        assert(table.revoke(token).sessions =~= table.sessions);
    }
}

} // verus!
