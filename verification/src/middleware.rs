//! The guard of the admin endpoints: a request passes only with the token
//! of a session that is still valid.

use crate::models::{ErrorKind, Failure, FailureView, RedirectToLogin};
use crate::session::{current_time, session_is_valid, verify_session, Session, SessionView};
use vstd::prelude::*;
use vstd::string::*;

verus! {

/// The refusal of a request by the guard.
#[derive(Debug, Clone, PartialEq, Eq)]
pub enum Rejection {
    /// The request carries no valid session: send it to the login page.
    Redirect(RedirectToLogin),
    /// The request cannot be judged: it fails.
    Failed(Failure),
}

/// What a `Rejection` holds, as mathematical values.
pub enum RejectionView {
    Redirect,
    Failed(FailureView),
}

impl View for Rejection {
    type V = RejectionView;

    open spec fn view(&self) -> RejectionView {
        match *self {
            Rejection::Redirect(_) => RejectionView::Redirect,
            Rejection::Failed(failure) => RejectionView::Failed(failure@),
        }
    }
}

/// The session of an optional session, as mathematical values.
pub open spec fn optional_session(session: Option<Session>) -> Option<SessionView> {
    match session {
        Some(s) => Some(s@),
        None => None,
    }
}

/// The failure of a request whose session could not be looked up.
pub open spec fn lookup_failed() -> FailureView {
    FailureView { kind: ErrorKind::InternalFailure, detail: "Authentication error"@ }
}

/// The failure of a request when the lock on the database cannot be taken.
pub open spec fn lock_failure() -> FailureView {
    FailureView { kind: ErrorKind::InternalFailure, detail: "Internal server error"@ }
}

/// Whether a request passes the guard, given what the lookup of its token
/// found and the time: it passes with a session that has not expired, is
/// sent to the login page without one, and fails with an internal failure
/// where the lookup failed.
pub open spec fn admission(lookup: Result<Option<SessionView>, ()>, now: int) -> Result<
    (),
    RejectionView,
> {
    match lookup {
        Err(_) => Err(RejectionView::Failed(lookup_failed())),
        Ok(session) => if session_is_valid(session, now) {
            Ok(())
        } else {
            Err(RejectionView::Redirect)
        },
    }
}

/// What the lookup of a token found, as mathematical values.
pub open spec fn lookup_view(lookup: Result<Option<Session>, Failure>) -> Result<
    Option<SessionView>,
    (),
> {
    match lookup {
        Ok(session) => Ok(optional_session(session)),
        Err(_) => Err(()),
    }
}

/// What a verdict of the guard holds, as mathematical values.
pub open spec fn admission_result(r: Result<(), Rejection>) -> Result<(), RejectionView> {
    match r {
        Ok(_) => Ok(()),
        Err(rejection) => Err(rejection@),
    }
}

/// The first step of the guard: a request without a session cookie is sent
/// to the login page, and the token of any other is to be looked up.
pub fn with_auth(session: Option<String>) -> (r: Result<String, Rejection>)
    ensures
        match r {
            Ok(token) => session matches Some(s) && token@ == s@,
            Err(rejection) => session is None && rejection@ == RejectionView::Redirect,
        },
{
    match session {
        Some(token) => Ok(token),
        None => Err(Rejection::Redirect(RedirectToLogin)),
    }
}

/// The second step of the guard: whether the request passes, given what the
/// lookup of its token found and the time `now`.
pub fn check_session(lookup: Result<Option<Session>, Failure>, now: i64) -> (r: Result<
    (),
    Rejection,
>)
    ensures
        admission_result(r) == admission(lookup_view(lookup), now as int),
{
    match lookup {
        Err(_) => Err(Rejection::Failed(Failure::internal(String::from_str("Authentication error")))),
        Ok(session) => {
            if verify_session(session.as_ref(), now) {
                Ok(())
            } else {
                Err(Rejection::Redirect(RedirectToLogin))
            }
        },
    }
}

/// The second step of the guard at the time of the clock: whether the
/// request passes, given what the lookup of its token found.
pub fn check_session_now(lookup: Result<Option<Session>, Failure>) -> (r: Result<(), Rejection>)
    ensures
        exists|now: i64| #[trigger] admission(lookup_view(lookup), now as int) == admission_result(r),
{
    let now = current_time();
    let r = check_session(lookup, now);
    assert(admission(lookup_view(lookup), now as int) == admission_result(r));
    r
}

/// The failure of a request when the lock on the database cannot be taken:
/// an internal failure, answered with a server error.
pub fn lock_failed() -> (r: Failure)
    ensures
        r@ == lock_failure(),
{
    Failure::internal(String::from_str("Internal server error"))
}

} // verus!
