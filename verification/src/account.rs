//! Registration and login: what is asked of a password and a user name, and
//! how a session is issued once the user store has answered.

use vstd::prelude::*;
use vstd::string::StringSliceAdditionalSpecFns;
use crate::recency::after_write;
use crate::session::{Session, SessionRegistry};

verus! {

/// The least number of bytes in a password.
pub const MIN_PASSWORD_BYTES: usize = 6;

/// `Uuid::new_v4`: the 128 bits of a new random identifier. The value differs
/// from call to call, so nothing is claimed of it. The call panics where the
/// operating system has no random bytes to give, which no argument decides.
#[verifier::external_body]
pub(crate) fn fresh_token() -> (token: u128) {
    uuid::Uuid::new_v4().as_u128()
}

/// A password is acceptable when it has at least six bytes.
pub fn check_password(password: &str) -> (ok: bool)
    ensures
        ok == (password.spec_bytes().len() >= MIN_PASSWORD_BYTES),
{
    password.as_bytes().len() >= MIN_PASSWORD_BYTES
}

/// A user name is acceptable when it is not empty.
pub fn check_username(username: &str) -> (ok: bool)
    ensures
        ok == (username@.len() > 0),
{
    !username.is_empty()
}

/// How a registration ended.
#[derive(Clone, Copy, Debug, PartialEq, Eq, Structural)]
pub enum UserRegisterState {
    Success,
    PasswordTooWeak,
    OtherError,
}

/// The answer to a registration.
#[derive(Clone, Copy, Debug, PartialEq, Eq, Structural)]
pub struct UserRegisterResultInfo {
    pub state: UserRegisterState,
    pub session_info: Option<Session>,
    pub user_id: Option<u64>,
}

/// How a login ended.
#[derive(Clone, Copy, Debug, PartialEq, Eq, Structural)]
pub enum UserLoginState {
    Success,
    WrongPassword,
    OtherError,
}

/// The answer to a login.
#[derive(Clone, Copy, Debug, PartialEq, Eq, Structural)]
pub struct UserLoginInfo {
    pub state: UserLoginState,
    pub session_info: Option<Session>,
}

/// What the user store said of a login attempt.
#[derive(Clone, Copy, Debug, PartialEq, Eq, Structural)]
pub enum CredentialCheck {
    /// The user could not be read.
    Unreadable,
    /// The password does not match the stored one.
    Mismatch,
    /// The password matches.
    Match,
}

/// Why a registration is refused before the user store is asked, if it is: a
/// weak password first, an empty user name second.
pub open spec fn registration_refusal(username: &str, password: &str) -> Option<
    UserRegisterState,
> {
    if password.spec_bytes().len() < MIN_PASSWORD_BYTES {
        Some(UserRegisterState::PasswordTooWeak)
    } else if username@.len() == 0 {
        Some(UserRegisterState::OtherError)
    } else {
        None
    }
}

/// Vets a registration request before the user store is asked.
pub fn vet_registration(username: &str, password: &str) -> (refusal: Option<UserRegisterResultInfo>)
    ensures
        match registration_refusal(username, password) {
            Some(state) => refusal == Some(
                UserRegisterResultInfo { state, session_info: None, user_id: None },
            ),
            None => refusal.is_none(),
        },
{
    if !check_password(password) {
        Some(
            UserRegisterResultInfo {
                state: UserRegisterState::PasswordTooWeak,
                session_info: None,
                user_id: None,
            },
        )
    } else if !check_username(username) {
        Some(
            UserRegisterResultInfo {
                state: UserRegisterState::OtherError,
                session_info: None,
                user_id: None,
            },
        )
    } else {
        None
    }
}

/// Issues a new session for `user`: a fresh token, bound in the registry as
/// [`SessionRegistry::bind`] binds it.
pub fn open_session(sessions: &mut SessionRegistry, user: u64) -> (session: Session)
    requires
        old(sessions).wf(),
    ensures
        final(sessions).wf(),
        final(sessions).capacity() == old(sessions).capacity(),
        final(sessions).entries() == after_write(
            old(sessions).entries(),
            old(sessions).capacity(),
            session.session_id,
            user,
        ),
        final(sessions).user_of(session.session_id) == Some(user),
{
    let session = Session { session_id: fresh_token() };
    sessions.bind(session.session_id, user);
    session
}

/// Concludes a registration with the user store's answer: the new user's
/// identity, or `None` where the user could not be stored. A stored user gets
/// a session at once.
pub fn conclude_registration(sessions: &mut SessionRegistry, stored: Option<u64>) -> (answer:
    UserRegisterResultInfo)
    requires
        old(sessions).wf(),
    ensures
        final(sessions).wf(),
        final(sessions).capacity() == old(sessions).capacity(),
        match stored {
            Some(user) => {
                &&& answer.state == UserRegisterState::Success
                &&& answer.user_id == Some(user)
                &&& answer.session_info matches Some(session)
                &&& final(sessions).user_of(session.session_id) == Some(user)
                &&& final(sessions).entries() == after_write(
                    old(sessions).entries(),
                    old(sessions).capacity(),
                    session.session_id,
                    user,
                )
            },
            None => {
                &&& answer == UserRegisterResultInfo {
                    state: UserRegisterState::OtherError,
                    session_info: None,
                    user_id: None,
                }
                &&& final(sessions).entries() == old(sessions).entries()
            },
        },
{
    match stored {
        Some(user) => {
            let session = open_session(sessions, user);
            UserRegisterResultInfo {
                state: UserRegisterState::Success,
                session_info: Some(session),
                user_id: Some(user),
            }
        },
        None => UserRegisterResultInfo {
            state: UserRegisterState::OtherError,
            session_info: None,
            user_id: None,
        },
    }
}

/// Whether a login is refused before the user store is asked: a password too
/// short to be anyone's is wrong.
pub fn vet_login(password: &str) -> (refusal: Option<UserLoginInfo>)
    ensures
        refusal == (if password.spec_bytes().len() < MIN_PASSWORD_BYTES {
            Some(UserLoginInfo { state: UserLoginState::WrongPassword, session_info: None })
        } else {
            None
        }),
{
    if !check_password(password) {
        Some(UserLoginInfo { state: UserLoginState::WrongPassword, session_info: None })
    } else {
        None
    }
}

/// Concludes a login with the user store's verdict. Only a matching password
/// opens a session.
pub fn conclude_login(
    sessions: &mut SessionRegistry,
    user: u64,
    verdict: CredentialCheck,
) -> (answer: UserLoginInfo)
    requires
        old(sessions).wf(),
    ensures
        final(sessions).wf(),
        final(sessions).capacity() == old(sessions).capacity(),
        match verdict {
            CredentialCheck::Match => {
                &&& answer.state == UserLoginState::Success
                &&& answer.session_info matches Some(session)
                &&& final(sessions).user_of(session.session_id) == Some(user)
                &&& final(sessions).entries() == after_write(
                    old(sessions).entries(),
                    old(sessions).capacity(),
                    session.session_id,
                    user,
                )
            },
            CredentialCheck::Mismatch => {
                &&& answer == UserLoginInfo {
                    state: UserLoginState::WrongPassword,
                    session_info: None,
                }
                &&& final(sessions).entries() == old(sessions).entries()
            },
            CredentialCheck::Unreadable => {
                &&& answer == UserLoginInfo {
                    state: UserLoginState::OtherError,
                    session_info: None,
                }
                &&& final(sessions).entries() == old(sessions).entries()
            },
        },
{
    match verdict {
        CredentialCheck::Match => {
            let session = open_session(sessions, user);
            UserLoginInfo { state: UserLoginState::Success, session_info: Some(session) }
        },
        CredentialCheck::Mismatch => UserLoginInfo {
            state: UserLoginState::WrongPassword,
            session_info: None,
        },
        CredentialCheck::Unreadable => UserLoginInfo {
            state: UserLoginState::OtherError,
            session_info: None,
        },
    }
}

} // verus!
