//! The credential check: the one path that mints tokens. A login is compared
//! with the configured administrator's name and password, and a match is
//! answered with a token for that name in the administrator's role.

use crate::clock::unix_now;
use crate::guard::admin_role;
use crate::status::Failure;
use crate::text::owned_view;
use crate::token::{create_jwt_at, is_issue_of, round_trips, IssueError};
use vstd::prelude::*;

verus! {

/// The configuration that the service is started with. It is built once and
/// handed on by reference; nothing in the library changes it. It has no
/// `Debug` form, so that the secret and the password cannot end up in a log
/// by way of a format string.
#[derive(Clone)]
pub struct Settings {
    /// The secret that tokens are signed and verified with.
    pub jwt_secret: String,
    /// The administrator's name.
    pub admin_username: String,
    /// The administrator's password.
    pub admin_password: String,
}

/// Why no configuration could be built.
#[derive(Clone, Copy, Debug, PartialEq, Eq, Structural)]
pub enum SettingsError {
    /// No signing secret was given.
    MissingSecret,
    /// No administrator's password was given.
    MissingPassword,
}

/// The body of a login request. Like `Settings`, it has no `Debug` form.
#[derive(Clone)]
pub struct LoginRequest {
    pub username: String,
    pub password: String,
}

/// The body of the answer to an accepted login.
#[derive(Debug, Clone)]
pub struct LoginResponse {
    pub token: String,
}

/// Why a login got no token.
#[derive(Clone, Copy, Debug, PartialEq, Eq, Structural)]
pub enum LoginError {
    /// The name or the password is not the administrator's. Which of the two
    /// is not told.
    Rejected,
    /// The credentials are right, but no token could be issued.
    Internal,
}

impl LoginError {
    /// How the failure is reported to a client.
    pub open spec fn as_failure(self) -> Failure {
        match self {
            LoginError::Rejected => Failure::Unauthenticated,
            LoginError::Internal => Failure::InternalError,
        }
    }

    /// How the failure is reported to a client.
    pub fn failure(&self) -> (failure: Failure)
        ensures
            failure == self.as_failure(),
    {
        match self {
            LoginError::Rejected => Failure::Unauthenticated,
            LoginError::Internal => Failure::InternalError,
        }
    }
}

/// The name that stands for the administrator where none is configured.
pub open spec fn default_admin_username() -> Seq<char> {
    "admin"@
}

impl Settings {
    /// Builds the configuration from the three values that the environment
    /// may or may not provide. The secret and the password are required, in
    /// that order; the name falls back to `admin`.
    pub fn load(
        jwt_secret: Option<String>,
        admin_username: Option<String>,
        admin_password: Option<String>,
    ) -> (settings: Result<Settings, SettingsError>)
        ensures
            match settings {
                Ok(s) => owned_view(jwt_secret) == Some(s.jwt_secret@) && owned_view(
                    admin_password,
                ) == Some(s.admin_password@) && s.admin_username@ == (match admin_username {
                    Some(name) => name@,
                    None => default_admin_username(),
                }),
                Err(SettingsError::MissingSecret) => jwt_secret is None,
                Err(SettingsError::MissingPassword) => jwt_secret is Some && admin_password
                    is None,
            },
    {
        let jwt_secret = match jwt_secret {
            Some(secret) => secret,
            None => { return Err(SettingsError::MissingSecret); },
        };
        let admin_password = match admin_password {
            Some(password) => password,
            None => { return Err(SettingsError::MissingPassword); },
        };
        let admin_username = match admin_username {
            Some(name) => name,
            None => String::from_str("admin"),
        };
        Ok(Settings { jwt_secret, admin_username, admin_password })
    }
}

/// The submitted name and password are exactly the configured ones.
pub open spec fn credentials_match(
    username: Seq<char>,
    password: Seq<char>,
    admin_username: Seq<char>,
    admin_password: Seq<char>,
) -> bool {
    username == admin_username && password == admin_password
}

/// `outcome` is what a login with `username` and `password` at `now` gives
/// under the configured name, password and secret: `Rejected` exactly where
/// the credentials do not match; otherwise a token issued to `username` in
/// the administrator's role, which verification then accepts until it
/// expires, or `Internal` where issuing fails.
pub open spec fn is_login_of(
    outcome: Result<LoginResponse, LoginError>,
    username: Seq<char>,
    password: Seq<char>,
    admin_username: Seq<char>,
    admin_password: Seq<char>,
    secret: Seq<char>,
    now: int,
) -> bool {
    match outcome {
        Ok(response) => credentials_match(username, password, admin_username, admin_password)
            && is_issue_of(
            Ok::<String, IssueError>(response.token),
            username,
            admin_role(),
            now,
            secret,
        ) && round_trips(
            Ok::<String, IssueError>(response.token),
            username,
            admin_role(),
            now,
            secret,
        ),
        Err(LoginError::Rejected) => !credentials_match(
            username,
            password,
            admin_username,
            admin_password,
        ),
        Err(LoginError::Internal) => credentials_match(
            username,
            password,
            admin_username,
            admin_password,
        ) && exists|error: IssueError| #[trigger]
            is_issue_of(Err::<String, IssueError>(error), username, admin_role(), now, secret),
    }
}

/// Whether the submitted credentials are the configured administrator's.
pub fn check_credentials(payload: &LoginRequest, settings: &Settings) -> (matched: bool)
    ensures
        matched == credentials_match(
            payload.username@,
            payload.password@,
            settings.admin_username@,
            settings.admin_password@,
        ),
{
    payload.username == settings.admin_username && payload.password == settings.admin_password
}

/// Answers a login at time `now`.
pub fn login_at(payload: LoginRequest, settings: &Settings, now: i64) -> (outcome: Result<
    LoginResponse,
    LoginError,
>)
    ensures
        is_login_of(
            outcome,
            payload.username@,
            payload.password@,
            settings.admin_username@,
            settings.admin_password@,
            settings.jwt_secret@,
            now as int,
        ),
{
    if !check_credentials(&payload, settings) {
        return Err(LoginError::Rejected);
    }
    let issue = create_jwt_at(
        payload.username,
        String::from_str("admin"),
        now,
        settings.jwt_secret.as_str(),
    );
    match issue {
        Ok(token) => Ok(LoginResponse { token }),
        Err(error) => {
            assert(is_issue_of(
                Err::<String, IssueError>(error),
                payload.username@,
                admin_role(),
                now as int,
                settings.jwt_secret@,
            ));
            Err(LoginError::Internal)
        },
    }
}

/// Answers a login at the current time. Whatever the clock says, the result
/// is that of `login_at` for some time.
pub fn login(payload: LoginRequest, settings: &Settings) -> (outcome: Result<
    LoginResponse,
    LoginError,
>)
    ensures
        exists|now: i64| #[trigger]
            is_login_of(
                outcome,
                payload.username@,
                payload.password@,
                settings.admin_username@,
                settings.admin_password@,
                settings.jwt_secret@,
                now as int,
            ),
        outcome matches Err(LoginError::Rejected) <==> !credentials_match(
            payload.username@,
            payload.password@,
            settings.admin_username@,
            settings.admin_password@,
        ),
{
    let now: i64 = unix_now();
    login_at(payload, settings, now)
}

/// A login with a wrong name or a wrong password gets the same answer,
/// whatever the secret and the time: it is rejected, and reported as
/// unauthenticated.
pub proof fn mismatch_is_rejected(
    outcome: Result<LoginResponse, LoginError>,
    username: Seq<char>,
    password: Seq<char>,
    admin_username: Seq<char>,
    admin_password: Seq<char>,
    secret: Seq<char>,
    now: int,
)
    requires
        is_login_of(outcome, username, password, admin_username, admin_password, secret, now),
        username != admin_username || password != admin_password,
    ensures
        outcome == Err::<LoginResponse, LoginError>(LoginError::Rejected),
        LoginError::Rejected.as_failure() == Failure::Unauthenticated,
{
}

} // verus!
