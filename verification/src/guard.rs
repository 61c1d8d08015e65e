//! The authorization guard: from a request's `Authorization` header to a
//! decision. A request passes three stages in turn. The bearer token is
//! extracted from the header, the token is verified, and, on routes that ask
//! for it, the claim's role is checked. The first stage that fails denies the
//! request; a request that passes them all is allowed and carries its claim
//! on to the handler.

use crate::clock::unix_now;
use crate::status::Failure;
use crate::status::{status_of, STATUS_OK};
use crate::text::{borrowed_view, same_text, starts_with};
use crate::token::{outcome_view, verified, verify_jwt_at};
use crate::token::{Claims, ClaimsView, VerificationError};
use vstd::prelude::*;

verus! {

/// Why a request was denied.
#[derive(Clone, Copy, Debug, PartialEq, Eq, Structural)]
pub enum Denial {
    /// No usable token: the header is missing or malformed, or the token was
    /// not accepted.
    Unauthenticated,
    /// The token is valid but its role is not the required one.
    Forbidden,
}

impl Denial {
    /// How the denial is reported to a client.
    pub open spec fn as_failure(self) -> Failure {
        match self {
            Denial::Unauthenticated => Failure::Unauthenticated,
            Denial::Forbidden => Failure::Forbidden,
        }
    }

    /// How the denial is reported to a client.
    pub fn failure(&self) -> (failure: Failure)
        ensures
            failure == self.as_failure(),
    {
        match self {
            Denial::Unauthenticated => Failure::Unauthenticated,
            Denial::Forbidden => Failure::Forbidden,
        }
    }
}

/// The scheme word, and the space after it, that a bearer token follows.
pub open spec fn bearer_scheme() -> Seq<char> {
    "Bearer "@
}

/// The role that privileged routes ask for.
pub open spec fn admin_role() -> Seq<char> {
    "admin"@
}

/// The token that a header carries: what follows `Bearer `, where the header
/// is there, starts with that scheme, and the rest is not empty.
pub open spec fn bearer_of(header: Option<Seq<char>>) -> Option<Seq<char>> {
    match header {
        Some(h) => if bearer_scheme().is_prefix_of(h) && h.len() > bearer_scheme().len() {
            Some(h.skip(bearer_scheme().len() as int))
        } else {
            None
        },
        None => None,
    }
}

/// The last stage: from the outcome of verification and the role that the
/// route requires, if any, to the decision.
pub open spec fn decision(
    verification: Result<ClaimsView, VerificationError>,
    required_role: Option<Seq<char>>,
) -> Result<ClaimsView, Denial> {
    match verification {
        Err(_) => Err(Denial::Unauthenticated),
        Ok(claims) => match required_role {
            Some(role) => if claims.role == role {
                Ok(claims)
            } else {
                Err(Denial::Forbidden)
            },
            None => Ok(claims),
        },
    }
}

/// The guard as a whole: the decision on a request with the given header, at
/// time `now`, under `secret`.
pub open spec fn guarded(
    header: Option<Seq<char>>,
    secret: Seq<char>,
    now: int,
    required_role: Option<Seq<char>>,
) -> Result<ClaimsView, Denial> {
    match bearer_of(header) {
        None => Err(Denial::Unauthenticated),
        Some(token) => decision(verified(token, secret, now), required_role),
    }
}

/// The view of a decision.
pub open spec fn decision_view(outcome: Result<Claims, Denial>) -> Result<ClaimsView, Denial> {
    match outcome {
        Ok(claims) => Ok(claims@),
        Err(denial) => Err(denial),
    }
}

/// The status a guarded request ends with, provided that the handler behind
/// the guard succeeds.
pub open spec fn guard_status(outcome: Result<ClaimsView, Denial>) -> u16 {
    match outcome {
        Ok(_) => STATUS_OK,
        Err(denial) => status_of(denial.as_failure()),
    }
}

/// Extracts the bearer token from the value of the `Authorization` header.
pub fn bearer_token<'a>(header: Option<&'a str>) -> (token: Option<&'a str>)
    ensures
        borrowed_view(token) == bearer_of(borrowed_view(header)),
{
    match header {
        None => None,
        Some(h) => {
            proof {
                reveal_strlit("Bearer ");
            }
            if starts_with(h, "Bearer ") {
                let n: usize = h.unicode_len();
                if n > 7 {
                    let token = h.substring_char(7, n);
                    assert(h@.skip(7) =~= h@.subrange(7, n as int));
                    Some(token)
                } else {
                    None
                }
            } else {
                None
            }
        },
    }
}

/// Decides on a request from the outcome of verifying its token: any
/// verification error denies it as unauthenticated, and a claim whose role is
/// not the required one denies it as forbidden.
pub fn authorize(
    verification: Result<Claims, VerificationError>,
    required_role: Option<&str>,
) -> (outcome: Result<Claims, Denial>)
    ensures
        decision_view(outcome) == decision(
            outcome_view(verification),
            borrowed_view(required_role),
        ),
{
    match verification {
        Err(_) => Err(Denial::Unauthenticated),
        Ok(claims) => match required_role {
            Some(role) => if same_text(claims.role.as_str(), role) {
                Ok(claims)
            } else {
                Err(Denial::Forbidden)
            },
            None => Ok(claims),
        },
    }
}

/// Decides on a request at time `now`.
pub fn guard_at(
    header: Option<&str>,
    secret: &str,
    now: i64,
    required_role: Option<&str>,
) -> (outcome: Result<Claims, Denial>)
    ensures
        decision_view(outcome) == guarded(
            borrowed_view(header),
            secret@,
            now as int,
            borrowed_view(required_role),
        ),
{
    match bearer_token(header) {
        None => Err(Denial::Unauthenticated),
        Some(token) => authorize(verify_jwt_at(token, secret, now), required_role),
    }
}

/// The guard for routes that only ask for a valid token, at time `now`.
pub fn require_auth_at(header: Option<&str>, secret: &str, now: i64) -> (outcome: Result<
    Claims,
    Denial,
>)
    ensures
        decision_view(outcome) == guarded(borrowed_view(header), secret@, now as int, None),
{
    guard_at(header, secret, now, None)
}

/// The guard for routes that ask for the administrator's role, at time `now`.
pub fn require_admin_at(header: Option<&str>, secret: &str, now: i64) -> (outcome: Result<
    Claims,
    Denial,
>)
    ensures
        decision_view(outcome) == guarded(
            borrowed_view(header),
            secret@,
            now as int,
            Some(admin_role()),
        ),
{
    guard_at(header, secret, now, Some("admin"))
}

/// The guard for routes that only ask for a valid token, at the current time.
/// Whatever the clock says, the result is that of `require_auth_at` for some
/// time.
pub fn require_auth(header: Option<&str>, secret: &str) -> (outcome: Result<Claims, Denial>)
    ensures
        exists|now: i64|
            decision_view(outcome) == #[trigger] guarded(
                borrowed_view(header),
                secret@,
                now as int,
                None,
            ),
{
    let now: i64 = unix_now();
    require_auth_at(header, secret, now)
}

/// The guard for routes that ask for the administrator's role, at the current
/// time. Whatever the clock says, the result is that of `require_admin_at`
/// for some time.
pub fn require_admin(header: Option<&str>, secret: &str) -> (outcome: Result<Claims, Denial>)
    ensures
        exists|now: i64|
            decision_view(outcome) == #[trigger] guarded(
                borrowed_view(header),
                secret@,
                now as int,
                Some(admin_role()),
            ),
{
    let now: i64 = unix_now();
    require_admin_at(header, secret, now)
}

/// A header carries a token exactly where it is the scheme followed by a
/// token that is not empty, and then it carries that token unchanged.
pub proof fn bearer_header_carries_its_token(header: Seq<char>, token: Seq<char>)
    ensures
        bearer_of(Some(bearer_scheme() + token)) == if token.len() > 0 {
            Some(token)
        } else {
            None
        },
        bearer_of(Some(header)) == Some(token) ==> token.len() > 0 && header == bearer_scheme()
            + token,
{
    let framed = bearer_scheme() + token;
    assert(framed.subrange(0, bearer_scheme().len() as int) =~= bearer_scheme());
    assert(framed.skip(bearer_scheme().len() as int) =~= token);
    if bearer_of(Some(header)) == Some(token) {
        let n = bearer_scheme().len() as int;
        assert(header.subrange(0, n) == bearer_scheme());
        assert(header =~= header.subrange(0, n) + header.skip(n));
    }
}

/// On a route that asks for the administrator's role: a request without an
/// `Authorization` header, or with one that carries no bearer token, ends
/// with 401, and so does one whose token is not accepted; one whose token is
/// accepted but names another role ends with 403; one whose token is
/// accepted and names the administrator's role is allowed, with the token's
/// claim, and ends with 200.
pub proof fn admin_guard_outcomes(header: Option<Seq<char>>, secret: Seq<char>, now: int)
    ensures
        header is None ==> guard_status(guarded(header, secret, now, Some(admin_role()))) == 401,
        match bearer_of(header) {
            None => guard_status(guarded(header, secret, now, Some(admin_role()))) == 401,
            Some(token) => match verified(token, secret, now) {
                Err(_) => guard_status(guarded(header, secret, now, Some(admin_role()))) == 401,
                Ok(claims) => if claims.role == admin_role() {
                    guarded(header, secret, now, Some(admin_role())) == Ok::<ClaimsView, Denial>(
                        claims,
                    ) && guard_status(guarded(header, secret, now, Some(admin_role()))) == 200
                } else {
                    guard_status(guarded(header, secret, now, Some(admin_role()))) == 403
                },
            },
        },
{
}

/// Whatever the header, the secret and the time: a request is allowed only
/// with a token that verification accepted, and then with that token's
/// claim, whose role is the required one where one is required; a denial is
/// reported with 401 or 403 and nothing else; and the guard without a role
/// requirement never denies as forbidden.
pub proof fn guard_allows_only_verified(
    header: Option<Seq<char>>,
    secret: Seq<char>,
    now: int,
    required_role: Option<Seq<char>>,
)
    ensures
        match guarded(header, secret, now, required_role) {
            Ok(claims) => bearer_of(header) is Some && verified(
                bearer_of(header)->0,
                secret,
                now,
            ) == Ok::<ClaimsView, VerificationError>(claims) && (required_role is Some
                ==> claims.role == required_role->0),
            Err(denial) => guard_status(guarded(header, secret, now, required_role)) == 401
                || guard_status(guarded(header, secret, now, required_role)) == 403,
        },
        guarded(header, secret, now, None) != Err::<ClaimsView, Denial>(Denial::Forbidden),
{
}

} // verus!
