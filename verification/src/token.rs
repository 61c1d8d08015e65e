//! Signed identity tokens: a claim of subject, role and expiry, carried in a
//! compact three-segment token that is signed with a shared secret.
//!
//! Encoding and signature checking are `jsonwebtoken`'s. What this module
//! decides itself, and proves, is which expiry a new claim gets and which
//! decoded tokens are accepted at a given time.

use crate::clock::unix_now;
use crate::status::Failure;
use crate::text::owned_view;
use jsonwebtoken::errors::ErrorKind;
use jsonwebtoken::{decode, encode, DecodingKey, EncodingKey, Header, Validation};
use serde_json::Value;
use vstd::prelude::*;

verus! {

/// How long a token stays valid after it was issued: 24 hours, in seconds.
pub const TOKEN_LIFETIME_SECS: i64 = 86_400;

/// The identity an accepted token stands for.
#[derive(Debug, Clone)]
pub struct Claims {
    /// Opaque user identifier.
    pub sub: String,
    /// The role the user acts in.
    pub role: String,
    /// Expiry, in seconds since the Unix epoch.
    pub exp: usize,
}

/// A claim as a mathematical value.
pub ghost struct ClaimsView {
    pub sub: Seq<char>,
    pub role: Seq<char>,
    pub exp: int,
}

impl View for Claims {
    type V = ClaimsView;

    open spec fn view(&self) -> ClaimsView {
        ClaimsView { sub: self.sub@, role: self.role@, exp: self.exp as int }
    }
}

/// Why a token was not accepted. The three kinds are told apart for
/// diagnostics only: a client sees the same refusal for each.
#[derive(Clone, Copy, Debug, PartialEq, Eq, Structural)]
pub enum VerificationError {
    /// The token cannot be parsed into a complete claim.
    Malformed,
    /// The signature does not match the token's content.
    BadSignature,
    /// The claim's expiry lies in the past.
    Expired,
}

/// Why no token could be issued.
#[derive(Clone, Copy, Debug, PartialEq, Eq, Structural)]
pub enum IssueError {
    /// The expiry that the clock leads to cannot be represented.
    Clock,
    /// Serialization or signing failed.
    Signing,
}

/// What decoding a token yields before any time-dependent rule is applied.
#[derive(Debug, Clone)]
pub enum Decoded {
    /// The signature matches. Each member is given where the payload holds it
    /// with the expected type.
    Payload { sub: Option<String>, role: Option<String>, exp: Option<u64> },
    /// The signature does not match the first two segments.
    BadSignature,
    /// The decoder refused the token for any other reason.
    Refused,
}

/// A decoding result as a mathematical value.
pub ghost enum DecodedView {
    Payload { sub: Option<Seq<char>>, role: Option<Seq<char>>, exp: Option<u64> },
    BadSignature,
    Refused,
}

impl View for Decoded {
    type V = DecodedView;

    open spec fn view(&self) -> DecodedView {
        match *self {
            Decoded::Payload { sub, role, exp } => DecodedView::Payload {
                sub: owned_view(sub),
                role: owned_view(role),
                exp,
            },
            Decoded::BadSignature => DecodedView::BadSignature,
            Decoded::Refused => DecodedView::Refused,
        }
    }
}

/// The token that `jsonwebtoken::encode` produces for the claims
/// `{sub, role, exp}` under the default header and the HMAC key `secret`, or
/// `None` where it fails.
pub uninterp spec fn jwt_encoded(
    sub: Seq<char>,
    role: Seq<char>,
    exp: u64,
    secret: Seq<char>,
) -> Option<Seq<char>>;

/// What `jsonwebtoken::decode` makes of `token` under the HMAC key `secret`,
/// with its default validation except that it does not compare the expiry
/// with the clock.
pub uninterp spec fn jwt_decoded(token: Seq<char>, secret: Seq<char>) -> DecodedView;

/// Calls `jsonwebtoken::encode` with the default header (HS256), a JSON
/// object of the three members `sub`, `role` and `exp`, and `secret` as the
/// HMAC key.
///
/// Trusted: the result is a function of the four arguments, named
/// `jwt_encoded`; and a token that comes back decodes, under the same
/// secret, to a payload that holds exactly these three members. The second
/// claim is how the crate works: decoding recomputes the same HMAC over the
/// same two segments and parses the JSON text that encoding wrote.
#[verifier::external_body]
fn sign_claims(sub: &str, role: &str, exp: u64, secret: &str) -> (signed: Result<
    String,
    jsonwebtoken::errors::Error,
>)
    ensures
        match signed {
            Ok(token) => jwt_encoded(sub@, role@, exp, secret@) == Some(token@) && jwt_decoded(
                token@,
                secret@,
            ) == (DecodedView::Payload { sub: Some(sub@), role: Some(role@), exp: Some(exp) }),
            Err(_) => jwt_encoded(sub@, role@, exp, secret@) is None,
        },
{
    let mut claims = serde_json::Map::new();
    claims.insert("sub".to_string(), Value::from(sub));
    claims.insert("role".to_string(), Value::from(role));
    claims.insert("exp".to_string(), Value::from(exp));
    encode(&Header::default(), &claims, &EncodingKey::from_secret(secret.as_bytes()))
}

/// Calls `jsonwebtoken::decode` with `secret` as the HMAC key and the default
/// validation (HS256, `exp` required) with `validate_exp` switched off, so
/// that the call does not read the clock.
///
/// Trusted: the result is a function of the two arguments, named
/// `jwt_decoded` (the library installs no crypto provider of its own, so the
/// one chosen by the crate's features does the work). The body only converts: the members `sub`, `role` and `exp`
/// of the payload are read with `serde_json`'s own accessors, and of the
/// error only whether its kind is `InvalidSignature`.
#[verifier::external_body]
fn decode_token(token: &str, secret: &str) -> (decoded: Decoded)
    ensures
        decoded@ == jwt_decoded(token@, secret@),
{
    let mut rules = Validation::default();
    rules.validate_exp = false;
    match decode::<Value>(token, &DecodingKey::from_secret(secret.as_bytes()), &rules) {
        Ok(data) => Decoded::Payload {
            sub: data.claims.get("sub").and_then(Value::as_str).map(str::to_owned),
            role: data.claims.get("role").and_then(Value::as_str).map(str::to_owned),
            exp: data.claims.get("exp").and_then(Value::as_u64),
        },
        Err(error) => match error.kind() {
            ErrorKind::InvalidSignature => Decoded::BadSignature,
            _ => Decoded::Refused,
        },
    }
}

/// Declares `jsonwebtoken::errors::Error`, the error of `encode`, as an
/// opaque type. Nothing is claimed of its values.
#[verifier::external_type_specification]
#[verifier::external_body]
pub struct ExTokenError(jsonwebtoken::errors::Error);

/// The expiry of a claim issued at `now`.
pub open spec fn expiry_of(now: int) -> int {
    now + TOKEN_LIFETIME_SECS
}

/// The claim issued to `sub` in `role` at `now`, where its expiry can be
/// represented.
pub open spec fn issued(sub: Seq<char>, role: Seq<char>, now: int) -> Option<ClaimsView> {
    if 0 <= expiry_of(now) <= usize::MAX {
        Some(ClaimsView { sub, role, exp: expiry_of(now) })
    } else {
        None
    }
}

/// The decision on a decoded token at `now`: a claim is accepted only if the
/// signature matched, all three members are there, and the expiry is not in
/// the past. A payload that lacks a member, or whose expiry does not fit the
/// expiry field, is malformed.
pub open spec fn verdict(decoded: DecodedView, now: int) -> Result<
    ClaimsView,
    VerificationError,
> {
    match decoded {
        DecodedView::BadSignature => Err(VerificationError::BadSignature),
        DecodedView::Refused => Err(VerificationError::Malformed),
        DecodedView::Payload { sub: Some(sub), role: Some(role), exp: Some(exp) } => {
            if exp > usize::MAX {
                Err(VerificationError::Malformed)
            } else if exp < now {
                Err(VerificationError::Expired)
            } else {
                Ok(ClaimsView { sub, role, exp: exp as int })
            }
        },
        DecodedView::Payload { .. } => Err(VerificationError::Malformed),
    }
}

/// The decision on `token` at `now` under `secret`.
pub open spec fn verified(token: Seq<char>, secret: Seq<char>, now: int) -> Result<
    ClaimsView,
    VerificationError,
> {
    verdict(jwt_decoded(token, secret), now)
}

/// The view of a verification outcome.
pub open spec fn outcome_view(outcome: Result<Claims, VerificationError>) -> Result<
    ClaimsView,
    VerificationError,
> {
    match outcome {
        Ok(claims) => Ok(claims@),
        Err(error) => Err(error),
    }
}

/// The view of an optional claim.
pub open spec fn claims_view(claims: Option<Claims>) -> Option<ClaimsView> {
    match claims {
        Some(c) => Some(c@),
        None => None,
    }
}

impl Claims {
    /// The claim for `user_id` in `role`, issued at `now` and valid for 24
    /// hours. `None` exactly where that expiry is negative or does not fit
    /// the expiry field.
    pub fn issued_at(user_id: String, role: String, now: i64) -> (claims: Option<Claims>)
        ensures
            claims_view(claims) == issued(user_id@, role@, now as int),
    {
        if now < -TOKEN_LIFETIME_SECS {
            return None;
        }
        let since: u64 = if now < 0 {
            (now + TOKEN_LIFETIME_SECS) as u64
        } else {
            now as u64 + TOKEN_LIFETIME_SECS as u64
        };
        if since > usize::MAX as u64 {
            return None;
        }
        Some(Claims { sub: user_id, role, exp: since as usize })
    }

    /// The claim for `user_id` in `role`, valid for 24 hours from the current
    /// time. Whatever the clock says, the result is `issued_at` for some
    /// time.
    pub fn new(user_id: String, role: String) -> (claims: Option<Claims>)
        ensures
            exists|now: i64| claims_view(claims) == #[trigger] issued(user_id@, role@, now as int),
    {
        let now: i64 = unix_now();
        Claims::issued_at(user_id, role, now)
    }

    /// Whether the claim's expiry lies before `now`.
    pub fn expired_at(&self, now: i64) -> (expired: bool)
        ensures
            expired == (self@.exp < now),
    {
        now > 0 && (self.exp as u64) < (now as u64)
    }
}

impl VerificationError {
    /// How the refusal is reported to a client: always as unauthenticated,
    /// so that nothing about the signature check leaks.
    pub fn failure(&self) -> (failure: Failure)
        ensures
            failure == Failure::Unauthenticated,
    {
        Failure::Unauthenticated
    }
}

impl IssueError {
    /// How the failure is reported to a client: as an internal error.
    pub fn failure(&self) -> (failure: Failure)
        ensures
            failure == Failure::InternalError,
    {
        Failure::InternalError
    }
}

/// `token` is accepted under `secret`, as the claim `claims`, at every time
/// up to the claim's expiry.
pub open spec fn accepted_until_expiry(
    token: Seq<char>,
    secret: Seq<char>,
    claims: ClaimsView,
) -> bool {
    forall|at: int|
        at <= claims.exp ==> #[trigger] verified(token, secret, at) == Ok::<
            ClaimsView,
            VerificationError,
        >(claims)
}

/// `outcome` is what issuing a token to `sub` in `role` at `now` under
/// `secret` gives: the encoding of the claim `issued(sub, role, now)`;
/// `Clock` exactly where that claim does not exist; `Signing` exactly where
/// the encoder fails.
pub open spec fn is_issue_of(
    outcome: Result<String, IssueError>,
    sub: Seq<char>,
    role: Seq<char>,
    now: int,
    secret: Seq<char>,
) -> bool {
    match outcome {
        Ok(token) => issued(sub, role, now) matches Some(c) && jwt_encoded(
            c.sub,
            c.role,
            c.exp as u64,
            secret,
        ) == Some(token@),
        Err(IssueError::Clock) => issued(sub, role, now) is None,
        Err(IssueError::Signing) => issued(sub, role, now) matches Some(c) && jwt_encoded(
            c.sub,
            c.role,
            c.exp as u64,
            secret,
        ) is None,
    }
}

/// A token in `outcome` is accepted again: verifying it under `secret`, at
/// any time up to 24 hours after `now`, gives back the subject `sub`, the
/// role `role` and the expiry `now` plus 24 hours.
pub open spec fn round_trips(
    outcome: Result<String, IssueError>,
    sub: Seq<char>,
    role: Seq<char>,
    now: int,
    secret: Seq<char>,
) -> bool {
    outcome matches Ok(token) ==> accepted_until_expiry(
        token@,
        secret,
        ClaimsView { sub, role, exp: expiry_of(now) },
    )
}

/// Issues a token for `user_id` in `role` at time `now`, signed with
/// `secret`.
///
/// The token is the encoding of the claim with that subject, that role and
/// an expiry 24 hours after `now`. Issuing fails only where that expiry
/// cannot be represented or the encoder fails. Verifying a token that was
/// issued, under the same secret and not later than its expiry, returns the
/// claim it was issued for.
pub fn create_jwt_at(user_id: String, role: String, now: i64, secret: &str) -> (token: Result<
    String,
    IssueError,
>)
    ensures
        is_issue_of(token, user_id@, role@, now as int, secret@),
        round_trips(token, user_id@, role@, now as int, secret@),
{
    match Claims::issued_at(user_id, role, now) {
        None => Err(IssueError::Clock),
        Some(claims) => match sign_claims(
            claims.sub.as_str(),
            claims.role.as_str(),
            claims.exp as u64,
            secret,
        ) {
            Ok(t) => Ok(t),
            Err(_) => Err(IssueError::Signing),
        },
    }
}

/// Issues a token for `user_id` in `role`, valid for 24 hours from the
/// current time and signed with `secret`. Whatever the clock says, the
/// result is that of `create_jwt_at` for some time.
pub fn create_jwt(user_id: String, role: String, secret: &str) -> (token: Result<
    String,
    IssueError,
>)
    ensures
        exists|now: i64| #[trigger]
            is_issue_of(token, user_id@, role@, now as int, secret@) && round_trips(
                token,
                user_id@,
                role@,
                now as int,
                secret@,
            ),
{
    let now: i64 = unix_now();
    create_jwt_at(user_id, role, now, secret)
}

/// Decides on a decoded token at time `now`.
pub fn check_decoded(decoded: Decoded, now: i64) -> (outcome: Result<Claims, VerificationError>)
    ensures
        outcome_view(outcome) == verdict(decoded@, now as int),
{
    match decoded {
        Decoded::BadSignature => Err(VerificationError::BadSignature),
        Decoded::Refused => Err(VerificationError::Malformed),
        Decoded::Payload { sub: Some(sub), role: Some(role), exp: Some(exp) } => {
            if exp > usize::MAX as u64 {
                return Err(VerificationError::Malformed);
            }
            let claims = Claims { sub, role, exp: exp as usize };
            if claims.expired_at(now) {
                Err(VerificationError::Expired)
            } else {
                Ok(claims)
            }
        },
        Decoded::Payload { .. } => Err(VerificationError::Malformed),
    }
}

/// Verifies `token` under `secret` at time `now`.
pub fn verify_jwt_at(token: &str, secret: &str, now: i64) -> (outcome: Result<
    Claims,
    VerificationError,
>)
    ensures
        outcome_view(outcome) == verified(token@, secret@, now as int),
{
    check_decoded(decode_token(token, secret), now)
}

/// Verifies `token` under `secret` at the current time. Whatever the clock
/// says, the result is that of `verify_jwt_at` for some time.
pub fn verify_jwt(token: &str, secret: &str) -> (outcome: Result<Claims, VerificationError>)
    ensures
        exists|now: i64| outcome_view(outcome) == #[trigger] verified(token@, secret@, now as int),
{
    let now: i64 = unix_now();
    verify_jwt_at(token, secret, now)
}

/// A payload whose expiry lies before `now` is never accepted, whatever its
/// signature check said; where the payload is otherwise complete the refusal
/// is `Expired`.
pub proof fn expired_is_rejected(
    sub: Option<Seq<char>>,
    role: Option<Seq<char>>,
    exp: u64,
    now: int,
)
    requires
        exp < now,
    ensures
        verdict(DecodedView::Payload { sub, role, exp: Some(exp) }, now) is Err,
        sub is Some && role is Some && exp <= usize::MAX ==> verdict(
            DecodedView::Payload { sub, role, exp: Some(exp) },
            now,
        ) == Err::<ClaimsView, VerificationError>(VerificationError::Expired),
{
}

/// A signature mismatch is reported as such at every time, and a claim is
/// only ever accepted from a payload whose signature matched.
pub proof fn bad_signature_is_rejected(decoded: DecodedView, now: int)
    ensures
        verdict(DecodedView::BadSignature, now) == Err::<ClaimsView, VerificationError>(
            VerificationError::BadSignature,
        ),
        verdict(decoded, now) is Ok ==> decoded is Payload,
{
}

/// A complete payload is accepted unchanged at every time up to its expiry.
pub proof fn unexpired_is_accepted(sub: Seq<char>, role: Seq<char>, exp: u64, now: int)
    requires
        exp <= usize::MAX,
        now <= exp,
    ensures
        verdict(DecodedView::Payload { sub: Some(sub), role: Some(role), exp: Some(exp) }, now)
            == Ok::<ClaimsView, VerificationError>(ClaimsView { sub, role, exp: exp as int }),
{
}

} // verus!
