//! Signed bearer tokens: issuance, validation and refresh.
//!
//! A token is an HS256-signed JSON Web Token whose payload carries the six
//! fields of [`Claims`]. Signing and signature checking are done by the
//! `jsonwebtoken` crate; which claims are issued, when a decoded payload
//! counts as valid and what a refresh carries over is decided here. Every
//! operation takes the current time as an argument, in Unix seconds.

use jsonwebtoken::errors::ErrorKind;
use vstd::prelude::*;

use crate::config::{parse_i64, spec_parse_i64};
use crate::models::credential::seen;

verus! {

/// A decoded token payload of `serde_json`, carried through unread.
#[verifier::external_type_specification]
#[verifier::external_body]
pub struct ExJsonValue(serde_json::Value);

/// The issuer written into every token and demanded of every token.
pub const ISSUER: &'static str = "venomous-dashboard-auth";

/// Token lifetime in hours where none is configured.
pub const DEFAULT_EXPIRATION_HOURS: i64 = 24;

/// The claim set of a token.
#[derive(Debug, Clone, PartialEq, Eq)]
pub struct Claims {
    /// Subject: the user's id in hyphenated form.
    pub sub: String,
    /// The user's email address.
    pub email: String,
    /// The user's role.
    pub role: String,
    /// Expiry, in Unix seconds.
    pub exp: i64,
    /// Time of issue, in Unix seconds.
    pub iat: i64,
    /// Issuer.
    pub iss: String,
}

/// The mathematical content of a claim set.
pub struct ClaimsView {
    pub sub: Seq<char>,
    pub email: Seq<char>,
    pub role: Seq<char>,
    pub exp: i64,
    pub iat: i64,
    pub iss: Seq<char>,
}

impl View for Claims {
    type V = ClaimsView;

    open spec fn view(&self) -> ClaimsView {
        ClaimsView {
            sub: self.sub@,
            email: self.email@,
            role: self.role@,
            exp: self.exp,
            iat: self.iat,
            iss: self.iss@,
        }
    }
}

/// The six claim fields as found in a payload: each one is `None` where the
/// payload lacks it or holds a value of another type.
pub struct RawClaims {
    pub sub: Option<String>,
    pub email: Option<String>,
    pub role: Option<String>,
    pub exp: Option<i64>,
    pub iat: Option<i64>,
    pub iss: Option<String>,
}

/// The mathematical content of [`RawClaims`].
pub struct RawClaimsView {
    pub sub: Option<Seq<char>>,
    pub email: Option<Seq<char>>,
    pub role: Option<Seq<char>>,
    pub exp: Option<i64>,
    pub iat: Option<i64>,
    pub iss: Option<Seq<char>>,
}

impl View for RawClaims {
    type V = RawClaimsView;

    open spec fn view(&self) -> RawClaimsView {
        RawClaimsView {
            sub: seen(self.sub),
            email: seen(self.email),
            role: seen(self.role),
            exp: self.exp,
            iat: self.iat,
            iss: seen(self.iss),
        }
    }
}

impl ClaimsView {
    /// A payload in which all six fields are present.
    pub open spec fn as_raw(self) -> RawClaimsView {
        RawClaimsView {
            sub: Some(self.sub),
            email: Some(self.email),
            role: Some(self.role),
            exp: Some(self.exp),
            iat: Some(self.iat),
            iss: Some(self.iss),
        }
    }
}

impl RawClaimsView {
    /// Whether all six fields are present.
    pub open spec fn complete(self) -> bool {
        self.sub is Some && self.email is Some && self.role is Some && self.exp is Some
            && self.iat is Some && self.iss is Some
    }

    /// The claim set of a complete payload.
    pub open spec fn claims(self) -> ClaimsView
        recommends
            self.complete(),
    {
        ClaimsView {
            sub: self.sub.unwrap(),
            email: self.email.unwrap(),
            role: self.role.unwrap(),
            exp: self.exp.unwrap(),
            iat: self.iat.unwrap(),
            iss: self.iss.unwrap(),
        }
    }
}

/// Why a token is not valid, apart from its age.
#[derive(Debug, Clone, Copy, PartialEq, Eq, Structural)]
pub enum TokenFault {
    /// The signature was not made with this service's secret.
    InvalidSignature,
    /// The token names another issuer.
    IssuerMismatch,
    /// The text is no token, or its payload lacks a claim.
    Malformed,
    /// The subject is not a user id.
    InvalidSubject,
}

/// Why a token operation failed.
#[derive(Debug, Clone, Copy, PartialEq, Eq, Structural)]
pub enum JwtError {
    InvalidToken(TokenFault),
    TokenExpired,
    MissingSecret,
}

/// What `jsonwebtoken::decode` finds in `token` under the HMAC key `secret`,
/// with HS256 as the only algorithm, `issuer` as the only issuer and the
/// expiry left unchecked: the claim fields of the payload where the token is
/// accepted, else the reason for which it is refused.
pub uninterp spec fn token_payload(token: Seq<char>, secret: Seq<char>, issuer: Seq<char>) -> Result<
    RawClaimsView,
    TokenFault,
>;

/// A payload that the decoder accepted.
pub open spec fn accepted(raw: RawClaimsView) -> Result<RawClaimsView, TokenFault> {
    Ok(raw)
}

/// A token that the decoder refused.
pub open spec fn refused(fault: TokenFault) -> Result<RawClaimsView, TokenFault> {
    Err(fault)
}

/// The verdict on a valid token.
pub open spec fn valid(claims: ClaimsView) -> Result<ClaimsView, JwtError> {
    Ok(claims)
}

/// The verdict on a token that is not valid.
pub open spec fn invalid(e: JwtError) -> Result<ClaimsView, JwtError> {
    Err(e)
}

/// The claim fields that a decoded payload holds.
pub uninterp spec fn payload_claims(payload: serde_json::Value) -> RawClaimsView;

/// The user id that `Uuid::parse_str` reads from a text, as a 128-bit
/// number; `None` where the text is not a UUID in any accepted form.
pub uninterp spec fn uuid_of_text(text: Seq<char>) -> Option<u128>;

/// The hyphenated lower-case text that `Uuid` displays a user id as.
pub uninterp spec fn uuid_text(id: u128) -> Seq<char>;

/// `jsonwebtoken::encode` with the default header (HS256) and an HMAC key
/// made of `secret`, on a JSON object with the six claim fields. For this
/// algorithm and key the call cannot fail. The token that it returns is
/// accepted under the same secret by a decoder that asks for the issuer
/// that the claims name, with the same fields in its payload, as long as
/// the expiry is not negative. The crate reads an expiry as an unsigned
/// number and refuses a token without one before it looks at the issuer: a
/// token with a negative expiry is refused, which counts as malformed.
#[verifier::external_body]
fn sign_claims(claims: &Claims, secret: &str) -> (token: Option<String>)
    ensures
        token is Some,
        claims.exp >= 0 ==> token_payload(token.unwrap()@, secret@, claims.iss@) == accepted(
            claims@.as_raw(),
        ),
        forall|issuer: Seq<char>|
            claims.exp < 0 ==> #[trigger] token_payload(token.unwrap()@, secret@, issuer)
                == refused(TokenFault::Malformed),
{
    let mut body = serde_json::Map::new();
    body.insert("sub".into(), claims.sub.as_str().into());
    body.insert("email".into(), claims.email.as_str().into());
    body.insert("role".into(), claims.role.as_str().into());
    body.insert("exp".into(), claims.exp.into());
    body.insert("iat".into(), claims.iat.into());
    body.insert("iss".into(), claims.iss.as_str().into());
    let key = jsonwebtoken::EncodingKey::from_secret(secret.as_bytes());
    jsonwebtoken::encode(&jsonwebtoken::Header::default(), &body, &key).ok()
}

/// `jsonwebtoken::decode` with the default validation (HS256 only), the
/// issuer set to `issuer` and the expiry check switched off, so that the
/// answer depends on the arguments alone. The crate's error kinds for a
/// wrong signature and a wrong issuer are told apart; every other kind
/// counts as malformed.
#[verifier::external_body]
fn decode_payload(token: &str, secret: &str, issuer: &str) -> (r: Result<
    serde_json::Value,
    TokenFault,
>)
    ensures
        match r {
            Ok(payload) => token_payload(token@, secret@, issuer@) == accepted(
                payload_claims(payload),
            ),
            Err(fault) => token_payload(token@, secret@, issuer@) == refused(fault),
        },
{
    let mut rules = jsonwebtoken::Validation::default();
    rules.set_issuer(&[issuer]);
    rules.validate_exp = false;
    let key = jsonwebtoken::DecodingKey::from_secret(secret.as_bytes());
    match jsonwebtoken::decode::<serde_json::Value>(token, &key, &rules) {
        Ok(data) => Ok(data.claims),
        Err(e) => Err(match e.kind() {
            ErrorKind::InvalidSignature => TokenFault::InvalidSignature,
            ErrorKind::InvalidIssuer => TokenFault::IssuerMismatch,
            _ => TokenFault::Malformed,
        }),
    }
}

/// Reads the six claim fields out of a decoded payload with
/// `serde_json::Value`'s index, `as_str` and `as_i64`.
#[verifier::external_body]
fn read_claims(payload: &serde_json::Value) -> (raw: RawClaims)
    ensures
        raw@ == payload_claims(*payload),
{
    RawClaims {
        sub: payload["sub"].as_str().map(String::from),
        email: payload["email"].as_str().map(String::from),
        role: payload["role"].as_str().map(String::from),
        exp: payload["exp"].as_i64(),
        iat: payload["iat"].as_i64(),
        iss: payload["iss"].as_str().map(String::from),
    }
}

/// `Uuid::parse_str`, with the id as a number.
#[verifier::external_body]
fn parse_uuid(text: &str) -> (id: Option<u128>)
    ensures
        id == uuid_of_text(text@),
{
    match uuid::Uuid::parse_str(text) {
        Ok(id) => Some(id.as_u128()),
        Err(_) => None,
    }
}

/// `Uuid`'s `to_string`: the hyphenated lower-case form, which
/// `Uuid::parse_str` reads back as the same id.
#[verifier::external_body]
fn format_uuid(id: u128) -> (text: String)
    ensures
        text@ == uuid_text(id),
        uuid_of_text(text@) == Some(id),
{
    uuid::Uuid::from_u128(id).to_string()
}

/// Issues and checks tokens under one secret and one lifetime.
pub struct JwtService {
    secret: String,
    expiration_hours: i64,
}

impl JwtService {
    /// The signing secret.
    pub closed spec fn secret(&self) -> Seq<char> {
        self.secret@
    }

    /// The lifetime of issued tokens, in hours.
    pub closed spec fn expiration_hours(&self) -> i64 {
        self.expiration_hours
    }

    /// What the decoder finds in a token under the service's secret, when
    /// it asks for [`ISSUER`].
    pub open spec fn decoded(&self, token: Seq<char>) -> Result<RawClaimsView, TokenFault> {
        token_payload(token, self.secret(), ISSUER@)
    }

    /// The expiry of a token issued at `now`.
    pub open spec fn expiry(&self, now: i64) -> int {
        now + self.expiration_hours() * 3600
    }

    /// Whether a token can be issued at `now`: its expiry must be a
    /// timestamp.
    pub open spec fn can_issue_at(&self, now: i64) -> bool {
        i64::MIN <= self.expiry(now) <= i64::MAX
    }

    /// The claims issued at `now` for a subject, an email and a role.
    pub open spec fn claims_for(
        &self,
        sub: Seq<char>,
        email: Seq<char>,
        role: Seq<char>,
        now: i64,
    ) -> ClaimsView {
        ClaimsView { sub, email, role, exp: self.expiry(now) as i64, iat: now, iss: ISSUER@ }
    }

    /// What a token that was signed for `claims` decodes to under the
    /// service's secret: the claims themselves, unless their expiry is
    /// negative. A token that expires before the epoch is issued, but is
    /// refused as malformed ever after.
    pub open spec fn issued(&self, claims: ClaimsView) -> Result<RawClaimsView, TokenFault> {
        if claims.exp >= 0 {
            accepted(claims.as_raw())
        } else {
            refused(TokenFault::Malformed)
        }
    }

    /// The verdict on a decoded token at `now`. A token that the decoder
    /// refused is invalid for the decoder's reason. One that lacks a claim is
    /// malformed, one that names another issuer is refused for that, and one
    /// whose expiry lies before `now` is expired, in this order. What is left
    /// is valid and yields its claims.
    pub open spec fn verdict(payload: Result<RawClaimsView, TokenFault>, now: i64) -> Result<
        ClaimsView,
        JwtError,
    > {
        match payload {
            Err(fault) => Err(JwtError::InvalidToken(fault)),
            Ok(raw) => if !raw.complete() {
                Err(JwtError::InvalidToken(TokenFault::Malformed))
            } else if raw.claims().iss != ISSUER@ {
                Err(JwtError::InvalidToken(TokenFault::IssuerMismatch))
            } else if raw.claims().exp < now {
                Err(JwtError::TokenExpired)
            } else {
                Ok(raw.claims())
            },
        }
    }

    /// The verdict on a token text at `now` under this service's secret.
    pub open spec fn spec_validate(&self, token: Seq<char>, now: i64) -> Result<
        ClaimsView,
        JwtError,
    > {
        Self::verdict(self.decoded(token), now)
    }

    /// Whether `r` is the executable form of `expected`.
    pub open spec fn is_result(r: Result<Claims, JwtError>, expected: Result<ClaimsView, JwtError>) -> bool {
        match expected {
            Ok(claims) => r matches Ok(c) && c@ == claims,
            Err(e) => r matches Err(x) && x == e,
        }
    }

    /// A service that signs with `secret` and issues tokens that live for
    /// `expiration_hours`.
    pub fn new(secret: String, expiration_hours: i64) -> (service: JwtService)
        ensures
            service.secret() == secret@,
            service.expiration_hours() == expiration_hours,
    {
        JwtService { secret, expiration_hours }
    }

    /// The expiry of a token issued at `now`.
    pub fn expires_at(&self, now: i64) -> (exp: i64)
        requires
            self.can_issue_at(now),
        ensures
            exp == self.expiry(now),
    {
        let lifetime: i128 = (self.expiration_hours as i128) * 3600;
        ((now as i128) + lifetime) as i64
    }

    /// The token lifetime that a setting gives: its number, or the default
    /// where it is absent or no number.
    pub open spec fn spec_expiration_hours(configured: Option<&str>) -> i64 {
        match configured {
            Some(text) => match spec_parse_i64(text@) {
                Some(hours) => hours,
                None => DEFAULT_EXPIRATION_HOURS,
            },
            None => DEFAULT_EXPIRATION_HOURS,
        }
    }

    /// The token lifetime in hours from its setting.
    pub fn get_expiration_hours(configured: Option<&str>) -> (hours: i64)
        ensures
            hours == Self::spec_expiration_hours(configured),
    {
        match configured {
            Some(text) => match parse_i64(text) {
                Some(hours) => hours,
                None => DEFAULT_EXPIRATION_HOURS,
            },
            None => DEFAULT_EXPIRATION_HOURS,
        }
    }

    /// The configured secret, or `MissingSecret` where none is configured.
    pub fn get_secret(configured: Option<String>) -> (r: Result<String, JwtError>)
        ensures
            match configured {
                Some(secret) => r matches Ok(v) && v == secret,
                None => r matches Err(x) && x == JwtError::MissingSecret,
            },
    {
        match configured {
            Some(secret) => Ok(secret),
            None => Err(JwtError::MissingSecret),
        }
    }

    /// Signs the claims for a subject text, issued at `now`.
    fn issue(&self, sub: String, email: &str, role: &str, now: i64) -> (r: Result<String, JwtError>)
        requires
            self.can_issue_at(now),
        ensures
            r is Ok,
            self.decoded(r.unwrap()@) == self.issued(
                self.claims_for(sub@, email@, role@, now),
            ),
    {
        let exp: i64 = self.expires_at(now);
        let claims = Claims {
            sub,
            email: email.to_owned(),
            role: role.to_owned(),
            exp,
            iat: now,
            iss: ISSUER.to_owned(),
        };
        match sign_claims(&claims, self.secret.as_str()) {
            Some(token) => Ok(token),
            None => Err(JwtError::InvalidToken(TokenFault::Malformed)),
        }
    }

    /// Issues a token for a user at `now`: the subject is the user's id in
    /// hyphenated form, the time of issue is `now`, the expiry lies the
    /// configured lifetime after it, and the issuer is [`ISSUER`].
    ///
    /// The token is signed with the service's secret, so it decodes under
    /// that secret to exactly these claims.
    pub fn generate_token(&self, user_id: u128, email: &str, role: &str, now: i64) -> (r: Result<
        String,
        JwtError,
    >)
        requires
            self.can_issue_at(now),
        ensures
            r is Ok,
            self.decoded(r.unwrap()@) == self.issued(
                self.claims_for(uuid_text(user_id), email@, role@, now),
            ),
    {
        self.issue(format_uuid(user_id), email, role, now)
    }

    /// Judges a decoded payload at `now`: see [`JwtService::verdict`].
    pub fn check_claims(payload: Result<RawClaims, TokenFault>, now: i64) -> (r: Result<
        Claims,
        JwtError,
    >)
        ensures
            Self::is_result(
                r,
                Self::verdict(
                    match payload {
                        Ok(raw) => Ok(raw@),
                        Err(fault) => Err(fault),
                    },
                    now,
                ),
            ),
    {
        let raw = match payload {
            Ok(raw) => raw,
            Err(fault) => {
                return Err(JwtError::InvalidToken(fault));
            },
        };
        match (raw.sub, raw.email, raw.role, raw.exp, raw.iat, raw.iss) {
            (Some(sub), Some(email), Some(role), Some(exp), Some(iat), Some(iss)) => {
                if iss != ISSUER.to_owned() {
                    Err(JwtError::InvalidToken(TokenFault::IssuerMismatch))
                } else if exp < now {
                    Err(JwtError::TokenExpired)
                } else {
                    Ok(Claims { sub, email, role, exp, iat, iss })
                }
            },
            _ => Err(JwtError::InvalidToken(TokenFault::Malformed)),
        }
    }

    /// Validates a token at `now` and returns its claims.
    ///
    /// The signature must have been made with the service's secret, all six
    /// claims must be present, the issuer must be [`ISSUER`], and the expiry
    /// must not lie before `now`; a token that expires at `now` is still
    /// valid.
    pub fn validate_token(&self, token: &str, now: i64) -> (r: Result<Claims, JwtError>)
        ensures
            Self::is_result(r, self.spec_validate(token@, now)),
            r matches Ok(claims) ==> claims.exp >= now && claims.iss@ == ISSUER@,
    {
        let payload = match decode_payload(token, self.secret.as_str(), ISSUER) {
            Ok(payload) => Ok(read_claims(&payload)),
            Err(fault) => Err(fault),
        };
        Self::check_claims(payload, now)
    }

    /// The user id in the subject of a valid token. A valid token whose
    /// subject is not a user id is refused as `InvalidSubject`.
    pub fn extract_user_id(&self, token: &str, now: i64) -> (r: Result<u128, JwtError>)
        ensures
            match self.spec_validate(token@, now) {
                Ok(claims) => match uuid_of_text(claims.sub) {
                    Some(id) => r matches Ok(v) && v == id,
                    None => r matches Err(x) && x == JwtError::InvalidToken(TokenFault::InvalidSubject),
                },
                Err(e) => r matches Err(x) && x == e,
            },
    {
        let claims = self.validate_token(token, now)?;
        Self::subject_id(&claims)
    }

    /// The user id that a text denotes, if it denotes one.
    pub fn parse_user_id(text: &str) -> (id: Option<u128>)
        ensures
            id == uuid_of_text(text@),
    {
        parse_uuid(text)
    }

    /// The text of a user id, in the hyphenated form in which tokens carry
    /// it. Read back, the text denotes the same id.
    pub fn user_id_text(id: u128) -> (text: String)
        ensures
            text@ == uuid_text(id),
            uuid_of_text(text@) == Some(id),
    {
        format_uuid(id)
    }

    /// The user id that a claim set names, or `InvalidSubject`.
    pub fn subject_id(claims: &Claims) -> (r: Result<u128, JwtError>)
        ensures
            match uuid_of_text(claims.sub@) {
                Some(id) => r matches Ok(v) && v == id,
                None => r matches Err(x) && x == JwtError::InvalidToken(TokenFault::InvalidSubject),
            },
    {
        match parse_uuid(claims.sub.as_str()) {
            Some(id) => Ok(id),
            None => Err(JwtError::InvalidToken(TokenFault::InvalidSubject)),
        }
    }

    /// The email claim of a valid token.
    pub fn extract_email(&self, token: &str, now: i64) -> (r: Result<String, JwtError>)
        ensures
            match self.spec_validate(token@, now) {
                Ok(claims) => r matches Ok(email) && email@ == claims.email,
                Err(e) => r matches Err(x) && x == e,
            },
    {
        let claims = self.validate_token(token, now)?;
        Ok(claims.email)
    }

    /// The role claim of a valid token.
    pub fn extract_role(&self, token: &str, now: i64) -> (r: Result<String, JwtError>)
        ensures
            match self.spec_validate(token@, now) {
                Ok(claims) => r matches Ok(role) && role@ == claims.role,
                Err(e) => r matches Err(x) && x == e,
            },
    {
        let claims = self.validate_token(token, now)?;
        Ok(claims.role)
    }

    /// Whether a token is unusable at `now`: expired, or invalid for any
    /// other reason.
    pub fn is_token_expired(&self, token: &str, now: i64) -> (expired: bool)
        ensures
            expired == self.spec_validate(token@, now) is Err,
    {
        match self.validate_token(token, now) {
            Ok(_) => false,
            Err(_) => true,
        }
    }

    /// Exchanges a valid token for a new one, issued at `now`.
    ///
    /// The old token must be valid at `now` and its subject must be a user
    /// id. The new token carries the old subject and email unchanged, the
    /// role given here (the caller resolves the user's current role; the
    /// role in the old token is not copied), and a fresh time of issue and
    /// expiry. Like every issued token it decodes under the service's
    /// secret to exactly these claims.
    pub fn refresh_token(&self, token: &str, role: &str, now: i64) -> (r: Result<String, JwtError>)
        requires
            self.can_issue_at(now),
        ensures
            match self.spec_validate(token@, now) {
                Err(e) => r matches Err(x) && x == e,
                Ok(old) => if uuid_of_text(old.sub) is None {
                    r matches Err(x) && x == JwtError::InvalidToken(TokenFault::InvalidSubject)
                } else {
                    &&& r is Ok
                    &&& self.decoded(r.unwrap()@) == self.issued(
                        self.claims_for(old.sub, old.email, role@, now),
                    )
                },
            },
    {
        let claims = self.validate_token(token, now)?;
        let _id: u128 = Self::subject_id(&claims)?;
        self.issue(claims.sub, claims.email.as_str(), role, now)
    }
}

/// A token is valid for exactly as long as its claims say. A token that
/// the service issued at `issued_at`, with an expiry that is not negative,
/// is valid at every instant up to and including its expiry, and yields the
/// subject, email and role it was issued for; at every later instant it is
/// refused as expired.
pub proof fn law_issued_token_validates(
    service: JwtService,
    token: Seq<char>,
    sub: Seq<char>,
    email: Seq<char>,
    role: Seq<char>,
    issued_at: i64,
    now: i64,
)
    requires
        service.can_issue_at(issued_at),
        service.expiry(issued_at) >= 0,
        service.decoded(token) == service.issued(service.claims_for(sub, email, role, issued_at)),
    ensures
        now <= service.expiry(issued_at) ==> service.spec_validate(token, now) == valid(
            service.claims_for(sub, email, role, issued_at),
        ),
        now > service.expiry(issued_at) ==> service.spec_validate(token, now) == invalid(
            JwtError::TokenExpired,
        ),
        service.claims_for(sub, email, role, issued_at).sub == sub,
        service.claims_for(sub, email, role, issued_at).email == email,
        service.claims_for(sub, email, role, issued_at).role == role,
{
}

/// A refresh keeps who the token is for and pushes its expiry out. Where
/// `old_token` is valid at `now` and `new_token` is what a refresh at `now`
/// issues for it in `role`, the new token is valid at `now`, names the old
/// subject and email, and carries the role given to the refresh. Its expiry
/// is strictly later than the old one whenever the old token would have
/// expired before a token issued at `now` does; that is the case for every
/// old token that this service issued earlier with the same lifetime. As
/// for every issued token, the new expiry must not be negative.
pub proof fn law_refresh_extends(
    service: JwtService,
    old_token: Seq<char>,
    new_token: Seq<char>,
    role: Seq<char>,
    now: i64,
)
    requires
        service.can_issue_at(now),
        service.expiry(now) >= 0,
        service.spec_validate(old_token, now) is Ok,
        service.spec_validate(old_token, now).unwrap().exp < service.expiry(now),
        service.decoded(new_token) == service.issued(
            service.claims_for(
                service.spec_validate(old_token, now).unwrap().sub,
                service.spec_validate(old_token, now).unwrap().email,
                role,
                now,
            ),
        ),
    ensures
        service.spec_validate(new_token, now) is Ok,
        service.spec_validate(new_token, now).unwrap().sub == service.spec_validate(
            old_token,
            now,
        ).unwrap().sub,
        service.spec_validate(new_token, now).unwrap().email == service.spec_validate(
            old_token,
            now,
        ).unwrap().email,
        service.spec_validate(new_token, now).unwrap().role == role,
        service.spec_validate(new_token, now).unwrap().iat == now,
        service.spec_validate(new_token, now).unwrap().exp > service.spec_validate(
            old_token,
            now,
        ).unwrap().exp,
{
}

/// A token that this service issued at `issued_at` and refreshes at a later
/// `now`, under an unchanged lifetime, expires before a token issued at
/// `now` does.
pub proof fn law_later_issue_expires_later(service: JwtService, issued_at: i64, now: i64)
    requires
        issued_at < now,
    ensures
        service.expiry(issued_at) < service.expiry(now),
{
}

} // verus!
