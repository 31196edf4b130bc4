//! Authentication: the identity provider's signing key and the decisions
//! of the bearer token validator.
use vstd::prelude::*;

use crate::json::JsonValue;
use crate::jwt::{token_validation, SigningAlgorithm, TokenRules};
use crate::models::Claims;
use crate::text::{concat2, concat3, owned};

verus! {

/// Why authentication could not proceed.
#[derive(Debug)]
pub enum AuthError {
    InvalidToken(String),
    NoTenantAccess(String),
    KeycloakError(String),
    RequestError(String),
}

impl AuthError {
    /// The human-readable text of the error.
    pub open spec fn spec_message(&self) -> Seq<char> {
        match self {
            AuthError::InvalidToken(s) => "Invalid token: "@ + s@,
            AuthError::NoTenantAccess(s) => "No access to tenant: "@ + s@,
            AuthError::KeycloakError(s) => "Failed to fetch Keycloak public key: "@ + s@,
            AuthError::RequestError(s) => "Request error: "@ + s@,
        }
    }

    /// The human-readable text of the error.
    pub fn message(&self) -> (r: String)
        ensures
            r@ == self.spec_message(),
    {
        match self {
            AuthError::InvalidToken(s) => concat2("Invalid token: ", s.as_str()),
            AuthError::NoTenantAccess(s) => concat2("No access to tenant: ", s.as_str()),
            AuthError::KeycloakError(s) => concat2("Failed to fetch Keycloak public key: ", s.as_str()),
            AuthError::RequestError(s) => concat2("Request error: ", s.as_str()),
        }
    }
}

/// The address of a realm at the identity provider `keycloak_url`; it is
/// also the issuer that the realm's tokens name.
pub open spec fn realm_url(keycloak_url: Seq<char>, realm: Seq<char>) -> Seq<char> {
    keycloak_url + "/auth/realms/"@ + realm
}

/// The address of a realm's signing certificates.
pub open spec fn certs_url(keycloak_url: Seq<char>, realm: Seq<char>) -> Seq<char> {
    realm_url(keycloak_url, realm) + "/protocol/openid-connect/certs"@
}

/// The address of realm `realm` at the identity provider `keycloak_url`.
pub fn keycloak_realm_url(keycloak_url: &str, realm: &str) -> (r: String)
    ensures
        r@ == realm_url(keycloak_url@, realm@),
{
    concat3(keycloak_url, "/auth/realms/", realm)
}

/// The address of the JSON web key set of `realm` at `keycloak_url`.
pub fn keycloak_certs_url(keycloak_url: &str, realm: &str) -> (r: String)
    ensures
        r@ == certs_url(keycloak_url@, realm@),
{
    let mut r = keycloak_realm_url(keycloak_url, realm);
    r.append("/protocol/openid-connect/certs");
    r
}

/// Whether an HTTP status code is a success (200 to 299).
pub open spec fn spec_status_success(status: u16) -> bool {
    200 <= status <= 299
}

/// The decimal digits of a number, most significant first.
pub open spec fn decimal_text(n: nat) -> Seq<char>
    decreases n,
{
    let d = seq!['0', '1', '2', '3', '4', '5', '6', '7', '8', '9'][(n % 10) as int];
    if n < 10 {
        seq![d]
    } else {
        decimal_text(n / 10).push(d)
    }
}

/// The reason phrase that the `http` crate gives a status code: its
/// canonical reason, or `<unknown status code>` where it has none.
pub uninterp spec fn status_reason(code: u16) -> Seq<char>;

/// Calls `reqwest::StatusCode::from_u16(code)` and formats the status with
/// its `Display`, which `http` writes as the code, a space and the reason
/// phrase. The reason phrase itself is left unnamed beyond `status_reason`.
/// `from_u16` accepts exactly the codes 100 to 999.
#[verifier::external_body]
fn status_display(code: u16) -> (r: String)
    requires
        100 <= code <= 999,
    ensures
        r@ == decimal_text(code as nat) + " "@ + status_reason(code),
{
    match reqwest::StatusCode::from_u16(code) {
        Ok(status) => status.to_string(),
        Err(_) => String::new(),
    }
}

/// The key set error for a response whose status displays as `status_text`.
pub fn status_rejection(status_text: &str) -> (r: AuthError)
    ensures
        r matches AuthError::KeycloakError(m) && m@ == "HTTP "@ + status_text@,
{
    AuthError::KeycloakError(concat2("HTTP ", status_text))
}

/// Accepts a key set response with a success status; any other status is
/// the key set error `HTTP <code> <reason>`.
pub fn check_jwks_status(status: u16) -> (r: Result<(), AuthError>)
    requires
        100 <= status <= 999,
    ensures
        spec_status_success(status) ==> r is Ok,
        !spec_status_success(status) ==> (r matches Err(AuthError::KeycloakError(m)) && m@ == "HTTP "@
            + decimal_text(status as nat) + " "@ + status_reason(status)),
{
    if 200 <= status && status <= 299 {
        Ok(())
    } else {
        let text = status_display(status);
        proof {
            assert("HTTP "@ + text@ =~= "HTTP "@ + decimal_text(status as nat) + " "@ + status_reason(status));
        }
        Err(status_rejection(text.as_str()))
    }
}

/// A base64 certificate in PEM armour.
pub open spec fn pem_text(cert: Seq<char>) -> Seq<char> {
    "-----BEGIN CERTIFICATE-----\n"@ + cert + "\n-----END CERTIFICATE-----"@
}

/// Wraps a base64 certificate in PEM armour.
pub fn certificate_pem(cert: &str) -> (r: String)
    ensures
        r@ == pem_text(cert@),
{
    concat3("-----BEGIN CERTIFICATE-----\n", cert, "\n-----END CERTIFICATE-----")
}

/// The first certificate of the first key of a key set: the first string
/// of the `x5c` array of the first element of the `keys` array.
pub open spec fn jwks_first_certificate(jwks: JsonValue) -> Option<Seq<char>> {
    match jwks.member("keys"@) {
        Some(keys) => match keys.elements() {
            Some(ks) => if ks.len() > 0 {
                match ks[0].member("x5c"@) {
                    Some(chain) => match chain.elements() {
                        Some(cs) => if cs.len() > 0 {
                            cs[0].text()
                        } else {
                            None
                        },
                        None => None,
                    },
                    None => None,
                }
            } else {
                None
            },
            None => None,
        },
        None => None,
    }
}

/// The certificate of a key set is the first string in the `x5c` array of
/// the first element of its `keys` array, however many keys follow.
pub proof fn lemma_certificate_of_first_key(jwks: JsonValue, ks: Seq<JsonValue>, cs: Seq<JsonValue>)
    requires
        jwks.member("keys"@) matches Some(k) && k.elements() == Some(ks),
        ks.len() > 0,
        ks[0].member("x5c"@) matches Some(x) && x.elements() == Some(cs),
        cs.len() > 0,
    ensures
        jwks_first_certificate(jwks) == cs[0].text(),
{
}

/// Two key sets whose `keys` arrays start with the same key give the same
/// certificate: keys after the first never change it.
pub proof fn lemma_certificate_ignores_later_keys(
    a: JsonValue,
    b: JsonValue,
    ka: Seq<JsonValue>,
    kb: Seq<JsonValue>,
)
    requires
        a.member("keys"@) matches Some(k) && k.elements() == Some(ka),
        b.member("keys"@) matches Some(k) && k.elements() == Some(kb),
        ka.len() > 0,
        kb.len() > 0,
        ka[0] == kb[0],
    ensures
        jwks_first_certificate(a) == jwks_first_certificate(b),
{
}

/// The first certificate of the first key of a key set, if it has one.
pub fn first_certificate(jwks: &JsonValue) -> (r: Option<String>)
    ensures
        match jwks_first_certificate(*jwks) {
            Some(c) => r is Some && r->0@ == c,
            None => r is None,
        },
{
    let keys = match jwks.get("keys") {
        Some(k) => k,
        None => return None,
    };
    let ks = match keys.as_array() {
        Some(ks) => ks,
        None => return None,
    };
    if ks.len() == 0 {
        return None;
    }
    let chain = match ks[0].get("x5c") {
        Some(c) => c,
        None => return None,
    };
    let cs = match chain.as_array() {
        Some(cs) => cs,
        None => return None,
    };
    if cs.len() == 0 {
        return None;
    }
    match cs[0].as_str() {
        Some(s) => Some(s.clone()),
        None => None,
    }
}

/// The public key that a key set offers: the PEM of its first certificate,
/// or the key set error `No valid key found in JWKS`.
pub fn public_key_from_jwks(jwks: &JsonValue) -> (r: Result<String, AuthError>)
    ensures
        match jwks_first_certificate(*jwks) {
            Some(c) => r is Ok && r->Ok_0@ == pem_text(c),
            None => r matches Err(AuthError::KeycloakError(m)) && m@ == "No valid key found in JWKS"@,
        },
{
    match first_certificate(jwks) {
        Some(cert) => Ok(certificate_pem(cert.as_str())),
        None => Err(AuthError::KeycloakError(owned("No valid key found in JWKS"))),
    }
}

/// The tenant that every hostname resolves to.
pub open spec fn resolved_tenant_guid() -> Seq<char> {
    "0b816d6b898911eca00d02a7681a3548"@
}

/// The tenant GUID of a request's hostname. Every hostname resolves to
/// the same tenant.
pub fn get_tenant_guid_from_hostname(_hostname: &str) -> (r: Result<String, AuthError>)
    ensures
        r is Ok,
        r->Ok_0@ == resolved_tenant_guid(),
{
    Ok(owned("0b816d6b898911eca00d02a7681a3548"))
}

/// The identity provider address and realm to use: the configured ones,
/// `https://id.development.myCompany.dev` and `myCompanyapp` otherwise.
pub fn keycloak_settings(url: Option<String>, realm: Option<String>) -> (r: (String, String))
    ensures
        match url {
            Some(u) => r.0 == u,
            None => r.0@ == "https://id.development.myCompany.dev"@,
        },
        match realm {
            Some(x) => r.1 == x,
            None => r.1@ == "myCompanyapp"@,
        },
{
    let u = match url {
        Some(u) => u,
        None => owned("https://id.development.myCompany.dev"),
    };
    let x = match realm {
        Some(x) => x,
        None => owned("myCompanyapp"),
    };
    (u, x)
}

/// The answer to a refused request.
#[derive(Debug)]
pub enum Rejection {
    Unauthorized(String),
    Forbidden(String),
}

/// Where the validation of one request stands.
#[derive(Debug, Clone, Copy, PartialEq, Eq, Structural)]
pub enum ValidatorState {
    /// The signing key is being fetched.
    AwaitingKey,
    /// The fetched PEM is being turned into an RSA decoding key.
    AwaitingDecodingKey,
    /// The token is being decoded and checked.
    AwaitingClaims,
    /// A verdict was given.
    Finished,
}

/// What the outside work reported.
#[derive(Debug)]
pub enum ValidatorEvent {
    /// The outcome of fetching the signing key.
    KeyFetched(Result<String, AuthError>),
    /// The outcome of reading the PEM as an RSA key; the error's text.
    DecodingKeyBuilt(Result<(), String>),
    /// The outcome of decoding the token under the given rules; the error's text.
    TokenDecoded(Result<Claims, String>),
}

/// What to do next.
#[derive(Debug)]
pub enum ValidatorAction {
    /// Read this PEM as an RSA decoding key.
    BuildDecodingKey(String),
    /// Decode the token with the read key under these rules.
    DecodeToken(TokenRules),
    /// Let the request through with these claims.
    Accept(Claims),
    /// Refuse the request.
    Reject(Rejection),
}

/// Whether `event` is what the work started in `state` reports.
pub open spec fn event_fits(state: ValidatorState, event: ValidatorEvent) -> bool {
    match event {
        ValidatorEvent::KeyFetched(_) => state == ValidatorState::AwaitingKey,
        ValidatorEvent::DecodingKeyBuilt(_) => state == ValidatorState::AwaitingDecodingKey,
        ValidatorEvent::TokenDecoded(_) => state == ValidatorState::AwaitingClaims,
    }
}

/// What one decision of the validator gives for `event`, where the
/// identity provider is at `keycloak_url` and its realm is `realm`.
pub open spec fn step_outcome(
    event: ValidatorEvent,
    keycloak_url: Seq<char>,
    realm: Seq<char>,
    r: (ValidatorState, ValidatorAction),
) -> bool {
    match event {
        ValidatorEvent::KeyFetched(Ok(pem)) => r.0 == ValidatorState::AwaitingDecodingKey
            && r.1 == ValidatorAction::BuildDecodingKey(pem),
        ValidatorEvent::KeyFetched(Err(e)) => r.0 == ValidatorState::Finished
            && (r.1 matches ValidatorAction::Reject(Rejection::Unauthorized(m))
            && m@ == e.spec_message()),
        ValidatorEvent::DecodingKeyBuilt(Ok(())) => r.0 == ValidatorState::AwaitingClaims
            && (r.1 matches ValidatorAction::DecodeToken(rules)
            && rules.algorithm == SigningAlgorithm::Rs256
            && rules.issuer@ == realm_url(keycloak_url, realm)),
        ValidatorEvent::DecodingKeyBuilt(Err(e)) => r.0 == ValidatorState::Finished
            && (r.1 matches ValidatorAction::Reject(Rejection::Unauthorized(m))
            && m@ == "Invalid key format: "@ + e@),
        ValidatorEvent::TokenDecoded(Err(e)) => r.0 == ValidatorState::Finished
            && (r.1 matches ValidatorAction::Reject(Rejection::Unauthorized(m))
            && m@ == "Invalid token: "@ + e@),
        ValidatorEvent::TokenDecoded(Ok(c)) => r.0 == ValidatorState::Finished && if c.tenants().contains(
            resolved_tenant_guid(),
        ) {
            r.1 == ValidatorAction::Accept(c)
        } else {
            r.1 matches ValidatorAction::Reject(Rejection::Forbidden(m)) && m@ == "No access to this tenant"@
        },
    }
}

/// One decision of the bearer token validator for a request to `hostname`,
/// whose identity provider is at `keycloak_url` with realm `realm`.
///
/// A fetched key is read next, and a read key decodes the token under the
/// rules of the realm (RS256, issued by the realm's address); a key that
/// cannot be fetched, an unreadable key and an invalid token are
/// `Unauthorized`; decoded claims are accepted exactly when they give
/// access to the hostname's tenant, and are `Forbidden` otherwise.
pub fn validator_step(
    state: ValidatorState,
    event: ValidatorEvent,
    keycloak_url: &str,
    realm: &str,
    hostname: &str,
) -> (r: (ValidatorState, ValidatorAction))
    requires
        event_fits(state, event),
    ensures
        step_outcome(event, keycloak_url@, realm@, r),
{
    match event {
        ValidatorEvent::KeyFetched(Ok(pem)) => (
            ValidatorState::AwaitingDecodingKey,
            ValidatorAction::BuildDecodingKey(pem),
        ),
        ValidatorEvent::KeyFetched(Err(e)) => (
            ValidatorState::Finished,
            ValidatorAction::Reject(Rejection::Unauthorized(e.message())),
        ),
        ValidatorEvent::DecodingKeyBuilt(Ok(())) => {
            let issuer = keycloak_realm_url(keycloak_url, realm);
            (ValidatorState::AwaitingClaims, ValidatorAction::DecodeToken(token_validation(issuer.as_str())))
        },
        ValidatorEvent::DecodingKeyBuilt(Err(e)) => (
            ValidatorState::Finished,
            ValidatorAction::Reject(Rejection::Unauthorized(concat2("Invalid key format: ", e.as_str()))),
        ),
        ValidatorEvent::TokenDecoded(Err(e)) => (
            ValidatorState::Finished,
            ValidatorAction::Reject(Rejection::Unauthorized(concat2("Invalid token: ", e.as_str()))),
        ),
        ValidatorEvent::TokenDecoded(Ok(claims)) => {
            let tenant = match get_tenant_guid_from_hostname(hostname) {
                Ok(t) => t,
                Err(e) => {
                    let m = e.message();
                    return (
                        ValidatorState::Finished,
                        ValidatorAction::Reject(
                            Rejection::Forbidden(concat2("Error resolving tenant: ", m.as_str())),
                        ),
                    );
                },
            };
            if claims.has_tenant(&tenant) {
                (ValidatorState::Finished, ValidatorAction::Accept(claims))
            } else {
                (
                    ValidatorState::Finished,
                    ValidatorAction::Reject(Rejection::Forbidden(owned("No access to this tenant"))),
                )
            }
        },
    }
}

/// Decoded claims that give access to the hostname's tenant are always let
/// through as they are, whatever other tenants they list.
pub proof fn lemma_claims_with_tenant_accepted(
    c: Claims,
    keycloak_url: Seq<char>,
    realm: Seq<char>,
    r: (ValidatorState, ValidatorAction),
)
    requires
        exists|i: int| 0 <= i < c.conversations@.len() && #[trigger] c.conversations@[i].0@ == resolved_tenant_guid(),
        step_outcome(ValidatorEvent::TokenDecoded(Ok(c)), keycloak_url, realm, r),
    ensures
        r.0 == ValidatorState::Finished,
        r.1 == ValidatorAction::Accept(c),
{
    assert(c.tenants().contains(resolved_tenant_guid()));
}

/// Decoded claims that do not list the hostname's tenant are refused.
pub proof fn lemma_claims_without_tenant_forbidden(
    c: Claims,
    keycloak_url: Seq<char>,
    realm: Seq<char>,
    r: (ValidatorState, ValidatorAction),
)
    requires
        forall|i: int| 0 <= i < c.conversations@.len() ==> (#[trigger] c.conversations@[i]).0@ != resolved_tenant_guid(),
        step_outcome(ValidatorEvent::TokenDecoded(Ok(c)), keycloak_url, realm, r),
    ensures
        r.0 == ValidatorState::Finished,
        r.1 matches ValidatorAction::Reject(Rejection::Forbidden(_)),
{
    if c.tenants().contains(resolved_tenant_guid()) {
        let i = choose|i: int| 0 <= i < c.conversations@.len() && #[trigger] c.conversations@[i].0@ == resolved_tenant_guid();
        assert(c.conversations@[i].0@ != resolved_tenant_guid());
    }
}

/// The validator lets a request through only with claims that it decoded
/// from the token, and that give access to the tenant that the request's
/// hostname resolves to.
pub proof fn lemma_accepted_claims_reach_tenant(
    event: ValidatorEvent,
    keycloak_url: Seq<char>,
    realm: Seq<char>,
    r: (ValidatorState, ValidatorAction),
)
    requires
        step_outcome(event, keycloak_url, realm, r),
        r.1 is Accept,
    ensures
        event matches ValidatorEvent::TokenDecoded(Ok(c)) && r.1 == ValidatorAction::Accept(c)
            && c.tenants().contains(resolved_tenant_guid()),
{
}

} // verus!
