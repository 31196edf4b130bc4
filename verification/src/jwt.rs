//! The signing key of bearer tokens, read with the `jsonwebtoken` crate,
//! and the rules that a token is checked against.
use vstd::prelude::*;

use jsonwebtoken::DecodingKey;

use crate::text::owned;

verus! {

#[verifier::external_type_specification]
#[verifier::external_body]
pub struct ExDecodingKey(jsonwebtoken::DecodingKey);

/// What `jsonwebtoken` makes of `pem` as a PEM-armoured RSA key: success,
/// or the text of the error that it reports.
pub uninterp spec fn rsa_pem_reading(pem: Seq<char>) -> Result<(), Seq<char>>;

/// Calls `DecodingKey::from_rsa_pem` on the bytes of `pem`, and gives an
/// error as its `Display` text. The contract claims that the outcome, and
/// an error's text, depend on the PEM text alone; the key it builds is
/// opaque.
#[verifier::external_body]
fn rsa_key_from_pem(pem: &str) -> (r: Result<DecodingKey, String>)
    ensures
        match rsa_pem_reading(pem@) {
            Ok(()) => r is Ok,
            Err(text) => r matches Err(e) && e@ == text,
        },
{
    match DecodingKey::from_rsa_pem(pem.as_bytes()) {
        Ok(k) => Ok(k),
        Err(e) => Err(e.to_string()),
    }
}

/// Reads a PEM-armoured RSA public key; an unreadable key gives the
/// error's text.
pub fn read_decoding_key(pem: &str) -> (r: Result<DecodingKey, String>)
    ensures
        match rsa_pem_reading(pem@) {
            Ok(()) => r is Ok,
            Err(text) => r matches Err(e) && e@ == text,
        },
{
    rsa_key_from_pem(pem)
}

/// The signature algorithms that tokens are accepted with.
#[derive(Debug, Clone, Copy, PartialEq, Eq, Structural)]
pub enum SigningAlgorithm {
    /// RSASSA-PKCS1-v1_5 with SHA-256.
    Rs256,
}

/// The rules that a bearer token is checked against: the algorithm of its
/// signature and the issuer that its `iss` claim must name.
#[derive(Debug)]
pub struct TokenRules {
    pub algorithm: SigningAlgorithm,
    pub issuer: String,
}

/// The rules for tokens of the identity provider realm at `issuer`: an
/// RS256 signature and exactly that issuer.
pub fn token_validation(issuer: &str) -> (r: TokenRules)
    ensures
        r.algorithm == SigningAlgorithm::Rs256,
        r.issuer@ == issuer@,
{
    TokenRules { algorithm: SigningAlgorithm::Rs256, issuer: owned(issuer) }
}

} // verus!
