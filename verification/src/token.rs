//! Verification of bearer tokens: an RS256 signature check against one
//! public key, an audience check and the standard expiry check, followed by
//! the extraction of the subject as the local user identifier.

use crate::errors::Error;
use crate::json::{json_text_members, spec_member, text_member};
use crate::models::Claims;
use crate::text::{lemma_without_prefix_undoes_prepend, remove_prefix, without_prefix};
use vstd::prelude::*;
use vstd::string::*;

verus! {

#[verifier::external_type_specification]
#[verifier::external_body]
pub struct ExDecodingKey(jsonwebtoken::DecodingKey);

/// Whether an RSA key is read from `pem`: the PEM encoding of a public or
/// private RSA key, or of a certificate that holds one.
pub uninterp spec fn rsa_pem_is_key(pem: Seq<u8>) -> bool;

/// `jsonwebtoken::DecodingKey::from_rsa_pem`, its error given as its
/// `Display` text. Trusted: whether a key comes back depends on the bytes
/// alone. Nothing is claimed of the error's text.
#[verifier::external_body]
pub(crate) fn key_from_rsa_pem(pem: &[u8]) -> (key: Result<jsonwebtoken::DecodingKey, String>)
    ensures
        key.is_ok() == rsa_pem_is_key(pem@),
{
    jsonwebtoken::DecodingKey::from_rsa_pem(pem).map_err(|error| error.to_string())
}

/// `jsonwebtoken::decode` with a validation for RS256, the one audience
/// given and the claims that a token is required to carry; the claims of a
/// token that passed, or the `Display` text of the error. The claims
/// required are the expiry and the audience, and no other list is taken: a
/// token that names no audience is never compared, so it must not pass for
/// want of the claim. The outcome depends on the clock, so nothing is claimed
/// of it: the callers state what they make of either outcome. The crate
/// reads the system clock and takes it to show a time after 1970.
#[verifier::external_body]
pub(crate) fn decode_rs256(
    token: &str,
    key: &jsonwebtoken::DecodingKey,
    audience: &str,
    required: &[&str],
) -> (claims: Result<serde_json::Value, String>)
    requires
        required@.len() == 2,
        required@[0]@ == EXPIRY_CLAIM@,
        required@[1]@ == AUDIENCE_CLAIM@,
{
    let mut validation = jsonwebtoken::Validation::new(jsonwebtoken::Algorithm::RS256);
    validation.set_audience(&[audience]);
    validation.set_required_spec_claims(required);
    match jsonwebtoken::decode::<serde_json::Value>(token, key, &validation) {
        Ok(data) => Ok(data.claims),
        Err(error) => Err(error.to_string()),
    }
}

/// The namespace tag that the identity provider puts in front of the
/// identifiers it issues.
pub const PROVIDER_PREFIX: &'static str = "auth0|";

/// The claim that names the token's subject.
pub const SUBJECT_CLAIM: &'static str = "sub";

/// The claim that says until when the token is valid.
pub const EXPIRY_CLAIM: &'static str = "exp";

/// The claim that names whom the token is for.
pub const AUDIENCE_CLAIM: &'static str = "aud";

/// The reason given for a token that passed the check and names no subject.
pub const MISSING_SUBJECT: &'static str = "missing field `sub`";

/// The local identifier of the user whom the provider calls `subject`: the
/// subject without the provider's tag in front. The tag is taken off once:
/// what follows it is the identifier that the provider issued, whatever it
/// begins with.
pub open spec fn spec_user_id(subject: Seq<char>) -> Seq<char> {
    without_prefix(subject, PROVIDER_PREFIX@)
}

/// What verification makes of a set of verified claims: the local
/// identifier of the subject, or nothing where the claims name no subject.
pub open spec fn spec_user_id_of_claims(members: Map<Seq<char>, Seq<char>>) -> Option<Seq<char>> {
    match spec_member(members, SUBJECT_CLAIM@) {
        Some(subject) => Some(spec_user_id(subject)),
        None => None,
    }
}

/// The provider's tag is stripped: a subject made of the tag and an
/// identifier yields that identifier.
pub proof fn law_tag_is_stripped(bare: Seq<char>)
    ensures
        spec_user_id(PROVIDER_PREFIX@ + bare) == bare,
{
    lemma_without_prefix_undoes_prepend(bare, PROVIDER_PREFIX@);
}

/// The local identifier of the user whom the provider calls `subject`.
pub fn user_id_of_subject(subject: &str) -> (id: String)
    ensures
        id@ == spec_user_id(subject@),
{
    remove_prefix(subject, PROVIDER_PREFIX)
}

/// The claims that are read from the claims of a token: its subject. `None`
/// where the token names no subject in text.
pub fn claims_of(document: &serde_json::Value) -> (claims: Option<Claims>)
    ensures
        match spec_member(json_text_members(*document), SUBJECT_CLAIM@) {
            Some(subject) => claims matches Some(read) && read.sub@ == subject,
            None => claims is None,
        },
{
    match text_member(document, SUBJECT_CLAIM) {
        Some(sub) => Some(Claims { sub }),
        None => None,
    }
}

/// Turns the outcome of the signature and claims check into the outcome of
/// verification. A token that failed the check fails verification; one that
/// passed yields its subject's local identifier, and fails if it names no
/// subject. Every failure is a `JsonWebTokenError`.
pub fn user_id_of_decoded(decoded: Result<serde_json::Value, String>) -> (verified: Result<
    String,
    Error,
>)
    ensures
        match decoded {
            Ok(claims) => match spec_user_id_of_claims(json_text_members(claims)) {
                Some(id) => verified matches Ok(found) && found@ == id,
                None => verified matches Err(Error::JsonWebTokenError(reason)) && reason@
                    == MISSING_SUBJECT@,
            },
            Err(reason) => verified == Err::<String, Error>(Error::JsonWebTokenError(reason)),
        },
        verified matches Err(error) ==> error is JsonWebTokenError,
{
    match decoded {
        Ok(document) => match claims_of(&document) {
            Some(claims) => Ok(user_id_of_subject(claims.sub.as_str())),
            None => Err(Error::JsonWebTokenError(String::from_str(MISSING_SUBJECT))),
        },
        Err(reason) => Err(Error::JsonWebTokenError(reason)),
    }
}

/// Loads the verification key from the PEM encoding of an RSA public key.
pub fn decoding_key_from_pem(pem: &[u8]) -> (key: Result<jsonwebtoken::DecodingKey, Error>)
    ensures
        key.is_ok() == rsa_pem_is_key(pem@),
        key matches Err(error) ==> error is JsonWebTokenError,
{
    match key_from_rsa_pem(pem) {
        Ok(key) => Ok(key),
        Err(reason) => Err(Error::JsonWebTokenError(reason)),
    }
}

/// Verifies `token` against `key` and `audience` and extracts the local
/// identifier of its subject. The token is required to carry an expiry and
/// an audience: one without either is not put to the comparison, it fails.
/// Whether the token passes is decided by the signature, the audience and the
/// clock; whatever the outcome, a failure is a `JsonWebTokenError`.
pub fn extract_user_id(token: &str, key: &jsonwebtoken::DecodingKey, audience: &str) -> (verified:
    Result<String, Error>)
    ensures
        verified matches Err(error) ==> error is JsonWebTokenError,
{
    let required = [EXPIRY_CLAIM, AUDIENCE_CLAIM];
    user_id_of_decoded(decode_rs256(token, key, audience, &required))
}

/// A verifier for one key and one audience, built once and handed to every
/// component that checks tokens.
pub struct TokenVerifier {
    decoding_key: jsonwebtoken::DecodingKey,
    audience: String,
}

impl TokenVerifier {
    /// The audience that tokens must name.
    pub closed spec fn spec_audience(&self) -> Seq<char> {
        self.audience@
    }

    /// The key that signatures are checked against.
    pub closed spec fn spec_decoding_key(&self) -> jsonwebtoken::DecodingKey {
        self.decoding_key
    }

    /// A verifier for `decoding_key` and `audience`.
    pub fn new(decoding_key: jsonwebtoken::DecodingKey, audience: String) -> (verifier: Self)
        ensures
            verifier.spec_audience() == audience@,
            verifier.spec_decoding_key() == decoding_key,
    {
        TokenVerifier { decoding_key, audience }
    }

    /// A verifier for the RSA public key that `pem` encodes.
    pub fn from_pem(pem: &[u8], audience: String) -> (verifier: Result<Self, Error>)
        ensures
            verifier.is_ok() == rsa_pem_is_key(pem@),
            verifier matches Ok(v) ==> v.spec_audience() == audience@,
            verifier matches Err(error) ==> error is JsonWebTokenError,
    {
        match decoding_key_from_pem(pem) {
            Ok(decoding_key) => Ok(TokenVerifier { decoding_key, audience }),
            Err(error) => Err(error),
        }
    }

    /// The key that signatures are checked against.
    pub fn decoding_key(&self) -> (key: &jsonwebtoken::DecodingKey)
        ensures
            *key == self.spec_decoding_key(),
    {
        &self.decoding_key
    }

    /// The audience that tokens must name.
    pub fn audience(&self) -> (audience: &str)
        ensures
            audience@ == self.spec_audience(),
    {
        self.audience.as_str()
    }

    /// Verifies `token` and extracts the local identifier of its subject.
    pub fn extract_user_id(&self, token: &str) -> (verified: Result<String, Error>)
        ensures
            verified matches Err(error) ==> error is JsonWebTokenError,
    {
        extract_user_id(token, &self.decoding_key, self.audience.as_str())
    }
}

} // verus!
