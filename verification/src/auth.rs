use vstd::prelude::*;
use jsonwebtoken::{decode, Algorithm, DecodingKey, Validation};
use jsonwebtoken::errors::ErrorKind;
use serde_json::Value;

verus! {

/// Why a token was rejected. Every failure of validation is one of these; a
/// caller can tell a forged signature from an expired token from a malformed
/// request.
#[derive(Debug, Clone, Copy, PartialEq, Eq, Structural)]
pub enum ValidationError {
    /// The token cannot be decoded: wrong number of sections, a section that
    /// is not valid base64url, or a header or payload that is not valid JSON.
    MalformedToken,
    /// The signature does not verify against the supplied key under RS512.
    SignatureInvalid,
    /// The header declares an algorithm other than the fixed RS512.
    AlgorithmMismatch,
    /// The payload is a well-formed claim set but does not carry both
    /// `join_hub` and `kick_users` as booleans.
    ClaimShapeInvalid,
    /// The payload carries an `exp` claim that lies in the past.
    TokenExpired,
    /// The payload carries an `nbf` claim that lies in the future.
    TokenNotYetValid,
}

/// What RS512 decoding makes of a token against a key, the clock aside.
/// For a fixed token, key and pair of claim names this classification never
/// changes; only the time checks inside the `Claims` case depend on when the
/// token is examined.
pub enum Decoded {
    /// The token cannot be decoded: it does not split into three sections,
    /// a section is not valid base64url, or the header or payload is not
    /// well-formed JSON for its schema.
    Undecodable,
    /// The token decodes and its header declares a known algorithm other
    /// than RS512.
    OtherAlgorithm,
    /// The token decodes, declares RS512, but its signature does not verify
    /// against the key.
    SignatureMismatch,
    /// The signature verifies against the key under RS512. `first` and
    /// `second` are the payload's values for the two requested claim names
    /// where those are booleans; `has_exp` and `has_nbf` say whether the
    /// payload carries a numeric `exp` or `nbf` claim.
    Claims { first: Option<bool>, second: Option<bool>, has_exp: bool, has_nbf: bool },
}

/// The classification that RS512 decoding assigns to `token` against `key`,
/// projecting the claims named `first` and `second`. It stands for the
/// timeless part of what `jsonwebtoken::decode` computes, which is a function
/// of these arguments alone.
pub uninterp spec fn rs512_decoding(
    token: Seq<char>,
    key: Seq<u8>,
    first: Seq<char>,
    second: Seq<char>,
) -> Decoded;

/// How many '.' characters a string holds. A compact token has exactly two.
pub open spec fn dot_count(s: Seq<char>) -> nat
    decreases s.len(),
{
    if s.len() == 0 {
        0
    } else {
        (if s.last() == '.' {
            1nat
        } else {
            0nat
        }) + dot_count(s.drop_last())
    }
}

/// The validation result that rejects with `e`.
pub open spec fn rejected(e: ValidationError) -> Result<ValidatedToken, ValidationError> {
    Err(e)
}

/// The validation result that accepts with the two given claims.
pub open spec fn accepted(join_hub: bool, kick_users: bool) -> Result<
    ValidatedToken,
    ValidationError,
> {
    Ok(ValidatedToken { join_hub, kick_users })
}

/// The decoding result that rejects with `e`.
pub open spec fn flags_rejected(e: ValidationError) -> Result<
    (Option<bool>, Option<bool>),
    ValidationError,
> {
    Err(e)
}

/// The decoding result that hands back the two claim values.
pub open spec fn flags_returned(first: Option<bool>, second: Option<bool>) -> Result<
    (Option<bool>, Option<bool>),
    ValidationError,
> {
    Ok((first, second))
}

/// Relates the classification of a token to the flag pair the decoding call
/// returns for it. In the `Claims` case the time checks may still reject the
/// token, but only through a time claim it actually carries.
pub open spec fn flags_outcome(
    d: Decoded,
    r: Result<(Option<bool>, Option<bool>), ValidationError>,
) -> bool {
    match d {
        Decoded::Undecodable => r == flags_rejected(ValidationError::MalformedToken),
        Decoded::OtherAlgorithm => r == flags_rejected(ValidationError::AlgorithmMismatch),
        Decoded::SignatureMismatch => r == flags_rejected(ValidationError::SignatureInvalid),
        Decoded::Claims { first, second, has_exp, has_nbf } => {
            ||| r == flags_returned(first, second)
            ||| (has_exp && r == flags_rejected(ValidationError::TokenExpired))
            ||| (has_nbf && r == flags_rejected(ValidationError::TokenNotYetValid))
        },
    }
}

/// Relates the classification of a token to the validation result owed for
/// it: the claims are handed back exactly when the signature verifies, both
/// boolean claims are present, and no time claim rejects the token.
pub open spec fn token_outcome(d: Decoded, r: Result<ValidatedToken, ValidationError>) -> bool {
    match d {
        Decoded::Undecodable => r == rejected(ValidationError::MalformedToken),
        Decoded::OtherAlgorithm => r == rejected(ValidationError::AlgorithmMismatch),
        Decoded::SignatureMismatch => r == rejected(ValidationError::SignatureInvalid),
        Decoded::Claims { first, second, has_exp, has_nbf } => {
            ||| (first is Some && second is Some && r == accepted(
                first.unwrap(),
                second.unwrap(),
            ))
            ||| ((first is None || second is None) && r == rejected(
                ValidationError::ClaimShapeInvalid,
            ))
            ||| (has_exp && r == rejected(ValidationError::TokenExpired))
            ||| (has_nbf && r == rejected(ValidationError::TokenNotYetValid))
        },
    }
}

/// Relies on `jsonwebtoken::decode` pinned to `Algorithm::RS512` alone, with
/// `exp` and `nbf` checked when the payload carries them, no claim required,
/// and no audience expected. The key is taken as an RSA public key in PKCS#1
/// DER form; the algorithm accepted is fixed here and never read from the
/// token, and the claim values handed back come from the verified payload
/// only. A token with other than two dots never reaches a verdict besides
/// `InvalidToken` or a base64 failure in that crate, so it is always reported
/// malformed.
#[verifier::external_body]
fn decode_rs512(token: &str, key: &[u8], first: &str, second: &str) -> (r: Result<(Option<bool>, Option<bool>), ValidationError>)
    ensures
        flags_outcome(rs512_decoding(token@, key@, first@, second@), r),
        dot_count(token@) != 2 ==> r == flags_rejected(ValidationError::MalformedToken),
{
    let mut checks = Validation::new(Algorithm::RS512);
    checks.required_spec_claims.clear();
    checks.validate_nbf = true;
    checks.validate_aud = false;
    match decode::<Value>(token, &DecodingKey::from_rsa_der(key), &checks) {
        Ok(d) => Ok((d.claims.get(first).and_then(Value::as_bool), d.claims.get(second).and_then(Value::as_bool))),
        Err(e) => Err(match e.into_kind() {
            ErrorKind::InvalidSignature => ValidationError::SignatureInvalid,
            ErrorKind::InvalidAlgorithm => ValidationError::AlgorithmMismatch,
            ErrorKind::ExpiredSignature => ValidationError::TokenExpired,
            ErrorKind::ImmatureSignature => ValidationError::TokenNotYetValid,
            _ => ValidationError::MalformedToken,
        }),
    }
}

/// The capability record produced by a successful validation: the two
/// boolean authorization claims carried by the token. A value of this type
/// only ever comes out of `from_str`, after the signature has verified.
#[derive(Debug, Clone, PartialEq, Eq, Structural)]
pub struct ValidatedToken {
    pub join_hub: bool,
    pub kick_users: bool,
}

impl ValidatedToken {
    /// Validate `value` as a compact token signed under RS512 against the
    /// RSA public key `key` (PKCS#1 DER), and project the verified payload's
    /// `join_hub` and `kick_users` claims into a capability record. The
    /// algorithm is fixed: whatever the token itself declares, nothing but
    /// RS512 is accepted.
    pub fn from_str(value: &str, key: &[u8]) -> (r: Result<ValidatedToken, ValidationError>)
        ensures
            token_outcome(rs512_decoding(value@, key@, "join_hub"@, "kick_users"@), r),
            r is Ok ==> rs512_decoding(value@, key@, "join_hub"@, "kick_users"@) is Claims,
            dot_count(value@) != 2 ==> r == rejected(ValidationError::MalformedToken),
            value@.len() == 0 ==> r == rejected(ValidationError::MalformedToken),
    {
        match decode_rs512(value, key, "join_hub", "kick_users") {
            Ok((Some(join_hub), Some(kick_users))) => Ok(ValidatedToken { join_hub, kick_users }),
            Ok(_) => Err(ValidationError::ClaimShapeInvalid),
            Err(e) => Err(e),
        }
    }
}

/// A token whose signature verifies, whose payload carries both boolean
/// claims, and which carries no time claim is accepted with exactly those
/// claims: validation never invents or alters a claim value.
pub proof fn valid_token_yields_its_claims(
    d: Decoded,
    r: Result<ValidatedToken, ValidationError>,
    b1: bool,
    b2: bool,
)
    requires
        token_outcome(d, r),
        d == (Decoded::Claims {
            first: Some(b1),
            second: Some(b2),
            has_exp: false,
            has_nbf: false,
        }),
    ensures
        r == accepted(b1, b2),
{
}

/// A token whose signature does not verify against the supplied key is
/// rejected as `SignatureInvalid`, never accepted and never misreported.
pub proof fn wrong_key_rejected(d: Decoded, r: Result<ValidatedToken, ValidationError>)
    requires
        token_outcome(d, r),
        d == Decoded::SignatureMismatch,
    ensures
        r == rejected(ValidationError::SignatureInvalid),
{
}

/// A token that declares any algorithm other than the fixed RS512 is
/// rejected as `AlgorithmMismatch`, however well-formed it is otherwise.
pub proof fn other_algorithm_rejected(d: Decoded, r: Result<ValidatedToken, ValidationError>)
    requires
        token_outcome(d, r),
        d == Decoded::OtherAlgorithm,
    ensures
        r == rejected(ValidationError::AlgorithmMismatch),
{
}

/// A token that does not decode into three valid sections is rejected as
/// `MalformedToken`.
pub proof fn undecodable_rejected(d: Decoded, r: Result<ValidatedToken, ValidationError>)
    requires
        token_outcome(d, r),
        d == Decoded::Undecodable,
    ensures
        r == rejected(ValidationError::MalformedToken),
{
}

/// A token whose signature verifies but whose payload lacks either boolean
/// claim, and which carries no time claim, is rejected as
/// `ClaimShapeInvalid`: a missing claim is a failure, never a default.
pub proof fn missing_claim_rejected(
    d: Decoded,
    r: Result<ValidatedToken, ValidationError>,
    first: Option<bool>,
    second: Option<bool>,
)
    requires
        token_outcome(d, r),
        d == (Decoded::Claims { first, second, has_exp: false, has_nbf: false }),
        first is None || second is None,
    ensures
        r == rejected(ValidationError::ClaimShapeInvalid),
{
}

} // verus!

