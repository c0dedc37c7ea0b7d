//! The signer capability, and its two variants over JSON Web Tokens: a shared
//! secret (HS256) and an RSA key pair (RS256).

use vstd::prelude::*;
use crate::claims::{Claims, ClaimsView, claims_of, claims_text, decode_claims, encode_claims};
use crate::json::{json_parse, parse_json};
use vstd::string::StringSliceAdditionalSpecFns;

verus! {

/// A failure to sign or to validate, as a message for people.
#[derive(Debug)]
pub struct SignerError {
    pub message: String,
}

impl SignerError {
    /// The error's message.
    pub fn message(&self) -> (r: String)
        ensures
            r@ == self.message@,
    {
        self.message.clone()
    }
}

/// What the service needs of a signer: turn claims into a signed token, and a
/// token back into the claims it carries once its signature, algorithm and
/// expiry have been checked. Both run on shared, unchanging key material, so
/// many connections may call them at once.
pub trait Signer {
    fn sign(&self, claims: &Claims) -> Result<String, SignerError>;

    fn validate(&self, token: &str) -> Result<Claims, SignerError>;
}

#[verifier::external_type_specification]
pub struct ExAlgorithm(jsonwebtoken::Algorithm);

#[verifier::external_type_specification]
#[verifier::external_body]
pub struct ExValidation(jsonwebtoken::Validation);

#[verifier::external_type_specification]
#[verifier::external_body]
pub struct ExEncodingKey(jsonwebtoken::EncodingKey);

#[verifier::external_type_specification]
#[verifier::external_body]
pub struct ExDecodingKey(jsonwebtoken::DecodingKey);

#[verifier::external_type_specification]
#[verifier::external_body]
pub struct ExJwtError(jsonwebtoken::errors::Error);

/// The algorithms a signer can be configured with.
#[derive(PartialEq, Eq, Structural, Clone, Copy, Debug)]
pub enum SigningAlgorithm {
    /// HMAC with SHA-256, over a shared secret.
    HS256,
    /// RSASSA-PKCS1-v1_5 with SHA-256, over an RSA key pair in PEM text.
    RS256,
}

/// What `jsonwebtoken::encode` makes of claims given as JSON text, under a
/// header that names `alg` and the key read from `signing_key`: the token, or
/// the message of the failure.
pub uninterp spec fn jwt_encoding(
    alg: SigningAlgorithm,
    signing_key: Seq<u8>,
    claims_json: Seq<char>,
) -> Result<Seq<char>, Seq<char>>;

/// The JSON text of a token's payload, as `jsonwebtoken::decode` hands it to
/// the deserializer: the base64url-decoded middle segment of the token.
pub uninterp spec fn jwt_payload(token: Seq<char>) -> Seq<char>;

/// Whether `jsonwebtoken::EncodingKey::from_rsa_pem` reads an RSA private key
/// from these bytes.
pub uninterp spec fn rsa_private_pem_ok(pem: Seq<u8>) -> bool;

/// Whether `jsonwebtoken::DecodingKey::from_rsa_pem` reads an RSA public key
/// from these bytes.
pub uninterp spec fn rsa_public_pem_ok(pem: Seq<u8>) -> bool;

/// The number of `.` characters in `s`.
pub open spec fn dot_count(s: Seq<char>) -> nat
    decreases s.len(),
{
    if s.len() == 0 {
        0
    } else {
        dot_count(s.drop_last()) + if s.last() == '.' { 1nat } else { 0nat }
    }
}

/// Relies on `jsonwebtoken::Validation::new`: checks of signature, of the
/// algorithm `alg` and of the `exp` claim.
pub assume_specification[ jsonwebtoken::Validation::new ](alg: jsonwebtoken::Algorithm) -> jsonwebtoken::Validation;

/// Relies on `jsonwebtoken::DecodingKey::from_secret`: an HMAC checking key.
pub assume_specification[ jsonwebtoken::DecodingKey::from_secret ](secret: &[u8]) -> jsonwebtoken::DecodingKey;

/// Relies on `jsonwebtoken::EncodingKey::from_rsa_pem`: an RSA private key
/// read from PEM text, or an error; which of the two depends on the bytes
/// alone.
pub assume_specification[ jsonwebtoken::EncodingKey::from_rsa_pem ](key: &[u8]) -> (r: Result<jsonwebtoken::EncodingKey, jsonwebtoken::errors::Error>)
    ensures
        r is Ok == rsa_private_pem_ok(key@),
;

/// Relies on `jsonwebtoken::DecodingKey::from_rsa_pem`: an RSA public key
/// read from PEM text, or an error; which of the two depends on the bytes
/// alone.
pub assume_specification[ jsonwebtoken::DecodingKey::from_rsa_pem ](key: &[u8]) -> (r: Result<jsonwebtoken::DecodingKey, jsonwebtoken::errors::Error>)
    ensures
        r is Ok == rsa_public_pem_ok(key@),
;

/// Relies on the public field `leeway` of `jsonwebtoken::Validation`: the
/// seconds by which an expiry may be past and still accepted.
#[verifier::external_body]
fn set_leeway(validation: &mut jsonwebtoken::Validation, seconds: u64) {
    validation.leeway = seconds;
}

/// Relies on `jsonwebtoken::encode`, with a `Header::new` for `alg` and the
/// key from `EncodingKey::from_secret` (HS256) or `from_rsa_pem` (RS256); the
/// claims JSON text is handed over unchanged as a `serde_json` raw value.
/// HMAC and RSASSA-PKCS1-v1_5 signing are deterministic, so the outcome, a
/// failure's message included, depends on the arguments alone.
#[verifier::external_body]
fn jwt_encode(alg: SigningAlgorithm, signing_key: &[u8], claims_json: &str) -> (r: Result<String, String>)
    ensures
        jwt_encoding(alg, signing_key@, claims_json@) == match r {
            Ok(t) => Ok(t@),
            Err(m) => Err(m@),
        },
{
    let (algorithm, key) = match alg {
        SigningAlgorithm::HS256 => (jsonwebtoken::Algorithm::HS256, jsonwebtoken::EncodingKey::from_secret(signing_key)),
        SigningAlgorithm::RS256 => match jsonwebtoken::EncodingKey::from_rsa_pem(signing_key) {
            Ok(k) => (jsonwebtoken::Algorithm::RS256, k),
            Err(e) => return Err(e.to_string()),
        },
    };
    let raw = serde_json::value::RawValue::from_string(claims_json.to_string()).map_err(|e| e.to_string())?;
    jsonwebtoken::encode(&jsonwebtoken::Header::new(algorithm), &raw, &key).map_err(|e| e.to_string())
}

/// Relies on `jsonwebtoken::decode`: checks the token's signature, algorithm
/// and expiry, and gives its payload as JSON text, through a `serde_json` raw
/// value. Whether it succeeds depends on the key and the clock; the payload
/// depends on the token alone, and a token with fewer than two `.` is refused.
#[verifier::external_body]
fn jwt_decode(
    token: &str,
    key: &jsonwebtoken::DecodingKey,
    validation: &jsonwebtoken::Validation,
) -> (r: Result<String, jsonwebtoken::errors::Error>)
    ensures
        r matches Ok(p) ==> p@ == jwt_payload(token@),
        dot_count(token@) < 2 ==> r is Err,
{
    let data = jsonwebtoken::decode::<Box<serde_json::value::RawValue>>(token, key, validation)?;
    Ok(data.claims.get().to_string())
}

/// The error for a failure reported by the token library.
fn error_of(e: jsonwebtoken::errors::Error) -> SignerError {
    SignerError { message: e.to_string() }
}

/// The outcome of signing, as plain values.
pub open spec fn sign_outcome(r: Result<String, SignerError>) -> Result<Seq<char>, Seq<char>> {
    match r {
        Ok(t) => Ok(t@),
        Err(e) => Err(e.message@),
    }
}

/// The outcome of validating, as plain values.
pub open spec fn validate_outcome(r: Result<Claims, SignerError>) -> Result<ClaimsView, Seq<char>> {
    match r {
        Ok(c) => Ok(c@),
        Err(e) => Err(e.message@),
    }
}

/// The claims that a token payload, as JSON text, decodes to.
pub open spec fn payload_claims(payload: Seq<char>) -> Option<ClaimsView> {
    match json_parse(payload) {
        Some(j) => claims_of(j),
        None => None,
    }
}

/// Decodes the claims of a token payload given as JSON text.
pub fn claims_from_payload(payload: &str) -> (r: Result<Claims, SignerError>)
    ensures
        match r {
            Ok(c) => payload_claims(payload@) == Some(c@),
            Err(_) => payload_claims(payload@) is None,
        },
{
    let decoded = match parse_json(payload) {
        Some(j) => decode_claims(&j),
        None => None,
    };
    match decoded {
        Some(c) => Ok(c),
        None => Err(SignerError { message: String::from_str("token payload holds no valid claims") }),
    }
}

/// The key material and settings of one signing algorithm. Expiry is checked
/// with no leeway: a token whose `exp` has passed is refused.
pub struct JwtKeys {
    pub algorithm: SigningAlgorithm,
    /// The shared secret (HS256) or the private key's PEM text (RS256).
    pub signing_key: Vec<u8>,
    /// The key that checks signatures.
    pub decoding: jsonwebtoken::DecodingKey,
    /// The checks made on a token.
    pub validation: jsonwebtoken::Validation,
}

impl JwtKeys {
    fn new(algorithm: SigningAlgorithm, signing_key: Vec<u8>, decoding: jsonwebtoken::DecodingKey) -> (r: JwtKeys)
        ensures
            r.algorithm == algorithm,
            r.signing_key@ == signing_key@,
    {
        let alg = match algorithm {
            SigningAlgorithm::HS256 => jsonwebtoken::Algorithm::HS256,
            SigningAlgorithm::RS256 => jsonwebtoken::Algorithm::RS256,
        };
        let mut validation = jsonwebtoken::Validation::new(alg);
        set_leeway(&mut validation, 0);
        JwtKeys { algorithm, signing_key, decoding, validation }
    }

    /// Signs the JSON text of `claims` into a token.
    pub fn sign_claims(&self, claims: &Claims) -> (r: Result<String, SignerError>)
        ensures
            sign_outcome(r) == jwt_encoding(self.algorithm, self.signing_key@, claims_text(claims@)),
    {
        let text = encode_claims(claims);
        match jwt_encode(self.algorithm, self.signing_key.as_slice(), text.as_str()) {
            Ok(t) => Ok(t),
            Err(m) => Err(SignerError { message: m }),
        }
    }

    /// Checks `token` and decodes the claims its payload carries.
    pub fn validate_token(&self, token: &str) -> (r: Result<Claims, SignerError>)
        ensures
            r matches Ok(c) ==> payload_claims(jwt_payload(token@)) == Some(c@),
            dot_count(token@) < 2 ==> r is Err,
    {
        match jwt_decode(token, &self.decoding, &self.validation) {
            Ok(payload) => claims_from_payload(payload.as_str()),
            Err(e) => Err(error_of(e)),
        }
    }
}

/// A signer with one shared secret, used both to sign and to check tokens,
/// under HMAC with SHA-256.
pub struct HS256Signer {
    pub keys: JwtKeys,
}

impl HS256Signer {
    /// A signer for `secret`.
    pub fn new(secret: &str) -> (r: HS256Signer)
        ensures
            r.keys.algorithm == SigningAlgorithm::HS256,
            r.keys.signing_key@ == secret.spec_bytes(),
    {
        let decoding = jsonwebtoken::DecodingKey::from_secret(secret.as_bytes());
        HS256Signer { keys: JwtKeys::new(SigningAlgorithm::HS256, secret.as_bytes_vec(), decoding) }
    }
}

impl Signer for HS256Signer {
    fn sign(&self, claims: &Claims) -> (r: Result<String, SignerError>)
        ensures
            sign_outcome(r) == jwt_encoding(self.keys.algorithm, self.keys.signing_key@, claims_text(claims@)),
    {
        self.keys.sign_claims(claims)
    }

    fn validate(&self, token: &str) -> (r: Result<Claims, SignerError>)
        ensures
            r matches Ok(c) ==> payload_claims(jwt_payload(token@)) == Some(c@),
            dot_count(token@) < 2 ==> r is Err,
    {
        self.keys.validate_token(token)
    }
}

/// A signer with an RSA key pair: the private key signs, the public key
/// checks, under RSASSA-PKCS1-v1_5 with SHA-256.
pub struct RS256Signer {
    pub keys: JwtKeys,
}

impl RS256Signer {
    /// A signer for the PEM texts of a private and a public RSA key; an error
    /// where either cannot be read.
    pub fn new(private_pem: &str, public_pem: &str) -> (r: Result<RS256Signer, SignerError>)
        ensures
            r is Ok <==> rsa_private_pem_ok(private_pem.spec_bytes()) && rsa_public_pem_ok(public_pem.spec_bytes()),
            r matches Ok(s) ==> s.keys.algorithm == SigningAlgorithm::RS256 && s.keys.signing_key@ == private_pem.spec_bytes(),
    {
        match jsonwebtoken::EncodingKey::from_rsa_pem(private_pem.as_bytes()) {
            Ok(_) => {},
            Err(e) => return Err(error_of(e)),
        }
        let decoding = match jsonwebtoken::DecodingKey::from_rsa_pem(public_pem.as_bytes()) {
            Ok(k) => k,
            Err(e) => return Err(error_of(e)),
        };
        Ok(RS256Signer { keys: JwtKeys::new(SigningAlgorithm::RS256, private_pem.as_bytes_vec(), decoding) })
    }
}

impl Signer for RS256Signer {
    fn sign(&self, claims: &Claims) -> (r: Result<String, SignerError>)
        ensures
            sign_outcome(r) == jwt_encoding(self.keys.algorithm, self.keys.signing_key@, claims_text(claims@)),
    {
        self.keys.sign_claims(claims)
    }

    fn validate(&self, token: &str) -> (r: Result<Claims, SignerError>)
        ensures
            r matches Ok(c) ==> payload_claims(jwt_payload(token@)) == Some(c@),
            dot_count(token@) < 2 ==> r is Err,
    {
        self.keys.validate_token(token)
    }
}

} // verus!
