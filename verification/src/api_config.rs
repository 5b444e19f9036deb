//! Settings of the HTTP API service.

use vstd::prelude::*;
use vstd::utf8::encode_utf8;
use actix_web_middleware_keycloak_auth::DecodingKey;

verus! {

/// Settings of the HTTP API service.
#[derive(Debug, Clone, PartialEq, Eq)]
pub struct AppConfig {
    pub port: u16,
    pub cors: Option<bool>,
    pub keycloak_pk: String,
    pub eventstore_url: String,
    pub couchbase_url: String,
    pub couchbase_username: String,
    pub couchbase_password: String,
    pub couchbase_bucket: String,
    pub sentry_dsn: String,
}

/// A public key in PEM form, around the base64 body `key`.
pub open spec fn public_key_pem(key: Seq<char>) -> Seq<char> {
    "-----BEGIN PUBLIC KEY-----\n"@ + key + "\n-----END PUBLIC KEY-----"@
}

/// A key that checks the signatures of access tokens.
#[verifier::external_type_specification]
#[verifier::external_body]
pub struct ExDecodingKey(DecodingKey);

/// Whether `DecodingKey::from_rsa_pem` accepts these bytes.
pub uninterp spec fn rsa_pem_accepted(pem: Seq<u8>) -> bool;

/// The key `DecodingKey::from_rsa_pem` reads from these bytes, where it
/// accepts them.
pub uninterp spec fn rsa_pem_key(pem: Seq<u8>) -> DecodingKey;

/// The message of the error `DecodingKey::from_rsa_pem` gives for these bytes.
pub uninterp spec fn rsa_pem_error(pem: Seq<u8>) -> Seq<char>;

/// `DecodingKey::from_rsa_pem`: reads an RSA public key in PEM form. Whether it
/// accepts the bytes, the key it reads and the message of its error are
/// named, not stated; each depends on the bytes alone.
#[verifier::external_body]
fn decode_rsa_pem(pem: &[u8]) -> (r: Result<DecodingKey, String>)
    ensures
        r is Ok <==> rsa_pem_accepted(pem@),
        r matches Ok(k) ==> k == rsa_pem_key(pem@),
        r matches Err(m) ==> m@ == rsa_pem_error(pem@),
{
    match DecodingKey::from_rsa_pem(pem) {
        Ok(key) => Ok(key),
        Err(e) => Err(e.to_string()),
    }
}

impl AppConfig {
    /// The identity provider's public key in PEM form.
    pub fn keycloak_pem(&self) -> (r: String)
        ensures
            r@ == public_key_pem(self.keycloak_pk@),
    {
        let mut r = String::from_str("-----BEGIN PUBLIC KEY-----\n");
        r.append(self.keycloak_pk.as_str());
        r.append("\n-----END PUBLIC KEY-----");
        r
    }

    /// The key that checks access tokens, read from the identity provider's
    /// public key in PEM form; the error's message where it cannot be read.
    pub fn keycloak_oid_public_key(&self) -> (r: Result<DecodingKey, String>)
        ensures
            r is Ok <==> rsa_pem_accepted(encode_utf8(public_key_pem(self.keycloak_pk@))),
            r matches Ok(k) ==> k == rsa_pem_key(encode_utf8(public_key_pem(self.keycloak_pk@))),
            r matches Err(m) ==> m@ == rsa_pem_error(encode_utf8(public_key_pem(self.keycloak_pk@))),
    {
        let pem = self.keycloak_pem();
        decode_rsa_pem(pem.as_str().as_bytes())
    }

    /// Whether cross-origin requests are allowed: only where the setting is
    /// given and true.
    pub fn cors_enabled(&self) -> (r: bool)
        ensures
            r == (self.cors == Some(true)),
    {
        match self.cors {
            Some(c) => c,
            None => false,
        }
    }
}

} // verus!
