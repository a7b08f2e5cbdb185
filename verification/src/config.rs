use base64::Engine;
use vstd::prelude::*;
use vstd::string::StringExecFns;

verus! {

#[verifier::external_type_specification]
#[verifier::external_body]
pub struct ExRsaPublicKey(rsa::RsaPublicKey);

#[verifier::external_type_specification]
#[verifier::external_body]
pub struct ExThreadRng(rand::rngs::ThreadRng);

/// Whether a PEM text is accepted by rsa's SubjectPublicKeyInfo parser.
pub uninterp spec fn pem_parses(text: Seq<char>) -> bool;

/// The standard base64 encoding of a byte string.
pub uninterp spec fn b64_of(bytes: Seq<u8>) -> Seq<char>;

/// Relies on rsa's `DecodePublicKey::from_public_key_pem`: whether a text
/// parses as a PEM-armored RSA public key in SubjectPublicKeyInfo form
/// depends on the text alone.
#[verifier::external_body]
fn parse_public_key(text: &str) -> (r: Option<rsa::RsaPublicKey>)
    ensures
        r is Some <==> pem_parses(text@),
{
    <rsa::RsaPublicKey as rsa::pkcs8::DecodePublicKey>::from_public_key_pem(text).ok()
}

/// Relies on rand's `thread_rng`: a cryptographically secure generator;
/// nothing is promised of the values it yields.
#[verifier::external_body]
fn fresh_rng() -> rand::rngs::ThreadRng {
    rand::thread_rng()
}

/// Relies on rsa's `RsaPublicKey::encrypt` with PKCS#1 v1.5 encryption
/// padding. The padding draws from the generator, so nothing relates the
/// ciphertexts of two calls; the call fails when the message does not fit
/// under the modulus.
#[verifier::external_body]
fn encrypt_with_key(
    key: &rsa::RsaPublicKey,
    rng: &mut rand::rngs::ThreadRng,
    plain: &str,
) -> Option<Vec<u8>> {
    key.encrypt(rng, rsa::Pkcs1v15Encrypt, plain.as_bytes()).ok()
}

/// Relies on base64's `STANDARD` engine: the encoding of a byte string is a
/// function of the bytes alone. The length bound keeps the input clear of
/// the engine's output-size computation, which panics once the output
/// could not fit in an address space.
#[verifier::external_body]
fn b64_encode(bytes: &Vec<u8>) -> (r: String)
    requires
        bytes@.len() <= 1000000000,
    ensures
        r@ == b64_of(bytes@),
{
    base64::engine::general_purpose::STANDARD.encode(bytes.as_slice())
}

/// The PEM envelope that the store wraps the vendor-supplied raw key
/// material in: armor above and below, the material on its own line.
pub open spec fn pem_of(material: Seq<char>) -> Seq<char> {
    "-----BEGIN PUBLIC KEY-----\n"@ + material + "\n-----END PUBLIC KEY-----"@
}

/// The credential store: raw secret material, and the bearer credential
/// last derived from it.
pub struct Configuration {
    pub user_agent: String,
    pub api_key: Option<String>,
    pub public_key: Option<String>,
    pub access_token: Option<String>,
    pub auth: Option<String>,
}

/// The RSA path can run: both secrets are present and the wrapped key
/// material parses as an RSA public key.
pub open spec fn rsa_path_open(c: Configuration) -> bool {
    &&& c.api_key is Some
    &&& c.public_key matches Some(pk) && pem_parses(pem_of(pk@))
}

/// What a derivation pass leaves when the RSA path yields nothing: the
/// pre-issued token when one is present, else no credential at all. A
/// failed pass never leaves a credential derived from earlier material
/// standing: mutating a secret invalidates the cached credential.
pub open spec fn fallback_credential(pre: Configuration) -> Option<String> {
    if pre.access_token is Some {
        pre.access_token
    } else {
        None
    }
}

/// A derivation pass never changes the secret material, only the derived
/// credential.
pub open spec fn secrets_unchanged(pre: Configuration, post: Configuration) -> bool {
    &&& post.user_agent == pre.user_agent
    &&& post.api_key == pre.api_key
    &&& post.public_key == pre.public_key
    &&& post.access_token == pre.access_token
}

/// The credential is the base64 encoding of some ciphertext: the shape that
/// only the RSA path produces.
pub open spec fn rsa_output(post: Configuration) -> bool {
    post.auth matches Some(a) && exists|c: Seq<u8>| a@ == b64_of(c)
}

/// What one derivation pass does to the store. When the RSA path is open,
/// either it went through and the credential is the base64 ciphertext of
/// the API key, or the encryption step failed and the pass fell back; when
/// it is closed the pass falls back. A fallback serves the pre-issued
/// token if one is present and otherwise clears the credential, so a
/// value derived before a mutation of the secrets is never served stale.
pub open spec fn derived_from(pre: Configuration, post: Configuration) -> bool {
    &&& secrets_unchanged(pre, post)
    &&& if rsa_path_open(pre) {
        rsa_output(post) || post.auth == fallback_credential(pre)
    } else {
        post.auth == fallback_credential(pre)
    }
}

pub open spec fn with_api_key(c: Configuration, k: String) -> Configuration {
    Configuration { api_key: Some(k), ..c }
}

pub open spec fn with_public_key(c: Configuration, k: String) -> Configuration {
    Configuration { public_key: Some(k), ..c }
}

pub open spec fn with_access_token(c: Configuration, t: String) -> Configuration {
    Configuration { access_token: Some(t), ..c }
}

impl Configuration {
    /// A fresh store: the fixed user agent, and no secret material.
    pub fn new() -> (r: Configuration)
        ensures
            r.user_agent@ == "PaymentsDS/Mpesa"@,
            r.api_key is None,
            r.public_key is None,
            r.access_token is None,
            r.auth is None,
    {
        Configuration {
            user_agent: String::from_str("PaymentsDS/Mpesa"),
            api_key: None,
            public_key: None,
            access_token: None,
            auth: None,
        }
    }

    pub fn get_user_agent(&self) -> (r: String)
        ensures
            r@ == self.user_agent@,
    {
        self.user_agent.clone()
    }

    /// Stores the API key and silently attempts a derivation pass.
    pub fn set_api_key(&mut self, api_key: String)
        ensures
            final(self).api_key == Some(api_key),
            final(self).public_key == old(self).public_key,
            final(self).access_token == old(self).access_token,
            final(self).user_agent == old(self).user_agent,
            derived_from(with_api_key(*old(self), api_key), *final(self)),
    {
        self.api_key = Some(api_key);
        self.generate_access_token();
    }

    /// Stores the raw public key material and silently attempts a
    /// derivation pass.
    pub fn set_public_key(&mut self, public_key: String)
        ensures
            final(self).public_key == Some(public_key),
            final(self).api_key == old(self).api_key,
            final(self).access_token == old(self).access_token,
            final(self).user_agent == old(self).user_agent,
            derived_from(with_public_key(*old(self), public_key), *final(self)),
    {
        self.public_key = Some(public_key);
        self.generate_access_token();
    }

    /// Stores a pre-issued access token and silently attempts a derivation
    /// pass.
    pub fn set_access_token(&mut self, access_token: String)
        ensures
            final(self).access_token == Some(access_token),
            final(self).api_key == old(self).api_key,
            final(self).public_key == old(self).public_key,
            final(self).user_agent == old(self).user_agent,
            derived_from(with_access_token(*old(self), access_token), *final(self)),
    {
        self.access_token = Some(access_token);
        self.generate_access_token();
    }

    /// Re-derives and returns the bearer credential, or nothing when
    /// neither derivation path succeeded.
    pub fn get_token(&mut self) -> (r: Option<String>)
        ensures
            derived_from(*old(self), *final(self)),
            r == final(self).auth,
    {
        self.generate_access_token();
        match &self.auth {
            Some(a) => Some(a.clone()),
            None => None,
        }
    }

    /// One derivation pass: try the RSA path first, fall back to the
    /// pre-issued token. Every failure on the way is swallowed; the store
    /// is simply left without a fresh credential.
    pub fn generate_access_token(&mut self)
        ensures
            derived_from(*old(self), *final(self)),
    {
        let rsa_cipher: Option<Vec<u8>> = if self.api_key.is_some() && self.public_key.is_some()
        {
            let formatted = self.format_public_key(self.public_key.as_ref().unwrap().as_str());
            match parse_public_key(formatted.as_str()) {
                Some(key) => {
                    let mut rng = fresh_rng();
                    match encrypt_with_key(
                        &key,
                        &mut rng,
                        self.api_key.as_ref().unwrap().as_str(),
                    ) {
                        // the base64 step is only specified for bounded
                        // inputs; a PKCS#1 ciphertext is far under the bound
                        Some(c) => {
                            if c.len() <= 1000000000 {
                                Some(c)
                            } else {
                                None
                            }
                        },
                        None => None,
                    }
                },
                None => None,
            }
        } else {
            None
        };
        self.store_derived(rsa_cipher);
    }

    /// Wraps the raw key material in the standard PEM envelope.
    pub fn format_public_key(&self, public_key: &str) -> (r: String)
        ensures
            r@ == pem_of(public_key@),
    {
        let mut s = String::from_str("-----BEGIN PUBLIC KEY-----\n");
        s.append(public_key);
        s.append("\n-----END PUBLIC KEY-----");
        proof {
            assert(s@ =~= pem_of(public_key@));
        }
        s
    }

    /// The decision half of a derivation pass, verified for every outcome
    /// of the RSA path: a ciphertext becomes the credential — the
    /// pre-issued token is not consulted, so the RSA path takes priority —
    /// and no ciphertext means fallback. The length bound is the one
    /// `b64_encode` needs.
    pub fn store_derived(&mut self, rsa_cipher: Option<Vec<u8>>)
        requires
            rsa_cipher matches Some(c) ==> c@.len() <= 1000000000,
        ensures
            secrets_unchanged(*old(self), *final(self)),
            (match rsa_cipher {
                Some(c) => final(self).auth matches Some(a) && a@ == b64_of(c@),
                None => final(self).auth == fallback_credential(*old(self)),
            }),
    {
        match rsa_cipher {
            Some(c) => {
                self.auth = Some(b64_encode(&c));
            },
            None => {
                if self.access_token.is_some() {
                    self.auth = Some(self.access_token.as_ref().unwrap().clone());
                } else {
                    self.auth = None;
                }
            },
        }
    }
}

/// When the RSA path cannot run — no API key, no key material, or material
/// that does not parse — and no pre-issued token is present, a derivation
/// pass leaves no credential. In particular a credential derived before
/// the secret material was mutated is invalidated, never served stale.
pub proof fn lemma_no_path_no_credential(pre: Configuration, post: Configuration)
    requires
        derived_from(pre, post),
        !rsa_path_open(pre),
        pre.access_token is None,
    ensures
        post.auth is None,
{
}

/// When the RSA path cannot run — in particular when the key material does
/// not parse — and a pre-issued token is present, a derivation pass serves
/// that token.
pub proof fn lemma_fallback_to_token(pre: Configuration, post: Configuration)
    requires
        derived_from(pre, post),
        !rsa_path_open(pre),
        pre.access_token is Some,
    ensures
        post.auth == pre.access_token,
{
}

} // verus!
