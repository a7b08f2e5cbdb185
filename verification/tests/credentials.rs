use base64::Engine;
use mpesa_b2c::config::Configuration;
use rsa::pkcs8::EncodePublicKey;

fn wrapped_key_material(der: &[u8]) -> String {
    let encoded = base64::engine::general_purpose::STANDARD.encode(der);
    let mut out = String::new();
    let mut start: usize = 0;
    while start < encoded.len() {
        let end = (start + 64).min(encoded.len());
        if start > 0 {
            out.push('\n');
        }
        out.push_str(&encoded[start..end]);
        start = end;
    }
    out
}

fn keypair() -> (rsa::RsaPrivateKey, String) {
    let mut rng = rand::thread_rng();
    let private_key = rsa::RsaPrivateKey::new(&mut rng, 512).expect("key generation");
    let public_key = rsa::RsaPublicKey::from(&private_key);
    let der = public_key.to_public_key_der().expect("spki encoding");
    (private_key, wrapped_key_material(der.as_bytes()))
}

fn decrypt(private_key: &rsa::RsaPrivateKey, token: &str) -> Vec<u8> {
    let cipher = base64::engine::general_purpose::STANDARD
        .decode(token.as_bytes())
        .expect("credential is base64");
    private_key
        .decrypt(rsa::Pkcs1v15Encrypt, &cipher)
        .expect("credential decrypts")
}

#[test]
fn test_get_token_without_material_is_none() {
    let mut c = Configuration::new();
    assert_eq!(c.get_token(), None);
}

#[test]
fn test_get_token_without_public_key_is_none() {
    let mut c = Configuration::new();
    c.set_api_key("secret-api-key".to_string());
    assert_eq!(c.get_token(), None);
}

#[test]
fn test_fallback_to_pre_issued_token_when_material_does_not_parse() {
    let mut c = Configuration::new();
    c.set_api_key("secret-api-key".to_string());
    c.set_public_key("@@ not base64 at all @@".to_string());
    c.set_access_token("pre-issued-token".to_string());
    assert_eq!(c.get_token(), Some("pre-issued-token".to_string()));
}

#[test]
fn test_pre_issued_token_alone_is_served() {
    let mut c = Configuration::new();
    c.set_access_token("pre-issued-token".to_string());
    assert_eq!(c.get_token(), Some("pre-issued-token".to_string()));
}

#[test]
fn test_rsa_path_takes_priority_over_pre_issued_token() {
    let (private_key, material) = keypair();
    let mut c = Configuration::new();
    c.set_api_key("secret-api-key".to_string());
    c.set_public_key(material);
    c.set_access_token("pre-issued-token".to_string());
    let token = c.get_token().expect("credential");
    assert_ne!(token, "pre-issued-token");
    assert_eq!(&decrypt(&private_key, &token)[..], b"secret-api-key");
}

#[test]
fn test_encryption_is_randomized_but_decrypts_to_the_same_key() {
    let (private_key, material) = keypair();
    let mut c = Configuration::new();
    c.set_api_key("secret-api-key".to_string());
    c.set_public_key(material);
    let first = c.get_token().expect("first credential");
    let second = c.get_token().expect("second credential");
    assert_ne!(first, second);
    assert_eq!(&decrypt(&private_key, &first)[..], b"secret-api-key");
    assert_eq!(&decrypt(&private_key, &second)[..], b"secret-api-key");
}

#[test]
fn test_mutating_the_key_material_invalidates_the_credential() {
    let (_private_key, material) = keypair();
    let mut c = Configuration::new();
    c.set_api_key("secret-api-key".to_string());
    c.set_public_key(material);
    assert!(c.get_token().is_some());
    c.set_public_key("@@ not base64 at all @@".to_string());
    assert_eq!(c.get_token(), None);
}

#[test]
fn test_store_derived_ciphertext_wins_over_pre_issued_token() {
    let mut c = Configuration::new();
    c.set_access_token("pre-issued-token".to_string());
    c.store_derived(Some(vec![1u8, 2, 3]));
    assert_eq!(c.auth.as_deref(), Some("AQID"));
}

#[test]
fn test_format_public_key_adds_the_envelope() {
    let c = Configuration::new();
    assert_eq!(
        c.format_public_key("MATERIAL"),
        "-----BEGIN PUBLIC KEY-----\nMATERIAL\n-----END PUBLIC KEY-----"
    );
}

#[test]
fn test_user_agent_is_fixed() {
    let c = Configuration::new();
    assert_eq!(c.get_user_agent(), "PaymentsDS/Mpesa");
}
