use vc_core::canonical::credential_bytes;
use vc_core::crypto::{create_key_pair, MyEcdsaSecp256k1, ProofOptions, ProofVerificationError};
use vc_core::error::UserError;
use vc_core::keymap::{compare_keys, get_entry, insert_entry};
use vc_core::model::{Credential, Issuer, Proof, VerifiableCredential, VerificationMethod};
use vc_core::registry::{
    limit_from_query, resource_limit, select_listed, GetAllIssuersRequest, RegistryError,
    DEFAULT_RESOURCE_LIMIT,
};
use vc_core::service::{new_issuer, new_schema, new_verifier};
use vc_core::url::URL;
use vc_core::vault::{sign_with, VaultError};
use vc_core::verification::{
    is_valid_credential_expiry_at, is_valid_credential_format, verification_response,
    verify_credential,
};

fn url(s: &str) -> URL {
    URL::new(s).unwrap()
}

fn credential(context: &str, text: &str, valid_from: i64, valid_until: i64) -> Credential {
    let mut subject = Vec::new();
    insert_entry(
        &mut subject,
        "note".to_string(),
        vc_core::tree::ClaimProperty::Value(vc_core::tree::ClaimPropertyValue::Text(text.to_string())),
    );
    Credential::new(
        vec![url(context)],
        url("urn:cred:1"),
        vec![url("VerifiableCredential")],
        url("urn:iss:1"),
        valid_from,
        valid_until,
        subject,
        Vec::new(),
    )
}

fn options(public: Vec<u8>) -> ProofOptions {
    let vm = VerificationMethod::new(url("urn:vm:1"), "secp256k1".to_string(), url("urn:iss:1"), public);
    ProofOptions::new(vm, "Proof Purpose".to_string(), 0, String::new(), String::new())
}

#[test]
fn keys_compare_by_bytes() {
    assert_eq!(compare_keys(&"a".to_string(), &"b".to_string()), -1);
    assert_eq!(compare_keys(&"b".to_string(), &"a".to_string()), 1);
    assert_eq!(compare_keys(&"ab".to_string(), &"ab".to_string()), 0);
    assert_eq!(compare_keys(&"ab".to_string(), &"abc".to_string()), -1);
    assert_eq!(compare_keys(&"".to_string(), &"a".to_string()), -1);
}

#[test]
fn map_insert_keeps_order_and_replaces() {
    let mut m: Vec<(String, i32)> = Vec::new();
    insert_entry(&mut m, "two".to_string(), 2);
    insert_entry(&mut m, "one".to_string(), 1);
    insert_entry(&mut m, "three".to_string(), 3);
    insert_entry(&mut m, "one".to_string(), 11);
    let keys: Vec<&str> = m.iter().map(|(k, _)| k.as_str()).collect();
    assert_eq!(keys, vec!["one", "three", "two"]);
    assert_eq!(get_entry(&m, &"one".to_string()), Some(&11));
    assert_eq!(get_entry(&m, &"four".to_string()), None);
}

#[test]
fn listing_skips_undecoded_and_limits() {
    let decoded = vec![Some(1), None, Some(2), Some(3), None, Some(4)];
    assert_eq!(select_listed(decoded.clone(), Some(2)), vec![1, 2]);
    assert_eq!(select_listed(decoded.clone(), None), vec![1, 2, 3, 4]);
    assert_eq!(select_listed(decoded, Some(0)), Vec::<i32>::new());
    let many: Vec<Option<usize>> = (0..30).map(Some).collect();
    assert_eq!(select_listed(many, None).len(), 20);
}

#[test]
fn default_limit_is_twenty() {
    assert_eq!(DEFAULT_RESOURCE_LIMIT, 20);
    assert_eq!(resource_limit(None), 20);
    assert_eq!(resource_limit(Some(5)), 5);
    assert_eq!(GetAllIssuersRequest { limit: None }.resolved_limit(), 20);
}

#[test]
fn user_errors_map_to_status() {
    assert_eq!(UserError::BadRequest.status_code(), 400);
    assert_eq!(UserError::NotFound.status_code(), 404);
    assert_eq!(UserError::InternalServerError.status_code(), 500);
    assert_eq!(UserError::NotFound.body(), "Resource Not Found");
}

#[test]
fn registry_error_messages() {
    assert_eq!(RegistryError::DatabaseError("x".to_string()).message(), "Database error: x");
    assert_eq!(RegistryError::SerializationError("y".to_string()).message(), "Serialization error: y");
    assert_eq!(RegistryError::ArgumentError("z".to_string()).message(), "Authorization error: z");
    let missing = vc_core::registry::attach_verification_method(
        None,
        &url("urn:iss:404"),
        VerificationMethod::new(url("urn:vm:1"), "t".to_string(), url("urn:iss:404"), Vec::new()),
    );
    match missing {
        Err(RegistryError::ArgumentError(m)) => {
            assert_eq!(m, "Issuer urn:iss:404 does not exist in the registry.")
        }
        _ => panic!("expected an argument error"),
    }
}

#[test]
fn vault_signing_errors() {
    assert_eq!(sign_with(None, &[0u8; 32]), Err(VaultError::UnknownKey));
    assert_eq!(sign_with(Some(&vec![0u8; 32]), &[0u8; 32]), Err(VaultError::InvalidKeyMaterial));
    let (secret, _) = create_key_pair();
    let digest = [7u8; 32];
    let sig = sign_with(Some(&secret), &digest).unwrap();
    assert_eq!(sig.len(), 64);
    assert_eq!(sign_with(Some(&secret), &digest).unwrap(), sig);
}

#[test]
fn hash_is_blake3() {
    let suite = MyEcdsaSecp256k1::new();
    let opts = options(Vec::new());
    let digest = suite.hash(&[], &opts).unwrap();
    let hex: String = digest.iter().map(|b| format!("{:02x}", b)).collect();
    assert_eq!(hex, "af1349b9f5f9a1a6a0404dea36dcc9499bcb25c9adc112b7cc9a93cae41f3262");
    assert_eq!(suite.hash(b"abc", &opts).unwrap().len(), 32);
    assert_ne!(suite.hash(b"abc", &opts).unwrap(), b"abc".to_vec());
}

#[test]
fn suite_identity() {
    let suite = MyEcdsaSecp256k1::new();
    assert_eq!(suite.get_id().get_str(), "https://w3id.org/security#proof-ecdsa-secp256k1-2021");
    assert_eq!(suite.get_type(), "MyEcdsaSecp256k1Signature");
}

#[test]
fn malformed_proof_and_bad_key() {
    let suite = MyEcdsaSecp256k1::new();
    let (secret, public) = create_key_pair();
    let c = credential("https://www.w3.org/ns/credentials/v2", "x", 0, 10);
    let opts = options(public.clone());
    let mut proof = suite.generate_proof(&c, &secret, &opts).unwrap();
    assert_eq!(
        suite.verify_proof(&c, &proof, &[1, 2, 3], &opts),
        Err(ProofVerificationError::InvalidPublicKeyError)
    );
    proof.proof_value.truncate(10);
    assert_eq!(
        suite.verify_proof(&c, &proof, &public, &opts),
        Err(ProofVerificationError::MalformedProofError)
    );
    assert_eq!(ProofVerificationError::MalformedProofError.message(), "Malformed proof.");
    let bad_key = suite.generate_proof(&c, &[0u8; 32], &opts);
    assert!(bad_key.is_err());
}

#[test]
fn format_and_expiry_checks() {
    let good = credential("https://www.w3.org/ns/credentials/v2", "x", 100, 200);
    let bad = credential("https://www.w3.org/2018/credentials/v1", "x", 100, 200);
    assert!(is_valid_credential_format(&good));
    assert!(!is_valid_credential_format(&bad));
    assert!(is_valid_credential_expiry_at(&good, 100));
    assert!(is_valid_credential_expiry_at(&good, 200));
    assert!(!is_valid_credential_expiry_at(&good, 99));
    assert!(!is_valid_credential_expiry_at(&good, 201));
}

#[test]
fn response_reasons_in_order() {
    let r = verification_response(false, false, false, false);
    assert!(!r.verified);
    assert_eq!(r.reason, "Invalid credential format.");
    assert_eq!(verification_response(true, false, true, true).reason, "Invalid credential expiry.");
    assert_eq!(verification_response(true, true, false, false).reason, "Invalid credential schema.");
    assert_eq!(verification_response(true, true, true, false).reason, "Invalid verifiable credential proof.");
    let ok = verification_response(true, true, true, true);
    assert!(ok.verified);
    assert_eq!(ok.reason, "");
}

#[test]
fn verification_refusals_and_bad_requests() {
    let schema = new_schema("urn:sch:1", "Example".to_string()).unwrap();
    let verifier = new_verifier("urn:v:1", "V".to_string(), "urn:sch:1").unwrap();
    let (secret, public) = create_key_pair();
    let mut issuer: Issuer = new_issuer("urn:iss:1", "Acme".to_string()).unwrap();
    issuer.new_verification_method(VerificationMethod::new(
        url("urn:vm:1"),
        "secp256k1".to_string(),
        url("urn:iss:1"),
        public.clone(),
    ));
    let suite = MyEcdsaSecp256k1::new();
    let c = credential("https://www.w3.org/2018/credentials/v1", "x", 0, 10);
    let proof: Proof = suite.generate_proof(&c, &secret, &options(public.clone())).unwrap();
    let vc = VerifiableCredential::new(c, vec![proof]);
    let r = verify_credential(Some(&verifier), Some(&schema), &vc, Some(&issuer), 5).unwrap();
    assert_eq!(r.reason, "Invalid credential format.");

    let c = credential("https://www.w3.org/ns/credentials/v2", "x", 0, 10);
    let proof = suite.generate_proof(&c, &secret, &options(public.clone())).unwrap();
    let vc = VerifiableCredential::new(c, vec![proof]);
    let r = verify_credential(Some(&verifier), Some(&schema), &vc, Some(&issuer), 11).unwrap();
    assert_eq!(r.reason, "Invalid credential expiry.");
    let r = verify_credential(Some(&verifier), Some(&schema), &vc, Some(&issuer), 5).unwrap();
    assert_eq!(r.reason, "Invalid credential schema.");

    assert!(matches!(verify_credential(None, Some(&schema), &vc, Some(&issuer), 5), Err(UserError::BadRequest)));
    assert!(matches!(verify_credential(Some(&verifier), None, &vc, Some(&issuer), 5), Err(UserError::BadRequest)));
    assert!(matches!(verify_credential(Some(&verifier), Some(&schema), &vc, None, 5), Err(UserError::BadRequest)));
    let keyless = new_issuer("urn:iss:1", "Acme".to_string()).unwrap();
    assert!(matches!(verify_credential(Some(&verifier), Some(&schema), &vc, Some(&keyless), 5), Err(UserError::BadRequest)));
    let unproved = VerifiableCredential::new(credential("https://www.w3.org/ns/credentials/v2", "x", 0, 10), Vec::new());
    assert!(matches!(verify_credential(Some(&verifier), Some(&schema), &unproved, Some(&issuer), 5), Err(UserError::BadRequest)));
}

#[test]
fn control_bytes_are_escaped() {
    let c = credential("ctx", "a\u{1}\\", -5, 0);
    let text = String::from_utf8(credential_bytes(&c)).unwrap();
    assert!(text.contains("{\"note\":{\"Value\":{\"Text\":\"a\\u0001\\\\\"}}}"));
    assert!(text.contains("\"valid_from\":-5,\"valid_until\":0}"));
}

#[test]
fn url_operations() {
    let a = url("urn:a");
    let b = url("urn:b");
    assert!(a < b);
    assert!(a.same_as(&a.duplicate()));
    assert!(!a.same_as(&b));
    assert_eq!(a.to_string(), "urn:a");
}

#[test]
fn wall_clock_expiry() {
    let open = credential("https://www.w3.org/ns/credentials/v2", "x", 0, i64::MAX);
    assert!(vc_core::verification::is_valid_credential_expiry(&open));
    let past = credential("https://www.w3.org/ns/credentials/v2", "x", 0, 1);
    assert!(!vc_core::verification::is_valid_credential_expiry(&past));
}

#[test]
fn query_limits() {

    assert_eq!(limit_from_query("5"), 5);
    assert_eq!(limit_from_query("007"), 7);
    assert_eq!(limit_from_query("-5"), 20);
    assert_eq!(limit_from_query("abc"), 20);
    assert_eq!(limit_from_query(""), 20);
    assert_eq!(limit_from_query("99999999999999999999999"), 20);
    assert_eq!(limit_from_query("18446744073709551615"), usize::MAX);
}
