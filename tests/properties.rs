use vc_core::canonical::credential_bytes;
use vc_core::crypto::{create_key_pair, MyEcdsaSecp256k1, ProofOptions, ProofVerificationError};
use vc_core::error::UserError;
use vc_core::issuance::{build_credential, build_credential_at, NewCredentialRequest};
use vc_core::model::{Credential, CredentialSchemaLink, Issuer, VerificationMethod};
use vc_core::registry::{attach_verification_method, record_key, RegistryError};
use vc_core::service::{new_issuer, new_schema, new_verification_method};
use vc_core::tree::{
    build_claim_properties_from_schema_properties, build_claim_property_from_schema_property,
    insert_claim_property, is_valid_claims, is_valid_credential_schema_property, ClaimProperty,
    ClaimPropertyValue, SchemaProperty, SchemaPropertyValue, SchemaPropertyValueType,
};
use vc_core::url::URL;

fn url(s: &str) -> URL {
    URL::new(s).unwrap()
}

fn vm_for(issuer: &str, id: &str, public_key: Vec<u8>) -> VerificationMethod {
    VerificationMethod::new(url(id), "secp256k1".to_string(), url(issuer), public_key)
}

fn sample_credential(name: &str) -> Credential {
    let mut subject = Vec::new();
    insert_claim_property(
        &mut subject,
        "name".to_string(),
        ClaimProperty::Value(ClaimPropertyValue::Text(name.to_string())),
    );
    insert_claim_property(
        &mut subject,
        "age".to_string(),
        ClaimProperty::Value(ClaimPropertyValue::Number(-42)),
    );
    Credential::new(
        vec![url("https://www.w3.org/ns/credentials/v2")],
        url("urn:cred:7"),
        vec![url("VerifiableCredential")],
        url("urn:iss:1"),
        10,
        20,
        subject,
        vec![CredentialSchemaLink::new(url("urn:sch:1"), "type".to_string())],
    )
}

fn options(purpose: &str, vm: VerificationMethod) -> ProofOptions {
    ProofOptions::new(vm, purpose.to_string(), 5, "Proof Domain".to_string(), "Proof Challenge".to_string())
}

fn request(valid_from: &str, valid_until: &str) -> NewCredentialRequest {
    NewCredentialRequest {
        context: vec!["https://www.w3.org/ns/credentials/v2".to_string()],
        credential_id: "urn:cred:1".to_string(),
        type_: vec!["VerifiableCredential".to_string()],
        issuer_id: "urn:iss:1".to_string(),
        valid_from: valid_from.to_string(),
        valid_until: valid_until.to_string(),
        credential_subject: Vec::new(),
        credential_schema_ids: Vec::new(),
    }
}

fn keyed_issuer() -> Issuer {
    let issuer = new_issuer("urn:iss:1", "Acme".to_string()).unwrap();
    let (vm, _) = new_verification_method("urn:iss:1", "urn:vm:1", "secp256k1".to_string()).unwrap();
    attach_verification_method(Some(issuer), &url("urn:iss:1"), vm).unwrap()
}

#[test]
fn attached_methods_name_their_issuer() {
    let issuer = keyed_issuer();
    for vm in issuer.get_verification_methods() {
        assert_eq!(vm.get_controller_id(), issuer.get_id());
    }
    let foreign = vm_for("urn:iss:2", "urn:vm:2", vec![2; 33]);
    let err = attach_verification_method(Some(issuer), &url("urn:iss:1"), foreign);
    assert!(matches!(err, Err(RegistryError::ArgumentError(_))));
    assert!(Issuer::from_parts(url("urn:iss:1"), "Acme".to_string(), vec![vm_for("urn:iss:9", "urn:vm:9", vec![])]).is_none());
}

#[test]
fn issued_window_is_never_reversed() {
    let (credential, _) = build_credential(
        request("2024-01-01T00:00:00Z", "2024-01-01T00:00:00Z"),
        Some(keyed_issuer()),
        &Vec::new(),
    )
    .unwrap();
    assert!(credential.get_valid_from() <= credential.get_valid_until());
    let reversed = build_credential(
        request("2034-01-01T00:00:00Z", "2024-01-01T00:00:00Z"),
        Some(keyed_issuer()),
        &Vec::new(),
    );
    assert!(matches!(reversed, Err(UserError::BadRequest)));
}

#[test]
fn writing_an_issuer_twice_uses_one_key() {
    let issuer = keyed_issuer();
    let first = record_key(issuer.get_id());
    let second = record_key(issuer.get_id());
    assert_eq!(first, second);
    assert_eq!(first, b"urn:iss:1".to_vec());
}

#[test]
fn fresh_key_signs_and_verifies() {
    let (secret, public) = create_key_pair();
    let suite = MyEcdsaSecp256k1::new();
    let credential = sample_credential("Alice");
    let vm = vm_for("urn:iss:1", "urn:vm:1", public.clone());
    let opts = options("Proof Purpose", vm);
    let proof = suite.generate_proof(&credential, &secret, &opts).unwrap();
    assert_eq!(proof.get_proof_value().len(), 64);
    assert_eq!(suite.verify_proof(&credential, &proof, &public, &opts), Ok(true));
}

#[test]
fn changed_credential_fails_verification() {
    let (secret, public) = create_key_pair();
    let suite = MyEcdsaSecp256k1::new();
    let vm = vm_for("urn:iss:1", "urn:vm:1", public.clone());
    let opts = options("Proof Purpose", vm);
    let proof = suite.generate_proof(&sample_credential("Alice"), &secret, &opts).unwrap();
    let other = sample_credential("Alicf");
    assert_eq!(suite.verify_proof(&other, &proof, &public, &opts), Ok(false));
}

#[test]
fn other_purpose_is_refused() {
    let (secret, public) = create_key_pair();
    let suite = MyEcdsaSecp256k1::new();
    let credential = sample_credential("Alice");
    let proof = suite
        .generate_proof(&credential, &secret, &options("assertionMethod", vm_for("urn:iss:1", "urn:vm:1", public.clone())))
        .unwrap();
    let check = options("authentication", vm_for("urn:iss:1", "urn:vm:1", public.clone()));
    assert_eq!(
        suite.verify_proof(&credential, &proof, &public, &check),
        Err(ProofVerificationError::MismatchedProofPurposeError)
    );
}

#[test]
fn all_defaults_tree_conforms() {
    let schema = new_schema("urn:sch:1", "Example".to_string()).unwrap();
    let claims = build_claim_properties_from_schema_properties(schema.get_properties());
    assert!(is_valid_claims(&claims, schema.get_properties()));
    let leaf = SchemaProperty::Value(SchemaPropertyValue::new(SchemaPropertyValueType::Number, "n".to_string()));
    let claim = build_claim_property_from_schema_property(&leaf);
    assert_eq!(claim, ClaimProperty::Value(ClaimPropertyValue::Number(0)));
    let text = SchemaProperty::Value(SchemaPropertyValue::new(SchemaPropertyValueType::Text, "t".to_string()));
    assert_eq!(
        build_claim_property_from_schema_property(&text),
        ClaimProperty::Value(ClaimPropertyValue::Text(String::new()))
    );
}

#[test]
fn retyped_leaf_is_rejected() {
    let schema = new_schema("urn:sch:1", "Example".to_string()).unwrap();
    let mut claims = build_claim_properties_from_schema_properties(schema.get_properties());
    for (key, value) in claims.iter_mut() {
        if key == "one" {
            *value = ClaimProperty::Value(ClaimPropertyValue::Boolean(true));
        }
    }
    assert!(!is_valid_claims(&claims, schema.get_properties()));
    let array = SchemaProperty::Array(vec![SchemaProperty::Value(SchemaPropertyValue::new(
        SchemaPropertyValueType::Number,
        "n".to_string(),
    ))]);
    let wrong = ClaimProperty::Array(vec![ClaimProperty::Value(ClaimPropertyValue::Text("1".to_string()))]);
    assert!(!is_valid_credential_schema_property(&wrong, &array));
    let longer = ClaimProperty::Array(vec![
        ClaimProperty::Value(ClaimPropertyValue::Number(1)),
        ClaimProperty::Value(ClaimPropertyValue::Number(2)),
    ]);
    assert!(!is_valid_credential_schema_property(&longer, &array));
}

#[test]
fn extra_claim_keys_are_tolerated() {
    let schema = new_schema("urn:sch:1", "Example".to_string()).unwrap();
    let mut claims = build_claim_properties_from_schema_properties(schema.get_properties());
    insert_claim_property(&mut claims, "zzz".to_string(), ClaimProperty::Value(ClaimPropertyValue::Number(3)));
    assert!(is_valid_claims(&claims, schema.get_properties()));
    let mut missing = build_claim_properties_from_schema_properties(schema.get_properties());
    missing.remove(0);
    assert!(!is_valid_claims(&missing, schema.get_properties()));
}

#[test]
fn canonical_bytes_exact() {
    let credential = sample_credential("A\"b");
    let text = String::from_utf8(credential_bytes(&credential)).unwrap();
    assert_eq!(
        text,
        "{\"context\":[\"https://www.w3.org/ns/credentials/v2\"],\
\"credential_schema\":[{\"id\":\"urn:sch:1\",\"type_\":\"type\"}],\
\"credential_status\":{},\
\"credential_subject\":{\"age\":{\"Value\":{\"Number\":-42}},\"name\":{\"Value\":{\"Text\":\"A\\\"b\"}}},\
\"evidence\":[],\"id\":\"urn:cred:7\",\"issuer\":\"urn:iss:1\",\"refresh_service\":[],\
\"terms_of_use\":[],\"type_\":[\"VerifiableCredential\"],\"valid_from\":10,\"valid_until\":20}"
    );
}

#[test]
fn build_at_reports_each_refusal() {
    let missing_issuer = build_credential_at(request("x", "y"), None, &Vec::new(), Some(1), Some(2));
    assert!(matches!(missing_issuer, Err(UserError::BadRequest)));
    let bad_time = build_credential_at(request("x", "y"), Some(keyed_issuer()), &Vec::new(), None, Some(2));
    assert!(matches!(bad_time, Err(UserError::BadRequest)));
    let missing_schema = build_credential_at(request("x", "y"), Some(keyed_issuer()), &vec![None], Some(1), Some(2));
    assert!(matches!(missing_schema, Err(UserError::BadRequest)));
    let keyless = build_credential_at(
        request("x", "y"),
        Some(new_issuer("urn:iss:1", "Acme".to_string()).unwrap()),
        &Vec::new(),
        Some(1),
        Some(2),
    );
    assert!(matches!(keyless, Err(UserError::InternalServerError)));
    let (credential, vm) =
        build_credential_at(request("x", "y"), Some(keyed_issuer()), &Vec::new(), Some(1), Some(2)).unwrap();
    assert_eq!(credential.get_valid_from(), 1);
    assert_eq!(credential.get_valid_until(), 2);
    assert_eq!(vm.get_id().get_str(), "urn:vm:1");
}

#[test]
fn unparsable_timestamp_is_bad_request() {
    let r = build_credential(request("yesterday", "2024-01-01T00:00:00Z"), Some(keyed_issuer()), &Vec::new());
    assert!(matches!(r, Err(UserError::BadRequest)));
    let (credential, _) = build_credential(
        request("2024-01-01T01:00:00+01:00", "2024-01-01T00:00:00Z"),
        Some(keyed_issuer()),
        &Vec::new(),
    )
    .unwrap();
    assert_eq!(credential.get_valid_from(), 1_704_067_200);
}

#[test]
fn canonical_bytes_ignore_insertion_order() {
    let entries = [("b", 2), ("a", 1), ("c", 3)];
    let mut forward = Vec::new();
    for (k, v) in entries.iter() {
        insert_claim_property(&mut forward, k.to_string(), ClaimProperty::Value(ClaimPropertyValue::Number(*v)));
    }
    let mut backward = Vec::new();
    for (k, v) in entries.iter().rev() {
        insert_claim_property(&mut backward, k.to_string(), ClaimProperty::Value(ClaimPropertyValue::Number(*v)));
    }
    let make = |subject| {
        Credential::new(vec![], url("urn:c"), vec![], url("urn:i"), 0, 0, subject, vec![])
    };
    assert_eq!(credential_bytes(&make(forward)), credential_bytes(&make(backward)));
}

#[test]
fn build_reports_keyless_issuer_as_internal() {
    let keyless = new_issuer("urn:iss:1", "Acme".to_string()).unwrap();
    let r = build_credential(request("2024-01-01T00:00:00Z", "2034-01-01T00:00:00Z"), Some(keyless), &Vec::new());
    assert!(matches!(r, Err(UserError::InternalServerError)));
}

#[test]
fn schema_with_supplied_tree() {
    let mut props = Vec::new();
    vc_core::tree::insert_schema_property(
        &mut props,
        "age".to_string(),
        SchemaProperty::Value(SchemaPropertyValue::new(SchemaPropertyValueType::Number, "years".to_string())),
    );
    let schema = vc_core::service::new_schema_with("urn:sch:2", "Ages".to_string(), props).unwrap();
    assert_eq!(schema.get_id().get_str(), "urn:sch:2");
    assert_eq!(schema.get_properties().len(), 1);
    assert_eq!(schema.get_properties()[0].0, "age");
    let example = new_schema("urn:sch:1", "Example".to_string()).unwrap();
    assert_eq!(example.get_properties().len(), 3);
}
