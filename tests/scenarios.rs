use vc_core::issuance::{build_credential, sign_credential, NewCredentialRequest};
use vc_core::model::{CredentialSchema, Issuer, VerifiableCredential, Verifier};
use vc_core::registry::{attach_verification_method, record_key};
use vc_core::service::{new_issuer, new_schema, new_verification_method, new_verifier};
use vc_core::tree::{
    build_claim_properties_from_schema_properties, insert_schema_property, ClaimProperty,
    ClaimPropertyValue, SchemaProperty, SchemaPropertyValue, SchemaPropertyValueType,
};
use vc_core::verification::verify_credential;

const NOW: i64 = 1_800_000_000;

fn leaf(t: SchemaPropertyValueType, description: &str) -> SchemaProperty {
    SchemaProperty::Value(SchemaPropertyValue::new(t, description.to_string()))
}

fn issuer_with_key() -> (Issuer, Vec<u8>) {
    let issuer = new_issuer("urn:iss:1", "Acme".to_string()).unwrap();
    let (vm, secret) = new_verification_method("urn:iss:1", "urn:vm:1", "secp256k1".to_string()).unwrap();
    let id = issuer.get_id().clone();
    let issuer = attach_verification_method(Some(issuer), &id, vm).unwrap();
    (issuer, secret)
}

fn request(subject: Vec<(String, ClaimProperty)>) -> NewCredentialRequest {
    NewCredentialRequest {
        context: vec!["https://www.w3.org/ns/credentials/v2".to_string()],
        credential_id: "urn:cred:1".to_string(),
        type_: vec!["VerifiableCredential".to_string()],
        issuer_id: "urn:iss:1".to_string(),
        valid_from: "2024-01-01T00:00:00Z".to_string(),
        valid_until: "2034-01-01T00:00:00Z".to_string(),
        credential_subject: subject,
        credential_schema_ids: vec!["urn:sch:1".to_string()],
    }
}

fn mint(
    issuer: &Issuer,
    secret: &Vec<u8>,
    schema: CredentialSchema,
    subject: Vec<(String, ClaimProperty)>,
) -> (VerifiableCredential, CredentialSchema) {
    let schemas = vec![Some(schema)];
    let (credential, vm) = build_credential(request(subject), Some(issuer.clone()), &schemas).unwrap();
    let vc = sign_credential(credential, vm, Some(secret.clone()), NOW).unwrap();
    let schema = schemas.into_iter().next().unwrap().unwrap();
    (vc, schema)
}

fn set_boolean_leaf_to_text(subject: &mut Vec<(String, ClaimProperty)>) {
    for (key, value) in subject.iter_mut() {
        if key == "two" {
            if let ClaimProperty::Array(items) = value {
                if let ClaimProperty::Object(entries) = &mut items[1] {
                    for (k, v) in entries.iter_mut() {
                        if k == "three" {
                            *v = ClaimProperty::Value(ClaimPropertyValue::Text("x".to_string()));
                        }
                    }
                }
            }
        }
    }
}

#[test]
fn create_issuer_then_read_it() {
    let issuer = new_issuer("urn:iss:1", "Acme".to_string()).unwrap();
    assert_eq!(issuer.get_id().get_str(), "urn:iss:1");
    assert_eq!(issuer.get_name(), "Acme");
    assert!(issuer.get_verification_methods().is_empty());
}

#[test]
fn attach_verification_method_generates_key() {
    let (issuer, secret) = issuer_with_key();
    let methods = issuer.get_verification_methods();
    assert_eq!(methods.len(), 1);
    let key_len = methods[0].get_public_key_multibase().len();
    assert!(key_len == 33 || key_len == 65);
    assert_eq!(methods[0].get_id().get_str(), "urn:vm:1");
    assert_eq!(methods[0].get_controller_id().get_str(), "urn:iss:1");
    assert_eq!(secret.len(), 32);
    assert_eq!(record_key(methods[0].get_id()), b"urn:vm:1".to_vec());
}

#[test]
fn register_schema_tree_equality() {
    let schema = new_schema("urn:sch:1", "Example".to_string()).unwrap();
    let mut three = Vec::new();
    insert_schema_property(&mut three, "three".to_string(), leaf(SchemaPropertyValueType::Boolean, "leaf 3 desc"));
    let mut four_five = Vec::new();
    insert_schema_property(&mut four_five, "four".to_string(), leaf(SchemaPropertyValueType::Text, "leaf 4 desc"));
    insert_schema_property(
        &mut four_five,
        "five".to_string(),
        SchemaProperty::Array(vec![leaf(SchemaPropertyValueType::Text, "leaf 5 desc")]),
    );
    let mut expected = Vec::new();
    insert_schema_property(&mut expected, "one".to_string(), leaf(SchemaPropertyValueType::Text, "leaf 1 desc"));
    insert_schema_property(
        &mut expected,
        "two".to_string(),
        SchemaProperty::Array(vec![
            leaf(SchemaPropertyValueType::Number, "leaf 2 desc"),
            SchemaProperty::Object(three),
        ]),
    );
    insert_schema_property(&mut expected, "four".to_string(), SchemaProperty::Object(four_five));
    assert_eq!(schema.get_id().get_str(), "urn:sch:1");
    assert_eq!(schema.get_properties(), &expected);
    let keys: Vec<&str> = schema.get_properties().iter().map(|(k, _)| k.as_str()).collect();
    assert_eq!(keys, vec!["four", "one", "two"]);
}

#[test]
fn mint_all_defaults_credential() {
    let (issuer, secret) = issuer_with_key();
    let schema = new_schema("urn:sch:1", "Example".to_string()).unwrap();
    let subject = build_claim_properties_from_schema_properties(schema.get_properties());
    let (vc, _) = mint(&issuer, &secret, schema, subject);
    assert_eq!(vc.get_proof().len(), 1);
    let proof = &vc.get_proof()[0];
    assert_eq!(proof.get_verification_method().get_str(), "urn:vm:1");
    assert!(!proof.get_proof_value().is_empty());
    assert_eq!(proof.get_proof_purpose(), "Proof Purpose");
    assert_eq!(vc.get_credential().get_valid_from(), 1_704_067_200);
    assert_eq!(vc.get_credential().get_valid_until(), 2_019_686_400);
    assert_eq!(vc.get_credential().get_credential_schema()[0].get_id().get_str(), "urn:sch:1");
}

#[test]
fn verify_minted_credential() {
    let (issuer, secret) = issuer_with_key();
    let schema = new_schema("urn:sch:1", "Example".to_string()).unwrap();
    let verifier = new_verifier("urn:v:1", "Gatekeeper".to_string(), "urn:sch:1").unwrap();
    let subject = build_claim_properties_from_schema_properties(schema.get_properties());
    let (vc, schema) = mint(&issuer, &secret, schema, subject);
    let resp = verify_credential(Some(&verifier), Some(&schema), &vc, Some(&issuer), NOW).unwrap();
    assert!(resp.verified);
    assert_eq!(resp.reason, "");
}

#[test]
fn verify_flipped_leaf_and_tampered_proof() {
    let (issuer, secret) = issuer_with_key();
    let verifier: Verifier = new_verifier("urn:v:1", "Gatekeeper".to_string(), "urn:sch:1").unwrap();

    let schema = new_schema("urn:sch:1", "Example".to_string()).unwrap();
    let mut subject = build_claim_properties_from_schema_properties(schema.get_properties());
    set_boolean_leaf_to_text(&mut subject);
    let (vc, schema) = mint(&issuer, &secret, schema, subject);
    let resp = verify_credential(Some(&verifier), Some(&schema), &vc, Some(&issuer), NOW).unwrap();
    assert!(!resp.verified);
    assert_eq!(resp.reason, "Invalid credential schema.");

    let subject = build_claim_properties_from_schema_properties(schema.get_properties());
    let (mut vc, schema) = mint(&issuer, &secret, schema, subject);
    vc.proof[0].proof_value[5] ^= 0x01;
    let resp = verify_credential(Some(&verifier), Some(&schema), &vc, Some(&issuer), NOW).unwrap();
    assert!(!resp.verified);
    assert_eq!(resp.reason, "Invalid verifiable credential proof.");
}
