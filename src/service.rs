use vstd::prelude::*;
use crate::crypto::{create_key_pair, key_pair_matches};
use crate::error::UserError;
use crate::keymap::find_key;
use crate::model::{CredentialSchema, Issuer, VerificationMethod, Verifier};
use crate::tree::{
    insert_schema_property, schema_props_wf, schema_wf, SchemaProperty, SchemaPropertyValue,
    SchemaPropertyValueType,
};
use crate::url::URL;

verus! {

/// A new issuer with no verification methods.
pub fn new_issuer(id: &str, name: String) -> (r: Result<Issuer, UserError>)
    ensures
        r matches Ok(i) && i.id@ == id@ && i.name == name && i.verification_methods@.len() == 0
            && i.wf(),
{
    let issuer_id = match URL::new(id) {
        Ok(u) => u,
        Err(_) => {
            return Err(UserError::BadRequest);
        },
    };
    Ok(Issuer::new(issuer_id, name))
}

/// A new verification method for an issuer, with a freshly generated key:
/// the method carries the public key, and the secret key comes back beside
/// it for the key vault alone; the secret's signatures verify under the
/// method's key.
pub fn new_verification_method(issuer_id: &str, verification_method_id: &str, type_: String) -> (r:
    Result<(VerificationMethod, Vec<u8>), UserError>)
    ensures
        r matches Ok((vm, secret)) && vm.id@ == verification_method_id@ && vm.type_ == type_
            && vm.controller_id@ == issuer_id@ && vm.public_key_multibase@.len() == 33
            && secret@.len() == 32 && key_pair_matches(secret@, vm.public_key_multibase@),
{
    let issuer_id = match URL::new(issuer_id) {
        Ok(u) => u,
        Err(_) => {
            return Err(UserError::BadRequest);
        },
    };
    let verification_method_id = match URL::new(verification_method_id) {
        Ok(u) => u,
        Err(_) => {
            return Err(UserError::BadRequest);
        },
    };
    let (secret, public_key) = create_key_pair();
    Ok((VerificationMethod::new(verification_method_id, type_, issuer_id, public_key), secret))
}

/// The node is a leaf of type `t` described by `d`.
pub open spec fn is_leaf(p: Option<SchemaProperty>, t: SchemaPropertyValueType, d: Seq<char>) -> bool {
    p matches Some(SchemaProperty::Value(v)) && (v.type_ == t && v.description@ == d)
}

/// `[Text]`, the one element described `leaf 5 desc`.
pub open spec fn is_example_five(p: Option<SchemaProperty>) -> bool {
    p matches Some(SchemaProperty::Array(a)) && (a@.len() == 1 && is_leaf(
        Some(a@[0]),
        SchemaPropertyValueType::Text,
        "leaf 5 desc"@,
    ))
}

/// `{three: Boolean}`, and no other key.
pub open spec fn is_example_three(p: SchemaProperty) -> bool {
    p matches SchemaProperty::Object(m) && (m@.len() == 1 && is_leaf(
        find_key(m@, "three"@),
        SchemaPropertyValueType::Boolean,
        "leaf 3 desc"@,
    ))
}

/// `two: [Number, {three: Boolean}]`.
pub open spec fn is_example_two(p: Option<SchemaProperty>) -> bool {
    p matches Some(SchemaProperty::Array(a)) && (a@.len() == 2 && is_leaf(
        Some(a@[0]),
        SchemaPropertyValueType::Number,
        "leaf 2 desc"@,
    ) && is_example_three(a@[1]))
}

/// `four: {four: Text, five: [Text]}`, and no other key.
pub open spec fn is_example_four(p: Option<SchemaProperty>) -> bool {
    p matches Some(SchemaProperty::Object(m)) && (m@.len() == 2 && is_leaf(
        find_key(m@, "four"@),
        SchemaPropertyValueType::Text,
        "leaf 4 desc"@,
    ) && is_example_five(find_key(m@, "five"@)))
}

/// The property tree that new schemas are given when none is supplied:
/// exactly the keys `one: Text`, `two: [Number, {three: Boolean}]` and
/// `four: {four: Text, five: [Text]}`, with the leaves described
/// `leaf 1 desc` to `leaf 5 desc`.
pub open spec fn is_example_tree(p: Seq<(String, SchemaProperty)>) -> bool {
    &&& p.len() == 3
    &&& is_leaf(find_key(p, "one"@), SchemaPropertyValueType::Text, "leaf 1 desc"@)
    &&& is_example_two(find_key(p, "two"@))
    &&& is_example_four(find_key(p, "four"@))
}

fn leaf(t: SchemaPropertyValueType, description: &str) -> (r: SchemaProperty)
    ensures
        r matches SchemaProperty::Value(v) && v.type_ == t && v.description@ == description@,
{
    SchemaProperty::Value(SchemaPropertyValue::new(t, description.to_string()))
}

/// A new schema under `id` with the given property tree.
pub fn new_schema_with(id: &str, name: String, properties: Vec<(String, SchemaProperty)>) -> (r:
    Result<CredentialSchema, UserError>)
    requires
        schema_props_wf(properties@),
    ensures
        r matches Ok(s) && s.id@ == id@ && s.name == name && s.type_@ == "type"@
            && s.description@ == "desc"@ && s.properties == properties && s.wf(),
{
    let schema_id = match URL::new(id) {
        Ok(u) => u,
        Err(_) => {
            return Err(UserError::BadRequest);
        },
    };
    Ok(CredentialSchema::new(schema_id, "type".to_string(), name, "desc".to_string(), properties))
}

/// A new schema under `id`, given the example property tree.
pub fn new_schema(id: &str, name: String) -> (r: Result<CredentialSchema, UserError>)
    ensures
        r matches Ok(s) && s.id@ == id@ && s.name == name && s.type_@ == "type"@
            && s.description@ == "desc"@ && s.wf() && is_example_tree(s.properties@),
{
    proof {
        reveal_strlit("one");
        reveal_strlit("two");
        reveal_strlit("three");
        reveal_strlit("four");
        reveal_strlit("five");
        assert("four"@[1] != "five"@[1]);
        assert("one"@[0] != "two"@[0]);
        assert("one"@.len() != "four"@.len() && "two"@.len() != "four"@.len());
    }
    let mut three_map: Vec<(String, SchemaProperty)> = Vec::new();
    insert_schema_property(
        &mut three_map,
        "three".to_string(),
        leaf(SchemaPropertyValueType::Boolean, "leaf 3 desc"),
    );
    let mut two_items: Vec<SchemaProperty> = Vec::new();
    two_items.push(leaf(SchemaPropertyValueType::Number, "leaf 2 desc"));
    two_items.push(SchemaProperty::Object(three_map));
    let mut five_items: Vec<SchemaProperty> = Vec::new();
    five_items.push(leaf(SchemaPropertyValueType::Text, "leaf 5 desc"));
    let mut four_five_map: Vec<(String, SchemaProperty)> = Vec::new();
    insert_schema_property(
        &mut four_five_map,
        "four".to_string(),
        leaf(SchemaPropertyValueType::Text, "leaf 4 desc"),
    );
    let five = SchemaProperty::Array(five_items);
    proof {
        assert(schema_wf(five_items@[0]));
        assert(schema_wf(five));
        assert(find_key(four_five_map@, "five"@) is None);
    }
    insert_schema_property(&mut four_five_map, "five".to_string(), five);
    let mut schema_props: Vec<(String, SchemaProperty)> = Vec::new();
    insert_schema_property(
        &mut schema_props,
        "one".to_string(),
        leaf(SchemaPropertyValueType::Text, "leaf 1 desc"),
    );
    let two = SchemaProperty::Array(two_items);
    proof {
        assert(schema_wf(two_items@[0]));
        assert(schema_wf(two_items@[1]));
        assert(schema_wf(two));
        assert(find_key(schema_props@, "two"@) is None);
    }
    insert_schema_property(&mut schema_props, "two".to_string(), two);
    let four = SchemaProperty::Object(four_five_map);
    proof {
        assert(is_example_five(find_key(four_five_map@, "five"@)));
        assert(is_example_four(Some(four)));
        assert(is_example_three(two_items@[1]));
        assert(is_example_two(Some(two)));
        assert(schema_wf(four));
        assert(find_key(schema_props@, "four"@) is None);
    }
    insert_schema_property(&mut schema_props, "four".to_string(), four);
    new_schema_with(id, name, schema_props)
}

/// A new verifier policy that expects credentials of the schema `schema_id`.
pub fn new_verifier(id: &str, name: String, schema_id: &str) -> (r: Result<Verifier, UserError>)
    ensures
        r matches Ok(v) && v.id@ == id@ && v.name == name && v.schema_id@ == schema_id@,
{
    let verifier_id = match URL::new(id) {
        Ok(u) => u,
        Err(_) => {
            return Err(UserError::BadRequest);
        },
    };
    let schema_id = match URL::new(schema_id) {
        Ok(u) => u,
        Err(_) => {
            return Err(UserError::BadRequest);
        },
    };
    Ok(Verifier::new(verifier_id, name, schema_id))
}

} // verus!
