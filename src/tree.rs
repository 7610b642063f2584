use vstd::prelude::*;
use crate::keymap::{find_key, get_entry, insert_entry, keys_sorted, lemma_find_key_sorted, key_bytes};

verus! {

/// The type of a leaf of a schema.
#[derive(Clone, Copy, PartialEq, Eq, Structural, Debug)]
pub enum SchemaPropertyValueType {
    Text,
    Number,
    Boolean,
}

/// A typed leaf of a schema, with its description.
#[derive(Clone, Debug, PartialEq, Eq)]
pub struct SchemaPropertyValue {
    pub type_: SchemaPropertyValueType,
    pub description: String,
}

/// A node of a schema's property tree. An array is a template of fixed
/// length; a map is a fixed set of keys, held in increasing key order.
#[derive(Debug, PartialEq, Eq)]
pub enum SchemaProperty {
    Value(SchemaPropertyValue),
    Array(Vec<SchemaProperty>),
    Object(Vec<(String, SchemaProperty)>),
}

/// A leaf of a claim tree.
#[derive(Clone, Debug, PartialEq, Eq)]
pub enum ClaimPropertyValue {
    Text(String),
    Number(i32),
    Boolean(bool),
}

/// A node of a claim tree, mirroring `SchemaProperty`.
#[derive(Debug, PartialEq, Eq)]
pub enum ClaimProperty {
    Value(ClaimPropertyValue),
    Array(Vec<ClaimProperty>),
    Object(Vec<(String, ClaimProperty)>),
}

impl SchemaPropertyValue {
    pub fn new(type_: SchemaPropertyValueType, description: String) -> (r: Self)
        ensures
            r.type_ == type_,
            r.description == description,
    {
        SchemaPropertyValue { type_, description }
    }

    pub fn get_type(&self) -> (r: &SchemaPropertyValueType)
        ensures
            *r == self.type_,
    {
        &self.type_
    }

    pub fn get_description(&self) -> (r: &String)
        ensures
            *r == self.description,
    {
        &self.description
    }
}

/// Every map of the schema tree has its keys in strictly increasing order.
pub open spec fn schema_wf(s: SchemaProperty) -> bool
    decreases s,
{
    match s {
        SchemaProperty::Value(_) => true,
        SchemaProperty::Array(a) => forall|i: int| 0 <= i < a@.len() ==> schema_wf(#[trigger] a@[i]),
        SchemaProperty::Object(m) => {
            &&& keys_sorted(m@)
            &&& forall|j: int| 0 <= j < m@.len() ==> schema_wf(#[trigger] m@[j].1)
        },
    }
}

/// A schema's top-level property map is well formed.
pub open spec fn schema_props_wf(m: Seq<(String, SchemaProperty)>) -> bool {
    &&& keys_sorted(m)
    &&& forall|j: int| 0 <= j < m.len() ==> schema_wf(#[trigger] m[j].1)
}

/// Every map of the claim tree has its keys in strictly increasing order.
pub open spec fn claim_wf(c: ClaimProperty) -> bool
    decreases c,
{
    match c {
        ClaimProperty::Value(_) => true,
        ClaimProperty::Array(a) => forall|i: int| 0 <= i < a@.len() ==> claim_wf(#[trigger] a@[i]),
        ClaimProperty::Object(m) => {
            &&& keys_sorted(m@)
            &&& forall|j: int| 0 <= j < m@.len() ==> claim_wf(#[trigger] m@[j].1)
        },
    }
}

/// A claim's top-level property map is well formed.
pub open spec fn claim_props_wf(m: Seq<(String, ClaimProperty)>) -> bool {
    &&& keys_sorted(m)
    &&& forall|j: int| 0 <= j < m.len() ==> claim_wf(#[trigger] m[j].1)
}

/// A claim leaf carries a value of the leaf type that the schema names.
pub open spec fn leaf_matches(c: ClaimPropertyValue, t: SchemaPropertyValueType) -> bool {
    match c {
        ClaimPropertyValue::Text(_) => t == SchemaPropertyValueType::Text,
        ClaimPropertyValue::Number(_) => t == SchemaPropertyValueType::Number,
        ClaimPropertyValue::Boolean(_) => t == SchemaPropertyValueType::Boolean,
    }
}

/// Structural conformance of a claim tree to a schema tree: leaves agree in
/// type, arrays agree in length and element by element, and every key of a
/// schema map is present in the claim map with a conforming value (the
/// claim map may hold more keys).
pub open spec fn conforms(c: ClaimProperty, s: SchemaProperty) -> bool
    decreases s,
{
    match s {
        SchemaProperty::Value(v) => c matches ClaimProperty::Value(cv) && leaf_matches(cv, v.type_),
        SchemaProperty::Array(sa) => {
            &&& c matches ClaimProperty::Array(ca)
            &&& ca@.len() == sa@.len()
            &&& forall|i: int| 0 <= i < sa@.len() ==> conforms(ca@[i], #[trigger] sa@[i])
        },
        SchemaProperty::Object(sm) => {
            &&& c matches ClaimProperty::Object(cm)
            &&& forall|j: int|
                0 <= j < sm@.len() ==> match find_key(cm@, (#[trigger] sm@[j]).0@) {
                    Some(cp) => conforms(cp, sm@[j].1),
                    None => false,
                }
        },
    }
}

/// Conformance of a claim map to a schema's property map, as for a map node.
pub open spec fn props_conform(
    claims: Seq<(String, ClaimProperty)>,
    props: Seq<(String, SchemaProperty)>,
) -> bool {
    forall|j: int|
        0 <= j < props.len() ==> match find_key(claims, (#[trigger] props[j]).0@) {
            Some(cp) => conforms(cp, props[j].1),
            None => false,
        }
}

/// The default leaf of a type: empty text, zero, false.
pub open spec fn is_default_leaf(c: ClaimPropertyValue, t: SchemaPropertyValueType) -> bool {
    match c {
        ClaimPropertyValue::Text(s) => t == SchemaPropertyValueType::Text && s@.len() == 0,
        ClaimPropertyValue::Number(n) => t == SchemaPropertyValueType::Number && n == 0,
        ClaimPropertyValue::Boolean(b) => t == SchemaPropertyValueType::Boolean && !b,
    }
}

/// `c` is the all-defaults claim tree of `s`: default leaves, arrays element
/// by element, maps key by key in the same order.
pub open spec fn is_default_of(c: ClaimProperty, s: SchemaProperty) -> bool
    decreases s,
{
    match s {
        SchemaProperty::Value(v) => c matches ClaimProperty::Value(cv) && is_default_leaf(cv, v.type_),
        SchemaProperty::Array(sa) => {
            &&& c matches ClaimProperty::Array(ca)
            &&& ca@.len() == sa@.len()
            &&& forall|i: int| 0 <= i < sa@.len() ==> is_default_of(ca@[i], #[trigger] sa@[i])
        },
        SchemaProperty::Object(sm) => {
            &&& c matches ClaimProperty::Object(cm)
            &&& cm@.len() == sm@.len()
            &&& forall|j: int|
                0 <= j < sm@.len() ==> cm@[j].0@ == (#[trigger] sm@[j]).0@ && is_default_of(
                    cm@[j].1,
                    sm@[j].1,
                )
        },
    }
}

/// The all-defaults claim map of a schema's property map.
pub open spec fn props_default(
    claims: Seq<(String, ClaimProperty)>,
    props: Seq<(String, SchemaProperty)>,
) -> bool {
    &&& claims.len() == props.len()
    &&& forall|j: int|
        0 <= j < props.len() ==> claims[j].0@ == (#[trigger] props[j]).0@ && is_default_of(
            claims[j].1,
            props[j].1,
        )
}

/// The tag of a claim leaf: 0 for text, 1 for a number, 2 for a boolean.
pub open spec fn leaf_kind(c: ClaimPropertyValue) -> int {
    match c {
        ClaimPropertyValue::Text(_) => 0,
        ClaimPropertyValue::Number(_) => 1,
        ClaimPropertyValue::Boolean(_) => 2,
    }
}

/// `c2` is `c` with exactly one leaf replaced by a leaf of another type;
/// everything else, keys included, is unchanged.
pub open spec fn one_leaf_retyped(c2: ClaimProperty, c: ClaimProperty) -> bool
    decreases c,
{
    match c {
        ClaimProperty::Value(v) => c2 matches ClaimProperty::Value(v2) && leaf_kind(v2) != leaf_kind(v),
        ClaimProperty::Array(a) => {
            &&& c2 matches ClaimProperty::Array(a2)
            &&& a2@.len() == a@.len()
            &&& exists|i: int|
                0 <= i < a@.len() && one_leaf_retyped(a2@[i], #[trigger] a@[i]) && forall|k: int|
                    0 <= k < a@.len() && k != i ==> a2@[k] == a@[k]
        },
        ClaimProperty::Object(m) => {
            &&& c2 matches ClaimProperty::Object(m2)
            &&& m2@.len() == m@.len()
            &&& forall|k: int| 0 <= k < m@.len() ==> (#[trigger] m2@[k]).0@ == m@[k].0@
            &&& exists|i: int|
                0 <= i < m@.len() && one_leaf_retyped(m2@[i].1, (#[trigger] m@[i]).1) && forall|
                    k: int,
                |
                    0 <= k < m@.len() && k != i ==> m2@[k] == m@[k]
        },
    }
}

/// A claim map is `claims` with one leaf of one entry retyped.
pub open spec fn props_one_leaf_retyped(
    claims2: Seq<(String, ClaimProperty)>,
    claims: Seq<(String, ClaimProperty)>,
) -> bool {
    &&& claims2.len() == claims.len()
    &&& forall|k: int| 0 <= k < claims.len() ==> (#[trigger] claims2[k]).0@ == claims[k].0@
    &&& exists|i: int|
        0 <= i < claims.len() && one_leaf_retyped(claims2[i].1, (#[trigger] claims[i]).1) && forall|
            k: int,
        |
            0 <= k < claims.len() && k != i ==> claims2[k] == claims[k]
}

/// Two maps with the same keys at the same places are sorted alike.
proof fn lemma_same_keys_sorted<A, B>(a: Seq<(String, A)>, b: Seq<(String, B)>)
    requires
        keys_sorted(b),
        a.len() == b.len(),
        forall|j: int| 0 <= j < a.len() ==> (#[trigger] a[j]).0@ == b[j].0@,
    ensures
        keys_sorted(a),
{
    assert forall|i: int, j: int| 0 <= i < j < a.len() implies bytes_lt_keys(a, i, j) by {
        assert(a[i].0@ == b[i].0@ && a[j].0@ == b[j].0@);
        assert(crate::keymap::bytes_lt(key_bytes(b[i].0@), key_bytes(b[j].0@)));
    }
}

spec fn bytes_lt_keys<A>(a: Seq<(String, A)>, i: int, j: int) -> bool {
    crate::keymap::bytes_lt(key_bytes(a[i].0@), key_bytes(a[j].0@))
}

/// The all-defaults claim tree of a well-formed schema conforms to it.
pub proof fn lemma_default_conforms(c: ClaimProperty, s: SchemaProperty)
    requires
        schema_wf(s),
        is_default_of(c, s),
    ensures
        conforms(c, s),
    decreases s,
{
    match s {
        SchemaProperty::Value(_) => {},
        SchemaProperty::Array(sa) => {
            let ca = c->Array_0;
            assert forall|i: int| 0 <= i < sa@.len() implies conforms(ca@[i], #[trigger] sa@[i]) by {
                lemma_default_conforms(ca@[i], sa@[i]);
            }
        },
        SchemaProperty::Object(sm) => {
            let cm = c->Object_0;
            lemma_same_keys_sorted(cm@, sm@);
            assert forall|j: int| 0 <= j < sm@.len() implies match find_key(
                cm@,
                (#[trigger] sm@[j]).0@,
            ) {
                Some(cp) => conforms(cp, sm@[j].1),
                None => false,
            } by {
                lemma_find_key_sorted(cm@, j);
                lemma_default_conforms(cm@[j].1, sm@[j].1);
            }
        },
    }
}

/// Retyping one leaf of the all-defaults claim tree of a well-formed schema
/// breaks conformance.
pub proof fn lemma_retyped_leaf_rejected(c2: ClaimProperty, c: ClaimProperty, s: SchemaProperty)
    requires
        schema_wf(s),
        is_default_of(c, s),
        one_leaf_retyped(c2, c),
    ensures
        !conforms(c2, s),
    decreases s,
{
    match s {
        SchemaProperty::Value(_) => {},
        SchemaProperty::Array(sa) => {
            let ca = c->Array_0;
            let ca2 = c2->Array_0;
            let i = choose|i: int|
                0 <= i < ca@.len() && one_leaf_retyped(ca2@[i], #[trigger] ca@[i]) && forall|k: int|
                    0 <= k < ca@.len() && k != i ==> ca2@[k] == ca@[k];
            assert(is_default_of(ca@[i], sa@[i]));
            lemma_retyped_leaf_rejected(ca2@[i], ca@[i], sa@[i]);
        },
        SchemaProperty::Object(sm) => {
            let cm = c->Object_0;
            let cm2 = c2->Object_0;
            let i = choose|i: int|
                0 <= i < cm@.len() && one_leaf_retyped(cm2@[i].1, (#[trigger] cm@[i]).1) && forall|
                    k: int,
                |
                    0 <= k < cm@.len() && k != i ==> cm2@[k] == cm@[k];
            assert(sm@[i].0@ == cm@[i].0@);
            assert forall|j: int| 0 <= j < cm2@.len() implies (#[trigger] cm2@[j]).0@ == sm@[j].0@ by {
                assert(cm2@[j].0@ == cm@[j].0@);
                assert(cm@[j].0@ == sm@[j].0@);
            }
            lemma_same_keys_sorted(cm2@, sm@);
            lemma_find_key_sorted(cm2@, i);
            assert(is_default_of(cm@[i].1, sm@[i].1));
            lemma_retyped_leaf_rejected(cm2@[i].1, cm@[i].1, sm@[i].1);
        },
    }
}

/// Compares a claim leaf with a schema leaf by type.
pub fn is_valid_credential_schema_property_value(
    claim_value: &ClaimPropertyValue,
    schema_value: &SchemaPropertyValue,
) -> (r: bool)
    ensures
        r == leaf_matches(*claim_value, schema_value.type_),
{
    match (claim_value, schema_value.get_type()) {
        (ClaimPropertyValue::Text(_), SchemaPropertyValueType::Text) => true,
        (ClaimPropertyValue::Number(_), SchemaPropertyValueType::Number) => true,
        (ClaimPropertyValue::Boolean(_), SchemaPropertyValueType::Boolean) => true,
        _ => false,
    }
}

/// Decides whether a claim tree conforms to a schema tree.
pub fn is_valid_credential_schema_property(
    claim_property: &ClaimProperty,
    schema_property: &SchemaProperty,
) -> (r: bool)
    ensures
        r == conforms(*claim_property, *schema_property),
    decreases schema_property, 1nat,
{
    match (claim_property, schema_property) {
        (ClaimProperty::Value(claim_value), SchemaProperty::Value(schema_value)) => {
            is_valid_credential_schema_property_value(claim_value, schema_value)
        },
        (ClaimProperty::Array(claim_array), SchemaProperty::Array(schema_array)) => {
            if claim_array.len() != schema_array.len() {
                return false;
            }
            let mut i: usize = 0;
            while i < schema_array.len()
                invariant
                    i <= schema_array@.len(),
                    claim_array@.len() == schema_array@.len(),
                    *schema_property == SchemaProperty::Array(*schema_array),
                    *claim_property == ClaimProperty::Array(*claim_array),
                    forall|k: int| 0 <= k < i ==> conforms(claim_array@[k], #[trigger] schema_array@[k]),
                decreases schema_array.len() - i,
            {
                proof {
                    assert(decreases_to!(*schema_array => schema_array[i as int]));
                    assert(schema_property->Array_0 == *schema_array);
                    assert(decreases_to!(*schema_property => schema_property->Array_0));
                    assert(decreases_to!(*schema_property => schema_array[i as int]));
                }
                if !is_valid_credential_schema_property(&claim_array[i], &schema_array[i]) {
                    return false;
                }
                i = i + 1;
            }
            true
        },
        (ClaimProperty::Object(claim_map), SchemaProperty::Object(schema_map)) => {
            is_valid_property_map(claim_map, schema_map, schema_property)
        },
        (_, SchemaProperty::Value(_)) => false,
        (_, SchemaProperty::Array(_)) => false,
        (_, SchemaProperty::Object(_)) => false,
    }
}

/// Decides `props_conform` for a map node, or for a schema's property map
/// when `parent` is absent.
fn is_valid_property_map(
    claim_map: &Vec<(String, ClaimProperty)>,
    schema_map: &Vec<(String, SchemaProperty)>,
    parent: &SchemaProperty,
) -> (r: bool)
    requires
        *parent == SchemaProperty::Object(*schema_map),
    ensures
        r == props_conform(claim_map@, schema_map@),
    decreases parent, 0nat,
{
    let mut j: usize = 0;
    while j < schema_map.len()
        invariant
            j <= schema_map@.len(),
            *parent == SchemaProperty::Object(*schema_map),
            forall|k: int|
                0 <= k < j ==> match find_key(claim_map@, (#[trigger] schema_map@[k]).0@) {
                    Some(cp) => conforms(cp, schema_map@[k].1),
                    None => false,
                },
        decreases schema_map.len() - j,
    {
        let entry = &schema_map[j];
        proof {
            assert(parent->Object_0 == *schema_map);
            assert(decreases_to!(*parent => parent->Object_0));
            assert(decreases_to!(*schema_map => schema_map[j as int]));
        }
        match get_entry(claim_map, &entry.0) {
            Some(claim_prop) => {
                if !is_valid_credential_schema_property(claim_prop, &entry.1) {
                    return false;
                }
            },
            None => {
                return false;
            },
        }
        j = j + 1;
    }
    true
}

/// The all-defaults claim map of a well-formed property map conforms to it.
pub proof fn lemma_default_claims_conform(
    claims: Seq<(String, ClaimProperty)>,
    props: Seq<(String, SchemaProperty)>,
)
    requires
        schema_props_wf(props),
        props_default(claims, props),
    ensures
        props_conform(claims, props),
{
    lemma_same_keys_sorted(claims, props);
    assert forall|j: int| 0 <= j < props.len() implies match find_key(
        claims,
        (#[trigger] props[j]).0@,
    ) {
        Some(cp) => conforms(cp, props[j].1),
        None => false,
    } by {
        lemma_find_key_sorted(claims, j);
        lemma_default_conforms(claims[j].1, props[j].1);
    }
}

/// Retyping one leaf of the all-defaults claim map of a well-formed property
/// map breaks conformance.
pub proof fn lemma_retyped_claims_rejected(
    claims2: Seq<(String, ClaimProperty)>,
    claims: Seq<(String, ClaimProperty)>,
    props: Seq<(String, SchemaProperty)>,
)
    requires
        schema_props_wf(props),
        props_default(claims, props),
        props_one_leaf_retyped(claims2, claims),
    ensures
        !props_conform(claims2, props),
{
    let i = choose|i: int|
        0 <= i < claims.len() && one_leaf_retyped(claims2[i].1, (#[trigger] claims[i]).1) && forall|
            k: int,
        |
            0 <= k < claims.len() && k != i ==> claims2[k] == claims[k];
    assert forall|j: int| 0 <= j < claims2.len() implies (#[trigger] claims2[j]).0@ == props[j].0@ by {
        assert(claims2[j].0@ == claims[j].0@);
        assert(claims[j].0@ == props[j].0@);
    }
    lemma_same_keys_sorted(claims2, props);
    lemma_find_key_sorted(claims2, i);
    assert(is_default_of(claims[i].1, props[i].1));
    lemma_retyped_leaf_rejected(claims2[i].1, claims[i].1, props[i].1);
    assert(props[i].0@ == claims2[i].0@);
}

/// Decides whether a claim map conforms to a schema's property map.
pub fn is_valid_claims(
    claims: &Vec<(String, ClaimProperty)>,
    props: &Vec<(String, SchemaProperty)>,
) -> (r: bool)
    ensures
        r == props_conform(claims@, props@),
{
    let mut j: usize = 0;
    while j < props.len()
        invariant
            j <= props@.len(),
            forall|k: int|
                0 <= k < j ==> match find_key(claims@, (#[trigger] props@[k]).0@) {
                    Some(cp) => conforms(cp, props@[k].1),
                    None => false,
                },
        decreases props.len() - j,
    {
        let entry = &props[j];
        match get_entry(claims, &entry.0) {
            Some(claim_prop) => {
                if !is_valid_credential_schema_property(claim_prop, &entry.1) {
                    return false;
                }
            },
            None => {
                return false;
            },
        }
        j = j + 1;
    }
    true
}

/// The default claim leaf of a leaf type.
fn default_claim_value(t: &SchemaPropertyValueType) -> (r: ClaimPropertyValue)
    ensures
        is_default_leaf(r, *t),
{
    match t {
        SchemaPropertyValueType::Text => ClaimPropertyValue::Text(String::new()),
        SchemaPropertyValueType::Number => ClaimPropertyValue::Number(0),
        SchemaPropertyValueType::Boolean => ClaimPropertyValue::Boolean(false),
    }
}

/// Builds the all-defaults claim tree of a schema tree: empty text, zero and
/// false at the leaves, arrays element by element, maps key by key.
pub fn build_claim_property_from_schema_property(property: &SchemaProperty) -> (r: ClaimProperty)
    ensures
        is_default_of(r, *property),
    decreases property, 1nat,
{
    match property {
        SchemaProperty::Value(value) => ClaimProperty::Value(default_claim_value(value.get_type())),
        SchemaProperty::Object(map) => ClaimProperty::Object(build_default_map(map, property)),
        SchemaProperty::Array(array) => {
            let mut claim_properties: Vec<ClaimProperty> = Vec::new();
            let mut i: usize = 0;
            while i < array.len()
                invariant
                    i <= array@.len(),
                    claim_properties@.len() == i,
                    *property == SchemaProperty::Array(*array),
                    forall|k: int| 0 <= k < i ==> is_default_of(claim_properties@[k], #[trigger] array@[k]),
                decreases array.len() - i,
            {
                proof {
                    assert(property->Array_0 == *array);
                    assert(decreases_to!(*property => property->Array_0));
                    assert(decreases_to!(*array => array[i as int]));
                }
                let sub = build_claim_property_from_schema_property(&array[i]);
                claim_properties.push(sub);
                i = i + 1;
            }
            ClaimProperty::Array(claim_properties)
        },
    }
}

/// The all-defaults claim map of a map node `parent`.
fn build_default_map(
    map: &Vec<(String, SchemaProperty)>,
    parent: &SchemaProperty,
) -> (r: Vec<(String, ClaimProperty)>)
    requires
        *parent == SchemaProperty::Object(*map),
    ensures
        props_default(r@, map@),
    decreases parent, 0nat,
{
    let mut claim_properties: Vec<(String, ClaimProperty)> = Vec::new();
    let mut j: usize = 0;
    while j < map.len()
        invariant
            j <= map@.len(),
            claim_properties@.len() == j,
            *parent == SchemaProperty::Object(*map),
            forall|k: int|
                0 <= k < j ==> claim_properties@[k].0@ == (#[trigger] map@[k]).0@ && is_default_of(
                    claim_properties@[k].1,
                    map@[k].1,
                ),
        decreases map.len() - j,
    {
        let entry = &map[j];
        proof {
            assert(parent->Object_0 == *map);
            assert(decreases_to!(*parent => parent->Object_0));
            assert(decreases_to!(*map => map[j as int]));
        }
        let sub = build_claim_property_from_schema_property(&entry.1);
        claim_properties.push((entry.0.clone(), sub));
        j = j + 1;
    }
    claim_properties
}

/// Builds the all-defaults claim map of a schema's property map.
pub fn build_claim_properties_from_schema_properties(
    schema_properties: &Vec<(String, SchemaProperty)>,
) -> (r: Vec<(String, ClaimProperty)>)
    ensures
        props_default(r@, schema_properties@),
{
    let mut claim_properties: Vec<(String, ClaimProperty)> = Vec::new();
    let mut j: usize = 0;
    while j < schema_properties.len()
        invariant
            j <= schema_properties@.len(),
            claim_properties@.len() == j,
            forall|k: int|
                0 <= k < j ==> claim_properties@[k].0@ == (#[trigger] schema_properties@[k]).0@
                    && is_default_of(claim_properties@[k].1, schema_properties@[k].1),
        decreases schema_properties.len() - j,
    {
        let entry = &schema_properties[j];
        let sub = build_claim_property_from_schema_property(&entry.1);
        claim_properties.push((entry.0.clone(), sub));
        j = j + 1;
    }
    claim_properties
}

/// Sets a key of a schema property map, keeping the map well formed.
pub fn insert_schema_property(m: &mut Vec<(String, SchemaProperty)>, key: String, value: SchemaProperty)
    requires
        schema_props_wf(old(m)@),
        schema_wf(value),
    ensures
        schema_props_wf(final(m)@),
        find_key(final(m)@, key@) == Some(value),
        forall|k: Seq<char>| k != key@ ==> #[trigger] find_key(final(m)@, k) == find_key(old(m)@, k),
        find_key(old(m)@, key@) is Some ==> final(m)@.len() == old(m)@.len(),
        find_key(old(m)@, key@) is None ==> final(m)@.len() == old(m)@.len() + 1,
{
    let ghost before = old(m)@;
    insert_entry(m, key, value);
    proof {
        assert forall|j: int| 0 <= j < m@.len() implies schema_wf(#[trigger] m@[j].1) by {
            if !(m@[j].1 == value) {
                let k = choose|k: int| 0 <= k < before.len() && before[k] == m@[j];
                assert(schema_wf(before[k].1));
            }
        }
    }
}

/// Sets a key of a claim property map, keeping the map well formed.
pub fn insert_claim_property(m: &mut Vec<(String, ClaimProperty)>, key: String, value: ClaimProperty)
    requires
        claim_props_wf(old(m)@),
        claim_wf(value),
    ensures
        claim_props_wf(final(m)@),
        find_key(final(m)@, key@) == Some(value),
        forall|k: Seq<char>| k != key@ ==> #[trigger] find_key(final(m)@, k) == find_key(old(m)@, k),
        find_key(old(m)@, key@) is Some ==> final(m)@.len() == old(m)@.len(),
        find_key(old(m)@, key@) is None ==> final(m)@.len() == old(m)@.len() + 1,
{
    let ghost before = old(m)@;
    insert_entry(m, key, value);
    proof {
        assert forall|j: int| 0 <= j < m@.len() implies claim_wf(#[trigger] m@[j].1) by {
            if !(m@[j].1 == value) {
                let k = choose|k: int| 0 <= k < before.len() && before[k] == m@[j];
                assert(claim_wf(before[k].1));
            }
        }
    }
}

} // verus!
