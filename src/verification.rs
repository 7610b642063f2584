use vstd::prelude::*;
use crate::crypto::{
    proof_digest, public_key_accepted, signature_accepted, ecdsa_verifies,
    MyEcdsaSecp256k1, ProofOptions,
};
use crate::error::UserError;
use crate::model::{Credential, CredentialSchema, Issuer, Proof, VerifiableCredential, VerificationMethod, Verifier};
use crate::time::current_timestamp;
use crate::tree::{is_valid_claims, props_conform};
use crate::url::URL;

verus! {

/// The context that every credential must name.
pub open spec fn v2_context() -> Seq<char> {
    "https://www.w3.org/ns/credentials/v2"@
}

/// The proof purpose that signing and checking both assume.
pub open spec fn fixed_purpose() -> Seq<char> {
    "Proof Purpose"@
}

/// The credential names the credentials v2 context.
pub open spec fn has_v2_context(c: Credential) -> bool {
    exists|i: int| 0 <= i < c.context@.len() && (#[trigger] c.context@[i])@ == v2_context()
}

/// The instant lies in the credential's validity window, bounds included.
pub open spec fn within_validity(c: Credential, now: int) -> bool {
    c.valid_from <= now <= c.valid_until
}

/// The proof checks out under the key with the fixed purpose.
pub open spec fn proof_accepted(c: Credential, p: Proof, key: Seq<u8>) -> bool {
    &&& p.proof_purpose@ == fixed_purpose()
    &&& signature_accepted(p.proof_value@)
    &&& public_key_accepted(key)
    &&& ecdsa_verifies(key, proof_digest(c), p.proof_value@)
}

/// The reason a credential is refused, from the four checks in order; empty
/// when all pass.
pub open spec fn refusal_reason(
    format_ok: bool,
    expiry_ok: bool,
    schema_ok: bool,
    proof_ok: bool,
) -> Seq<char> {
    if !format_ok {
        "Invalid credential format."@
    } else if !expiry_ok {
        "Invalid credential expiry."@
    } else if !schema_ok {
        "Invalid credential schema."@
    } else if !proof_ok {
        "Invalid verifiable credential proof."@
    } else {
        ""@
    }
}

/// The answer to a verification request.
pub struct VerifyCredentialResponse {
    pub verified: bool,
    pub reason: String,
}

/// The request to check a credential against a verifier's policy; the
/// credential is JSON text.
pub struct VerifyCredentialRequest {
    pub verifier_id: String,
    pub verifiable_credential: String,
}

/// The credential names the credentials v2 context.
pub fn is_valid_credential_format(cred: &Credential) -> (r: bool)
    ensures
        r == has_v2_context(*cred),
{
    let v2 = match URL::new("https://www.w3.org/ns/credentials/v2") {
        Ok(u) => u,
        Err(_) => vstd::pervasive::unreached(),
    };
    let mut i: usize = 0;
    while i < cred.context.len()
        invariant
            i <= cred.context@.len(),
            v2@ == v2_context(),
            forall|k: int| 0 <= k < i ==> (#[trigger] cred.context@[k])@ != v2_context(),
        decreases cred.context.len() - i,
    {
        if cred.context[i].same_as(&v2) {
            return true;
        }
        i = i + 1;
    }
    false
}

/// The instant `now` (seconds since the Unix epoch) lies in the credential's
/// validity window.
pub fn is_valid_credential_expiry_at(cred: &Credential, now: i64) -> (r: bool)
    ensures
        r == within_validity(*cred, now as int),
{
    let after_valid_from = now >= cred.valid_from;
    let before_valid_until = now <= cred.valid_until;
    after_valid_from && before_valid_until
}

/// The wall-clock time lies in the credential's validity window.
pub fn is_valid_credential_expiry(cred: &Credential) -> (r: bool)
    ensures
        exists|t: i64| r == within_validity(*cred, t as int),
        r ==> cred.valid_from <= cred.valid_until,
{
    let now = current_timestamp();
    let r = is_valid_credential_expiry_at(cred, now);
    assert(r == within_validity(*cred, now as int));
    r
}

/// The credential's subject conforms to the schema's property tree.
pub fn is_valid_credential_schema(cred: &Credential, schema: &CredentialSchema) -> (r: bool)
    ensures
        r == props_conform(cred.credential_subject@, schema.properties@),
{
    is_valid_claims(&cred.credential_subject, &schema.properties)
}

/// Checks the proof with the fixed purpose under the given public key.
pub fn is_valid_verifiable_credential_proof(
    cred: &Credential,
    proof: &Proof,
    verifying_key: &[u8],
    verification_method: VerificationMethod,
    now: i64,
) -> (r: bool)
    ensures
        r == proof_accepted(*cred, *proof, verifying_key@),
{
    let cryptographic_suite = MyEcdsaSecp256k1::new();
    let proof_options = ProofOptions::new(
        verification_method,
        "Proof Purpose".to_string(),
        now,
        "Proof Domain".to_string(),
        "Proof Challenge".to_string(),
    );
    match cryptographic_suite.verify_proof(cred, proof, verifying_key, &proof_options) {
        Ok(is_valid_proof) => is_valid_proof,
        Err(_) => false,
    }
}

/// The response for the outcomes of the four checks, taken in order.
pub fn verification_response(format_ok: bool, expiry_ok: bool, schema_ok: bool, proof_ok: bool) -> (r:
    VerifyCredentialResponse)
    ensures
        r.verified == (format_ok && expiry_ok && schema_ok && proof_ok),
        r.reason@ == refusal_reason(format_ok, expiry_ok, schema_ok, proof_ok),
{
    if !format_ok {
        VerifyCredentialResponse { verified: false, reason: "Invalid credential format.".to_string() }
    } else if !expiry_ok {
        VerifyCredentialResponse { verified: false, reason: "Invalid credential expiry.".to_string() }
    } else if !schema_ok {
        VerifyCredentialResponse { verified: false, reason: "Invalid credential schema.".to_string() }
    } else if !proof_ok {
        VerifyCredentialResponse {
            verified: false,
            reason: "Invalid verifiable credential proof.".to_string(),
        }
    } else {
        VerifyCredentialResponse { verified: true, reason: "".to_string() }
    }
}

/// Decides a verification request at instant `now`, given what was looked
/// up: the verifier's policy, the schema it names, and the issuer the
/// credential names. A missing record, a credential without proofs or an
/// issuer without verification methods is a bad request. Otherwise the
/// credential's format, validity window, conformance to the schema and first
/// proof (under the issuer's first public key) are checked in that order, and
/// the first that fails gives the reason.
pub fn verify_credential(
    verifier: Option<&Verifier>,
    schema: Option<&CredentialSchema>,
    verifiable_credential: &VerifiableCredential,
    issuer: Option<&Issuer>,
    now: i64,
) -> (r: Result<VerifyCredentialResponse, UserError>)
    ensures
        (verifier is None || schema is None || verifiable_credential.proof@.len() == 0
            || issuer is None || issuer->0.verification_methods@.len() == 0) ==> r == Err::<
            VerifyCredentialResponse,
            UserError,
        >(UserError::BadRequest),
        (verifier is Some && schema is Some && verifiable_credential.proof@.len() > 0
            && issuer is Some && issuer->0.verification_methods@.len() > 0) ==> (r matches Ok(resp)
            && {
            let c = verifiable_credential.credential;
            let format_ok = has_v2_context(c);
            let expiry_ok = within_validity(c, now as int);
            let schema_ok = props_conform(c.credential_subject@, schema->0.properties@);
            let proof_ok = proof_accepted(
                c,
                verifiable_credential.proof@[0],
                issuer->0.verification_methods@[0].public_key_multibase@,
            );
            &&& resp.verified == (format_ok && expiry_ok && schema_ok && proof_ok)
            &&& resp.reason@ == refusal_reason(format_ok, expiry_ok, schema_ok, proof_ok)
        }),
{
    let (schema, issuer) = match (verifier, schema, issuer) {
        (Some(_), Some(s), Some(i)) => (s, i),
        _ => {
            return Err(UserError::BadRequest);
        },
    };
    let credential = &verifiable_credential.credential;
    if verifiable_credential.proof.len() == 0 {
        return Err(UserError::BadRequest);
    }
    let proof = &verifiable_credential.proof[0];
    if issuer.verification_methods.len() == 0 {
        return Err(UserError::BadRequest);
    }
    let verification_method = &issuer.verification_methods[0];
    let verifying_key = verification_method.public_key_multibase.as_slice();
    let format_ok = is_valid_credential_format(credential);
    let expiry_ok = format_ok && is_valid_credential_expiry_at(credential, now);
    let schema_ok = expiry_ok && is_valid_credential_schema(credential, schema);
    let proof_ok = schema_ok && is_valid_verifiable_credential_proof(
        credential,
        proof,
        verifying_key,
        copy_verification_method(verification_method),
        now,
    );
    proof {
        let c = verifiable_credential.credential;
        assert(refusal_reason(format_ok, expiry_ok, schema_ok, proof_ok) == refusal_reason(
            has_v2_context(c),
            within_validity(c, now as int),
            props_conform(c.credential_subject@, schema.properties@),
            proof_accepted(c, *proof, verifying_key@),
        ));
    }
    Ok(verification_response(format_ok, expiry_ok, schema_ok, proof_ok))
}

/// A verification method with the same fields.
fn copy_verification_method(vm: &VerificationMethod) -> (r: VerificationMethod)
    ensures
        r.id@ == vm.id@,
        r.type_ == vm.type_,
        r.controller_id@ == vm.controller_id@,
        r.public_key_multibase@ == vm.public_key_multibase@,
{
    VerificationMethod::new(
        vm.id.duplicate(),
        vm.type_.clone(),
        vm.controller_id.duplicate(),
        vm.public_key_multibase.clone(),
    )
}

/// A proof signed with the fixed purpose by a secret whose public key is
/// `public` passes the proof check under `public`.
pub proof fn lemma_signed_proof_accepted(c: Credential, secret: Seq<u8>, public: Seq<u8>, p: Proof)
    requires
        crate::crypto::key_pair_matches(secret, public),
        crate::crypto::ecdsa_signature_of(secret, proof_digest(c)) == Some(p.proof_value@),
        p.proof_purpose@ == fixed_purpose(),
    ensures
        proof_accepted(c, p, public),
{
    assert(crate::crypto::ecdsa_signature_of(secret, proof_digest(c)) is Some);
}

} // verus!
