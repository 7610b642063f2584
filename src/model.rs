use vstd::prelude::*;
use crate::tree::{claim_props_wf, schema_props_wf, ClaimProperty, SchemaProperty};
use crate::url::URL;

verus! {

/// A named public-key record of an issuer.
#[derive(Clone, Debug, PartialEq, Eq)]
pub struct VerificationMethod {
    pub id: URL,
    pub type_: String,
    pub controller_id: URL,
    /// The SEC1 encoding of the secp256k1 public key.
    pub public_key_multibase: Vec<u8>,
}

impl VerificationMethod {
    pub fn new(id: URL, type_: String, controller_id: URL, public_key_multibase: Vec<u8>) -> (r: Self)
        ensures
            r.id == id,
            r.type_ == type_,
            r.controller_id == controller_id,
            r.public_key_multibase == public_key_multibase,
    {
        VerificationMethod { id, type_, controller_id, public_key_multibase }
    }

    pub fn get_id(&self) -> (r: &URL)
        ensures
            *r == self.id,
    {
        &self.id
    }

    pub fn get_type(&self) -> (r: &String)
        ensures
            *r == self.type_,
    {
        &self.type_
    }

    pub fn get_controller_id(&self) -> (r: &URL)
        ensures
            *r == self.controller_id,
    {
        &self.controller_id
    }

    pub fn get_public_key_multibase(&self) -> (r: &Vec<u8>)
        ensures
            *r == self.public_key_multibase,
    {
        &self.public_key_multibase
    }
}

/// An issuer of credentials, with the verification methods it has been given,
/// in the order they were attached.
#[derive(Clone, Debug, PartialEq, Eq)]
pub struct Issuer {
    pub id: URL,
    pub name: String,
    pub verification_methods: Vec<VerificationMethod>,
}

impl Issuer {
    /// Every verification method of the issuer names the issuer as its
    /// controller.
    pub open spec fn wf(&self) -> bool {
        forall|i: int|
            0 <= i < self.verification_methods@.len() ==> (#[trigger] self.verification_methods@[i]).controller_id@
                == self.id@
    }

    pub fn new(id: URL, name: String) -> (r: Self)
        ensures
            r.id == id,
            r.name == name,
            r.verification_methods@.len() == 0,
            r.wf(),
    {
        Issuer { id, name, verification_methods: Vec::new() }
    }

    /// An issuer rebuilt from its parts; refused when a verification method
    /// names another controller.
    pub fn from_parts(id: URL, name: String, verification_methods: Vec<VerificationMethod>) -> (r:
        Option<Self>)
        ensures
            r matches Some(i) ==> i.id == id && i.name == name && i.verification_methods
                == verification_methods && i.wf(),
            r is None <==> exists|k: int|
                0 <= k < verification_methods@.len()
                    && (#[trigger] verification_methods@[k]).controller_id@ != id@,
    {
        let mut k: usize = 0;
        while k < verification_methods.len()
            invariant
                k <= verification_methods@.len(),
                forall|j: int|
                    0 <= j < k ==> (#[trigger] verification_methods@[j]).controller_id@ == id@,
            decreases verification_methods.len() - k,
        {
            if !verification_methods[k].controller_id.same_as(&id) {
                return None;
            }
            k = k + 1;
        }
        Some(Issuer { id, name, verification_methods })
    }

    pub fn get_id(&self) -> (r: &URL)
        ensures
            *r == self.id,
    {
        &self.id
    }

    pub fn get_name(&self) -> (r: &String)
        ensures
            *r == self.name,
    {
        &self.name
    }

    pub fn get_verification_methods(&self) -> (r: &Vec<VerificationMethod>)
        ensures
            *r == self.verification_methods,
    {
        &self.verification_methods
    }

    /// Appends a verification method controlled by this issuer.
    pub fn new_verification_method(&mut self, verification_method: VerificationMethod)
        requires
            old(self).wf(),
            verification_method.controller_id@ == old(self).id@,
        ensures
            final(self).id == old(self).id,
            final(self).name == old(self).name,
            final(self).verification_methods@ == old(self).verification_methods@.push(
                verification_method,
            ),
            final(self).wf(),
    {
        self.verification_methods.push(verification_method);
    }
}

/// A credential schema: a typed property tree under an identifier.
#[derive(Debug, PartialEq, Eq)]
pub struct CredentialSchema {
    pub id: URL,
    pub type_: String,
    pub name: String,
    pub description: String,
    pub properties: Vec<(String, SchemaProperty)>,
}

impl CredentialSchema {
    /// The property tree's maps have sorted, distinct keys.
    pub open spec fn wf(&self) -> bool {
        schema_props_wf(self.properties@)
    }

    pub fn new(
        id: URL,
        type_: String,
        name: String,
        description: String,
        properties: Vec<(String, SchemaProperty)>,
    ) -> (r: Self)
        ensures
            r.id == id,
            r.type_ == type_,
            r.name == name,
            r.description == description,
            r.properties == properties,
    {
        CredentialSchema { id, type_, name, description, properties }
    }

    pub fn get_id(&self) -> (r: &URL)
        ensures
            *r == self.id,
    {
        &self.id
    }

    pub fn get_name(&self) -> (r: &String)
        ensures
            *r == self.name,
    {
        &self.name
    }

    pub fn get_description(&self) -> (r: &String)
        ensures
            *r == self.description,
    {
        &self.description
    }

    pub fn get_properties(&self) -> (r: &Vec<(String, SchemaProperty)>)
        ensures
            *r == self.properties,
    {
        &self.properties
    }

    /// The `{id, type}` reference to this schema that a credential carries.
    pub fn get_link(&self) -> (r: CredentialSchemaLink)
        ensures
            r.id@ == self.id@,
            r.type_@ == self.type_@,
    {
        CredentialSchemaLink::new(self.id.duplicate(), self.type_.clone())
    }
}

/// A credential's reference to a schema.
#[derive(Clone, Debug, PartialEq, Eq)]
pub struct CredentialSchemaLink {
    pub id: URL,
    pub type_: String,
}

impl CredentialSchemaLink {
    pub fn new(id: URL, type_: String) -> (r: Self)
        ensures
            r.id == id,
            r.type_ == type_,
    {
        CredentialSchemaLink { id, type_ }
    }

    pub fn get_id(&self) -> (r: &URL)
        ensures
            *r == self.id,
    {
        &self.id
    }

    pub fn get_type(&self) -> (r: &String)
        ensures
            *r == self.type_,
    {
        &self.type_
    }
}

/// Placeholder for a credential's status service.
#[derive(Clone, Debug, PartialEq, Eq)]
pub struct CredentialStatus {}

impl CredentialStatus {
    pub fn new() -> (r: Self) {
        CredentialStatus {  }
    }
}

/// Placeholder for a refresh service.
#[derive(Clone, Debug, PartialEq, Eq)]
pub struct RefreshService {}

/// Placeholder for terms of use.
#[derive(Clone, Debug, PartialEq, Eq)]
pub struct TermsOfUse {}

/// Placeholder for evidence.
#[derive(Clone, Debug, PartialEq, Eq)]
pub struct Evidence {}

/// A proof attached to a credential. `created` is in seconds since the Unix
/// epoch.
#[derive(Clone, Debug, PartialEq, Eq)]
pub struct Proof {
    pub type_: String,
    pub created: i64,
    pub verification_method: URL,
    pub proof_purpose: String,
    pub proof_value: Vec<u8>,
}

impl Proof {
    pub fn new(
        type_: String,
        created: i64,
        verification_method: URL,
        proof_purpose: String,
        proof_value: Vec<u8>,
    ) -> (r: Self)
        ensures
            r.type_ == type_,
            r.created == created,
            r.verification_method == verification_method,
            r.proof_purpose == proof_purpose,
            r.proof_value == proof_value,
    {
        Proof { type_, created, verification_method, proof_purpose, proof_value }
    }

    pub fn get_type(&self) -> (r: &String)
        ensures
            *r == self.type_,
    {
        &self.type_
    }

    pub fn get_created(&self) -> (r: i64)
        ensures
            r == self.created,
    {
        self.created
    }

    pub fn get_verification_method(&self) -> (r: &URL)
        ensures
            *r == self.verification_method,
    {
        &self.verification_method
    }

    pub fn get_proof_purpose(&self) -> (r: &String)
        ensures
            *r == self.proof_purpose,
    {
        &self.proof_purpose
    }

    pub fn get_proof_value(&self) -> (r: &Vec<u8>)
        ensures
            *r == self.proof_value,
    {
        &self.proof_value
    }
}

/// A credential. `valid_from` and `valid_until` are in seconds since the Unix
/// epoch.
#[derive(Debug, PartialEq, Eq)]
pub struct Credential {
    pub context: Vec<URL>,
    pub id: URL,
    pub type_: Vec<URL>,
    pub issuer: URL,
    pub valid_from: i64,
    pub valid_until: i64,
    pub credential_subject: Vec<(String, ClaimProperty)>,
    pub credential_schema: Vec<CredentialSchemaLink>,
    pub credential_status: CredentialStatus,
    pub refresh_service: Vec<RefreshService>,
    pub terms_of_use: Vec<TermsOfUse>,
    pub evidence: Vec<Evidence>,
}

impl Credential {
    /// The validity window is not empty and the claim maps have sorted,
    /// distinct keys.
    pub open spec fn wf(&self) -> bool {
        &&& self.valid_from <= self.valid_until
        &&& claim_props_wf(self.credential_subject@)
    }

    pub fn new(
        context: Vec<URL>,
        id: URL,
        type_: Vec<URL>,
        issuer: URL,
        valid_from: i64,
        valid_until: i64,
        credential_subject: Vec<(String, ClaimProperty)>,
        credential_schema: Vec<CredentialSchemaLink>,
    ) -> (r: Self)
        ensures
            r.context == context,
            r.id == id,
            r.type_ == type_,
            r.issuer == issuer,
            r.valid_from == valid_from,
            r.valid_until == valid_until,
            r.credential_subject == credential_subject,
            r.credential_schema == credential_schema,
            r.refresh_service@.len() == 0,
            r.terms_of_use@.len() == 0,
            r.evidence@.len() == 0,
    {
        Credential {
            context,
            id,
            type_,
            issuer,
            valid_from,
            valid_until,
            credential_subject,
            credential_schema,
            credential_status: CredentialStatus::new(),
            refresh_service: Vec::new(),
            terms_of_use: Vec::new(),
            evidence: Vec::new(),
        }
    }

    pub fn get_context(&self) -> (r: &Vec<URL>)
        ensures
            *r == self.context,
    {
        &self.context
    }

    pub fn get_id(&self) -> (r: &URL)
        ensures
            *r == self.id,
    {
        &self.id
    }

    pub fn get_type(&self) -> (r: &Vec<URL>)
        ensures
            *r == self.type_,
    {
        &self.type_
    }

    pub fn get_issuer(&self) -> (r: &URL)
        ensures
            *r == self.issuer,
    {
        &self.issuer
    }

    pub fn get_valid_from(&self) -> (r: i64)
        ensures
            r == self.valid_from,
    {
        self.valid_from
    }

    pub fn get_valid_until(&self) -> (r: i64)
        ensures
            r == self.valid_until,
    {
        self.valid_until
    }

    pub fn get_credential_subject(&self) -> (r: &Vec<(String, ClaimProperty)>)
        ensures
            *r == self.credential_subject,
    {
        &self.credential_subject
    }

    pub fn get_credential_schema(&self) -> (r: &Vec<CredentialSchemaLink>)
        ensures
            *r == self.credential_schema,
    {
        &self.credential_schema
    }

    pub fn get_credential_status(&self) -> (r: &CredentialStatus)
        ensures
            *r == self.credential_status,
    {
        &self.credential_status
    }

    pub fn get_refresh_service(&self) -> (r: &Vec<RefreshService>)
        ensures
            *r == self.refresh_service,
    {
        &self.refresh_service
    }

    pub fn get_terms_of_use(&self) -> (r: &Vec<TermsOfUse>)
        ensures
            *r == self.terms_of_use,
    {
        &self.terms_of_use
    }

    pub fn get_evidence(&self) -> (r: &Vec<Evidence>)
        ensures
            *r == self.evidence,
    {
        &self.evidence
    }
}

/// A credential with its proofs.
#[derive(Debug, PartialEq, Eq)]
pub struct VerifiableCredential {
    pub credential: Credential,
    pub proof: Vec<Proof>,
}

impl VerifiableCredential {
    pub fn new(credential: Credential, proof: Vec<Proof>) -> (r: Self)
        ensures
            r.credential == credential,
            r.proof == proof,
    {
        VerifiableCredential { credential, proof }
    }

    pub fn get_credential(&self) -> (r: &Credential)
        ensures
            *r == self.credential,
    {
        &self.credential
    }

    pub fn get_proof(&self) -> (r: &Vec<Proof>)
        ensures
            *r == self.proof,
    {
        &self.proof
    }
}

/// Credentials presented together by a holder.
#[derive(Debug, PartialEq, Eq)]
pub struct VerifiablePresentation {
    pub context: Vec<URL>,
    pub id: URL,
    pub type_: Vec<URL>,
    pub verifiable_credential: Vec<VerifiableCredential>,
    pub holder: Option<URL>,
    pub proof: Vec<Proof>,
}

impl VerifiablePresentation {
    pub fn new(
        context: Vec<URL>,
        id: URL,
        type_: Vec<URL>,
        verifiable_credential: Vec<VerifiableCredential>,
        holder: Option<URL>,
        proof: Vec<Proof>,
    ) -> (r: Self)
        ensures
            r.context == context,
            r.id == id,
            r.type_ == type_,
            r.verifiable_credential == verifiable_credential,
            r.holder == holder,
            r.proof == proof,
    {
        VerifiablePresentation { context, id, type_, verifiable_credential, holder, proof }
    }

    pub fn get_context(&self) -> (r: &Vec<URL>)
        ensures
            *r == self.context,
    {
        &self.context
    }

    pub fn get_id(&self) -> (r: &URL)
        ensures
            *r == self.id,
    {
        &self.id
    }

    pub fn get_type(&self) -> (r: &Vec<URL>)
        ensures
            *r == self.type_,
    {
        &self.type_
    }

    pub fn get_verifiable_credential(&self) -> (r: &Vec<VerifiableCredential>)
        ensures
            *r == self.verifiable_credential,
    {
        &self.verifiable_credential
    }

    pub fn get_holder(&self) -> (r: &Option<URL>)
        ensures
            *r == self.holder,
    {
        &self.holder
    }

    pub fn get_proof(&self) -> (r: &Vec<Proof>)
        ensures
            *r == self.proof,
    {
        &self.proof
    }
}

/// A verifier's policy: the schema that credentials shown to it must follow.
#[derive(Clone, Debug, PartialEq, Eq)]
pub struct Verifier {
    pub id: URL,
    pub name: String,
    pub schema_id: URL,
}

impl Verifier {
    pub fn new(id: URL, name: String, schema_id: URL) -> (r: Self)
        ensures
            r.id == id,
            r.name == name,
            r.schema_id == schema_id,
    {
        Verifier { id, name, schema_id }
    }

    pub fn get_id(&self) -> (r: &URL)
        ensures
            *r == self.id,
    {
        &self.id
    }

    pub fn get_name(&self) -> (r: &String)
        ensures
            *r == self.name,
    {
        &self.name
    }

    pub fn get_schema_id(&self) -> (r: &URL)
        ensures
            *r == self.schema_id,
    {
        &self.schema_id
    }
}

} // verus!
