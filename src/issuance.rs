use vstd::prelude::*;
use crate::crypto::{ecdsa_signature_of, proof_digest, MyEcdsaSecp256k1, ProofOptions};
use crate::error::UserError;
use crate::model::{Credential, CredentialSchema, CredentialSchemaLink, Issuer, VerifiableCredential, VerificationMethod};
use crate::time::{parse_rfc3339, rfc3339_seconds};
use crate::tree::{claim_props_wf, ClaimProperty};
use crate::url::URL;

verus! {

/// What a caller asks to be issued. Timestamps are RFC 3339 text.
pub struct NewCredentialRequest {
    pub context: Vec<String>,
    pub credential_id: String,
    pub type_: Vec<String>,
    pub issuer_id: String,
    pub valid_from: String,
    pub valid_until: String,
    pub credential_subject: Vec<(String, ClaimProperty)>,
    pub credential_schema_ids: Vec<String>,
}

/// The identifiers hold the strings, one for one.
pub open spec fn urls_of(urls: Seq<URL>, strings: Seq<String>) -> bool {
    &&& urls.len() == strings.len()
    &&& forall|i: int| 0 <= i < urls.len() ==> (#[trigger] urls[i])@ == strings[i]@
}

/// The link references the schema that was found.
pub open spec fn link_to(link: CredentialSchemaLink, schema: Option<CredentialSchema>) -> bool {
    &&& schema is Some
    &&& link.id@ == schema->0.id@
    &&& link.type_@ == schema->0.type_@
}

/// The links reference the schemas, one for one.
pub open spec fn links_of(links: Seq<CredentialSchemaLink>, schemas: Seq<Option<CredentialSchema>>) -> bool {
    &&& links.len() == schemas.len()
    &&& forall|i: int| 0 <= i < links.len() ==> link_to(#[trigger] links[i], schemas[i])
}

/// Every requested schema was found.
pub open spec fn all_found(schemas: Seq<Option<CredentialSchema>>) -> bool {
    forall|i: int| 0 <= i < schemas.len() ==> (#[trigger] schemas[i]) is Some
}

/// The credential that `req` describes, with its validity window given.
pub open spec fn describes(
    c: Credential,
    req: NewCredentialRequest,
    valid_from: i64,
    valid_until: i64,
    schemas: Seq<Option<CredentialSchema>>,
) -> bool {
    &&& urls_of(c.context@, req.context@)
    &&& c.id@ == req.credential_id@
    &&& urls_of(c.type_@, req.type_@)
    &&& c.issuer@ == req.issuer_id@
    &&& c.valid_from == valid_from
    &&& c.valid_until == valid_until
    &&& c.credential_subject == req.credential_subject
    &&& links_of(c.credential_schema@, schemas)
    &&& c.refresh_service@.len() == 0
    &&& c.terms_of_use@.len() == 0
    &&& c.evidence@.len() == 0
}

fn parse_urls(strings: &Vec<String>) -> (r: Vec<URL>)
    ensures
        urls_of(r@, strings@),
{
    let mut urls: Vec<URL> = Vec::new();
    let mut i: usize = 0;
    while i < strings.len()
        invariant
            i <= strings@.len(),
            urls@.len() == i,
            forall|k: int| 0 <= k < i ==> (#[trigger] urls@[k])@ == strings@[k]@,
        decreases strings.len() - i,
    {
        match URL::new(strings[i].as_str()) {
            Ok(u) => urls.push(u),
            Err(_) => vstd::pervasive::unreached(),
        }
        i = i + 1;
    }
    urls
}

/// Assembles the credential of a request, given the issuer and the schemas
/// that were looked up for it and the request's timestamps read as seconds
/// (`None` where one did not parse). A missing issuer or schema, an
/// unreadable timestamp or a window that ends before it starts is a bad
/// request; an issuer without verification methods cannot sign, which is an
/// internal error. Otherwise the credential comes with the issuer's first
/// verification method, which is to sign it.
pub fn build_credential_at(
    req: NewCredentialRequest,
    issuer: Option<Issuer>,
    schemas: &Vec<Option<CredentialSchema>>,
    valid_from: Option<i64>,
    valid_until: Option<i64>,
) -> (r: Result<(Credential, VerificationMethod), UserError>)
    requires
        claim_props_wf(req.credential_subject@),
    ensures
        (issuer is None || valid_from is None || valid_until is None || (valid_from is Some
            && valid_until is Some && valid_from->0 > valid_until->0) || !all_found(schemas@))
            ==> r == Err::<(Credential, VerificationMethod), UserError>(UserError::BadRequest),
        (issuer is Some && valid_from is Some && valid_until is Some && valid_from->0
            <= valid_until->0 && all_found(schemas@) && issuer->0.verification_methods@.len() == 0)
            ==> r == Err::<(Credential, VerificationMethod), UserError>(
            UserError::InternalServerError,
        ),
        r matches Ok((c, vm)) ==> {
            &&& issuer is Some && valid_from is Some && valid_until is Some
            &&& describes(c, req, valid_from->0, valid_until->0, schemas@)
            &&& c.wf()
            &&& issuer->0.verification_methods@.len() > 0
            &&& vm == issuer->0.verification_methods@[0]
        },
        (issuer is Some && valid_from is Some && valid_until is Some && valid_from->0
            <= valid_until->0 && all_found(schemas@) && issuer->0.verification_methods@.len() > 0)
            ==> r is Ok,
{
    let mut issuer = match issuer {
        Some(i) => i,
        None => {
            return Err(UserError::BadRequest);
        },
    };
    let (valid_from, valid_until) = match (valid_from, valid_until) {
        (Some(f), Some(u)) => (f, u),
        _ => {
            return Err(UserError::BadRequest);
        },
    };
    if valid_from > valid_until {
        return Err(UserError::BadRequest);
    }
    let mut credential_schema: Vec<CredentialSchemaLink> = Vec::new();
    let mut i: usize = 0;
    while i < schemas.len()
        invariant
            i <= schemas@.len(),
            credential_schema@.len() == i,
            forall|k: int| 0 <= k < i ==> link_to(#[trigger] credential_schema@[k], schemas@[k]),
        decreases schemas.len() - i,
    {
        let ghost before = credential_schema@;
        match &schemas[i] {
            Some(schema) => {
                credential_schema.push(schema.get_link());
            },
            None => {
                return Err(UserError::BadRequest);
            },
        }
        i = i + 1;
        proof {
            assert forall|k: int| 0 <= k < i implies link_to(#[trigger] credential_schema@[k], schemas@[k]) by {
                if k < i - 1 {
                    assert(credential_schema@[k] == before[k]);
                }
            }
        }
    }
    proof {
        assert forall|k: int| 0 <= k < schemas@.len() implies (#[trigger] schemas@[k]) is Some by {
            assert(link_to(credential_schema@[k], schemas@[k]));
        }
    }
    let context = parse_urls(&req.context);
    let type_ = parse_urls(&req.type_);
    let credential_id = match URL::new(req.credential_id.as_str()) {
        Ok(u) => u,
        Err(_) => vstd::pervasive::unreached(),
    };
    let issuer_id = match URL::new(req.issuer_id.as_str()) {
        Ok(u) => u,
        Err(_) => vstd::pervasive::unreached(),
    };
    if issuer.verification_methods.len() == 0 {
        return Err(UserError::InternalServerError);
    }
    let verification_method = issuer.verification_methods.remove(0);
    let credential = Credential::new(
        context,
        credential_id,
        type_,
        issuer_id,
        valid_from,
        valid_until,
        req.credential_subject,
        credential_schema,
    );
    Ok((credential, verification_method))
}

/// Assembles the credential of a request, reading its timestamps as RFC 3339.
pub fn build_credential(
    req: NewCredentialRequest,
    issuer: Option<Issuer>,
    schemas: &Vec<Option<CredentialSchema>>,
) -> (r: Result<(Credential, VerificationMethod), UserError>)
    requires
        claim_props_wf(req.credential_subject@),
    ensures
        r matches Ok((c, vm)) ==> {
            &&& issuer is Some
            &&& rfc3339_seconds(req.valid_from@) == Some(c.valid_from)
            &&& rfc3339_seconds(req.valid_until@) == Some(c.valid_until)
            &&& describes(c, req, c.valid_from, c.valid_until, schemas@)
            &&& c.wf()
            &&& vm == issuer->0.verification_methods@[0]
        },
        (issuer is None || rfc3339_seconds(req.valid_from@) is None || rfc3339_seconds(
            req.valid_until@,
        ) is None || !all_found(schemas@)) ==> r == Err::<
            (Credential, VerificationMethod),
            UserError,
        >(UserError::BadRequest),
        rfc3339_seconds(req.valid_from@) matches Some(f) ==> (rfc3339_seconds(
            req.valid_until@,
        ) matches Some(u) ==> {
            &&& f > u ==> r == Err::<(Credential, VerificationMethod), UserError>(
                UserError::BadRequest,
            )
            &&& (issuer is Some && f <= u && all_found(schemas@)
                && issuer->0.verification_methods@.len() == 0) ==> r == Err::<
                (Credential, VerificationMethod),
                UserError,
            >(UserError::InternalServerError)
            &&& (issuer is Some && f <= u && all_found(schemas@)
                && issuer->0.verification_methods@.len() > 0) ==> r is Ok
        }),
{
    let valid_from = parse_rfc3339(req.valid_from.as_str());
    let valid_until = parse_rfc3339(req.valid_until.as_str());
    build_credential_at(req, issuer, schemas, valid_from, valid_until)
}

/// Signs an assembled credential with the stored key of its verification
/// method at instant `created`. A missing key is a bad request; key bytes
/// that make no signing key are an internal error.
pub fn sign_credential(
    credential: Credential,
    verification_method: VerificationMethod,
    signing_key: Option<Vec<u8>>,
    created: i64,
) -> (r: Result<VerifiableCredential, UserError>)
    ensures
        signing_key is None ==> r == Err::<VerifiableCredential, UserError>(UserError::BadRequest),
        signing_key matches Some(k) ==> (ecdsa_signature_of(k@, proof_digest(credential)) is None
            ==> r == Err::<VerifiableCredential, UserError>(UserError::InternalServerError)),
        signing_key matches Some(k) ==> (ecdsa_signature_of(k@, proof_digest(credential)) matches Some(
            sig,
        ) ==> (r matches Ok(vc) && {
            &&& vc.credential == credential
            &&& vc.proof@.len() == 1
            &&& vc.proof@[0].proof_value@ == sig
            &&& vc.proof@[0].proof_value@.len() == 64
            &&& vc.proof@[0].type_@ == "MyEcdsaSecp256k1Signature"@
            &&& vc.proof@[0].created == created
            &&& vc.proof@[0].verification_method@ == verification_method.id@
            &&& vc.proof@[0].proof_purpose@ == "Proof Purpose"@
        })),
{
    let signing_key = match signing_key {
        Some(k) => k,
        None => {
            return Err(UserError::BadRequest);
        },
    };
    let cryptographic_suite = MyEcdsaSecp256k1::new();
    let proof_options = ProofOptions::new(
        verification_method,
        "Proof Purpose".to_string(),
        created,
        "Proof Domain".to_string(),
        "Proof Challenge".to_string(),
    );
    match cryptographic_suite.generate_proof(&credential, signing_key.as_slice(), &proof_options) {
        Ok(proof) => {
            let mut proofs: Vec<crate::model::Proof> = Vec::new();
            proofs.push(proof);
            Ok(VerifiableCredential::new(credential, proofs))
        },
        Err(_) => Err(UserError::InternalServerError),
    }
}

} // verus!
