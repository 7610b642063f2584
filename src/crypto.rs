use vstd::prelude::*;
use crate::canonical::{credential_bytes, credential_json};
use crate::model::{Credential, Proof, VerificationMethod};
use crate::url::URL;
use k256::ecdsa::signature::{Signer, Verifier};

verus! {

/// The BLAKE3 digest of a byte string.
pub uninterp spec fn blake3_of(data: Seq<u8>) -> Seq<u8>;

/// The deterministic (RFC 6979) secp256k1 ECDSA signature of a message under
/// a raw secret scalar, as 64 bytes `r || s`; `None` where the bytes are no
/// valid secret key.
pub uninterp spec fn ecdsa_signature_of(key: Seq<u8>, msg: Seq<u8>) -> Option<Seq<u8>>;

/// Whether bytes decode as a fixed-width `r || s` signature.
pub uninterp spec fn signature_accepted(sig: Seq<u8>) -> bool;

/// Whether bytes decode as a SEC1-encoded secp256k1 public key.
pub uninterp spec fn public_key_accepted(key: Seq<u8>) -> bool;

/// Whether a signature verifies for a message under a public key.
pub uninterp spec fn ecdsa_verifies(key: Seq<u8>, msg: Seq<u8>, sig: Seq<u8>) -> bool;

/// `secret` is a signing key whose public key is `public`: it signs every
/// message, `public` decodes, and each of its signatures is 64 bytes, decodes,
/// and verifies under `public`.
pub open spec fn key_pair_matches(secret: Seq<u8>, public: Seq<u8>) -> bool {
    &&& public_key_accepted(public)
    &&& forall|m: Seq<u8>|
        #[trigger] ecdsa_signature_of(secret, m) matches Some(sig) && (sig.len() == 64
            && signature_accepted(sig) && ecdsa_verifies(public, m, sig))
}

/// Relies on `blake3::hash`: the 32-byte digest of the input.
#[verifier::external_body]
fn blake3_hash(data: &[u8]) -> (r: Vec<u8>)
    ensures
        r@ == blake3_of(data@),
        r@.len() == 32,
{
    blake3::hash(data).as_bytes().to_vec()
}

/// Relies on k256's `SigningKey::from_slice`, `Signer::sign` and
/// `Signature::to_vec`: a key from raw scalar bytes, and its deterministic
/// signature of the message, 64 bytes long, whose `r` and `s` are non-zero
/// scalars, so that `Signature::from_slice` takes it back.
#[verifier::external_body]
pub(crate) fn ecdsa_sign(key: &[u8], msg: &[u8]) -> (r: Option<Vec<u8>>)
    ensures
        r matches Some(s) ==> ecdsa_signature_of(key@, msg@) == Some(s@) && s@.len() == 64
            && signature_accepted(s@),
        r is None ==> ecdsa_signature_of(key@, msg@) is None,
{
    match k256::ecdsa::SigningKey::from_slice(key) {
        Ok(signing_key) => {
            let signature: k256::ecdsa::Signature = signing_key.sign(msg);
            Some(signature.to_vec())
        },
        Err(_) => None,
    }
}

/// Relies on k256's `Signature::from_slice`, which refuses any length but 64.
#[verifier::external_body]
fn is_signature_encoding(sig: &[u8]) -> (r: bool)
    ensures
        r == signature_accepted(sig@),
        sig@.len() != 64 ==> !r,
{
    k256::ecdsa::Signature::from_slice(sig).is_ok()
}

/// Relies on k256's `VerifyingKey::from_sec1_bytes`.
#[verifier::external_body]
fn is_public_key_encoding(key: &[u8]) -> (r: bool)
    ensures
        r == public_key_accepted(key@),
{
    k256::ecdsa::VerifyingKey::from_sec1_bytes(key).is_ok()
}

/// Relies on k256's `Verifier::verify` for a decoded key and signature.
#[verifier::external_body]
fn ecdsa_verify(key: &[u8], msg: &[u8], sig: &[u8]) -> (r: bool)
    requires
        public_key_accepted(key@),
        signature_accepted(sig@),
    ensures
        r == ecdsa_verifies(key@, msg@, sig@),
{
    match (k256::ecdsa::VerifyingKey::from_sec1_bytes(key), k256::ecdsa::Signature::from_slice(sig)) {
        (Ok(public_key), Ok(signature)) => public_key.verify(msg, &signature).is_ok(),
        _ => false,
    }
}

/// Relies on k256's `SigningKey::random` over `rand_core::OsRng` (a non-zero
/// scalar), `SigningKey::to_bytes` (its 32 bytes, which `from_slice` takes
/// back) and `to_sec1_bytes` of its verifying key (a compressed point of 33
/// bytes, which `from_sec1_bytes` takes back); ECDSA signatures made with the
/// scalar verify under that point.
#[verifier::external_body]
fn random_key_pair() -> (r: (Vec<u8>, Vec<u8>))
    ensures
        r.0@.len() == 32,
        r.1@.len() == 33,
        key_pair_matches(r.0@, r.1@),
{
    let signing_key = k256::ecdsa::SigningKey::random(&mut rand_core::OsRng);
    let public_key = k256::ecdsa::VerifyingKey::from(&signing_key).to_sec1_bytes();
    (signing_key.to_bytes().to_vec(), public_key.to_vec())
}

/// A fresh signing key and its public key: 32 secret bytes, which only the
/// key vault keeps, and the 33-byte SEC1 public key, under which the
/// secret's signatures verify.
pub fn create_key_pair() -> (r: (Vec<u8>, Vec<u8>))
    ensures
        r.0@.len() == 32,
        r.1@.len() == 33,
        key_pair_matches(r.0@, r.1@),
{
    random_key_pair()
}

/// The options of a proof: who signs, for what purpose, and when.
pub struct ProofOptions {
    pub verification_method: VerificationMethod,
    pub proof_purpose: String,
    pub created: i64,
    pub domain: String,
    pub challenge: String,
}

impl ProofOptions {
    pub fn new(
        verification_method: VerificationMethod,
        proof_purpose: String,
        created: i64,
        domain: String,
        challenge: String,
    ) -> (r: Self)
        ensures
            r.verification_method == verification_method,
            r.proof_purpose == proof_purpose,
            r.created == created,
            r.domain == domain,
            r.challenge == challenge,
    {
        ProofOptions { verification_method, proof_purpose, created, domain, challenge }
    }
}

/// Why a proof could not be made.
#[derive(PartialEq, Eq, Structural, Debug)]
pub enum ProofGenerationError {
    Error,
}

/// Why a proof could not be checked.
#[derive(PartialEq, Eq, Structural, Debug)]
pub enum ProofVerificationError {
    MismatchedProofPurposeError,
    BadTransformationError,
    BadHashingError,
    MalformedProofError,
    InvalidPublicKeyError,
}

impl ProofVerificationError {
    /// A one-line description of the error.
    pub fn message(&self) -> (r: &'static str) {
        match self {
            ProofVerificationError::MismatchedProofPurposeError => "Mismatched proof purpose.",
            ProofVerificationError::BadTransformationError => "Bad transformation.",
            ProofVerificationError::BadHashingError => "Bad hashing.",
            ProofVerificationError::MalformedProofError => "Malformed proof.",
            ProofVerificationError::InvalidPublicKeyError => "Invalid public key.",
        }
    }
}

/// The digest that a proof of the credential signs: BLAKE3 of its canonical
/// bytes.
pub open spec fn proof_digest(c: Credential) -> Seq<u8> {
    blake3_of(credential_json(c))
}

/// `p` is the proof that signing `c` with `key` under `options` gives.
pub open spec fn is_generated_proof(
    c: Credential,
    key: Seq<u8>,
    options: ProofOptions,
    suite_type: Seq<char>,
    p: Proof,
) -> bool {
    &&& ecdsa_signature_of(key, proof_digest(c)) == Some(p.proof_value@)
    &&& p.proof_value@.len() == 64
    &&& p.type_@ == suite_type
    &&& p.created == options.created
    &&& p.verification_method@ == options.verification_method.id@
    &&& p.proof_purpose@ == options.proof_purpose@
}

/// What checking proof `p` of `c` under public key `key` gives: the purpose
/// is compared first, then the signature and the key are decoded, then the
/// signature is checked against the credential's digest.
pub open spec fn verify_outcome(
    c: Credential,
    p: Proof,
    key: Seq<u8>,
    options: ProofOptions,
) -> Result<bool, ProofVerificationError> {
    if p.proof_purpose@ != options.proof_purpose@ {
        Err(ProofVerificationError::MismatchedProofPurposeError)
    } else if !signature_accepted(p.proof_value@) {
        Err(ProofVerificationError::MalformedProofError)
    } else if !public_key_accepted(key) {
        Err(ProofVerificationError::InvalidPublicKeyError)
    } else {
        Ok(ecdsa_verifies(key, proof_digest(c), p.proof_value@))
    }
}

/// The ECDSA secp256k1 cryptographic suite: canonical JSON, BLAKE3, ECDSA.
pub struct MyEcdsaSecp256k1 {
    pub id: URL,
    pub type_: String,
}

impl MyEcdsaSecp256k1 {
    pub fn new() -> (r: Self)
        ensures
            r.id@ == "https://w3id.org/security#proof-ecdsa-secp256k1-2021"@,
            r.type_@ == "MyEcdsaSecp256k1Signature"@,
    {
        match URL::new("https://w3id.org/security#proof-ecdsa-secp256k1-2021") {
            Ok(id) => MyEcdsaSecp256k1 { id, type_: "MyEcdsaSecp256k1Signature".to_string() },
            Err(_) => vstd::pervasive::unreached(),
        }
    }

    pub fn get_id(&self) -> (r: &URL)
        ensures
            *r == self.id,
    {
        &self.id
    }

    pub fn get_type(&self) -> (r: &String)
        ensures
            *r == self.type_,
    {
        &self.type_
    }

    /// The canonical bytes of the credential.
    pub fn transform(&self, data: &Credential, options: &ProofOptions) -> (r: Result<
        Vec<u8>,
        ProofGenerationError,
    >)
        ensures
            r matches Ok(b) && b@ == credential_json(*data),
    {
        Ok(credential_bytes(data))
    }

    /// The BLAKE3 digest of transformed data.
    pub fn hash(&self, transformed_data: &[u8], options: &ProofOptions) -> (r: Result<
        Vec<u8>,
        ProofGenerationError,
    >)
        ensures
            r matches Ok(h) && h@ == blake3_of(transformed_data@),
    {
        Ok(blake3_hash(transformed_data))
    }

    /// Signs a digest with a raw secret key, giving a proof that carries the
    /// suite's type and the options' time, verification method and purpose.
    pub fn prove(&self, hash_data: &[u8], proving_key: &[u8], options: &ProofOptions) -> (r: Result<
        Proof,
        ProofGenerationError,
    >)
        ensures
            ecdsa_signature_of(proving_key@, hash_data@) is None ==> r == Err::<
                Proof,
                ProofGenerationError,
            >(ProofGenerationError::Error),
            ecdsa_signature_of(proving_key@, hash_data@) matches Some(sig) ==> (r matches Ok(p) && {
                &&& p.proof_value@ == sig
                &&& p.proof_value@.len() == 64
                &&& p.type_@ == self.type_@
                &&& p.created == options.created
                &&& p.verification_method@ == options.verification_method.id@
                &&& p.proof_purpose@ == options.proof_purpose@
            }),
    {
        match ecdsa_sign(proving_key, hash_data) {
            Some(proof_value) => Ok(
                Proof::new(
                    self.type_.clone(),
                    options.created,
                    options.verification_method.id.duplicate(),
                    options.proof_purpose.clone(),
                    proof_value,
                ),
            ),
            None => Err(ProofGenerationError::Error),
        }
    }

    /// Transforms, hashes and signs a credential.
    pub fn generate_proof(&self, data: &Credential, proving_key: &[u8], options: &ProofOptions) -> (r:
        Result<Proof, ProofGenerationError>)
        ensures
            ecdsa_signature_of(proving_key@, proof_digest(*data)) is None ==> r is Err,
            ecdsa_signature_of(proving_key@, proof_digest(*data)) is Some ==> (r matches Ok(p)
                && is_generated_proof(*data, proving_key@, *options, self.type_@, p)),
    {
        let transformed_data = self.transform(data, options)?;
        let hash_data = self.hash(transformed_data.as_slice(), options)?;
        self.prove(hash_data.as_slice(), proving_key, options)
    }

    /// Checks a proof of a credential under a SEC1 public key.
    pub fn verify_proof(
        &self,
        data: &Credential,
        proof: &Proof,
        verifying_key: &[u8],
        options: &ProofOptions,
    ) -> (r: Result<bool, ProofVerificationError>)
        ensures
            r == verify_outcome(*data, *proof, verifying_key@, *options),
    {
        if proof.proof_purpose != options.proof_purpose {
            return Err(ProofVerificationError::MismatchedProofPurposeError);
        }
        let transformed_data = match self.transform(data, options) {
            Ok(t) => t,
            Err(_) => {
                return Err(ProofVerificationError::BadTransformationError);
            },
        };
        let hash_data = match self.hash(transformed_data.as_slice(), options) {
            Ok(h) => h,
            Err(_) => {
                return Err(ProofVerificationError::BadHashingError);
            },
        };
        if !is_signature_encoding(proof.proof_value.as_slice()) {
            return Err(ProofVerificationError::MalformedProofError);
        }
        if !is_public_key_encoding(verifying_key) {
            return Err(ProofVerificationError::InvalidPublicKeyError);
        }
        Ok(ecdsa_verify(verifying_key, hash_data.as_slice(), proof.proof_value.as_slice()))
    }
}

/// A proof made under one purpose is refused, with `MismatchedProofPurposeError`,
/// by a check that assumes another purpose, whatever the key.
pub proof fn lemma_purpose_binding(
    c: Credential,
    signing_key: Seq<u8>,
    signed_with: ProofOptions,
    suite_type: Seq<char>,
    p: Proof,
    public_key: Seq<u8>,
    checked_with: ProofOptions,
)
    requires
        is_generated_proof(c, signing_key, signed_with, suite_type, p),
        checked_with.proof_purpose@ != signed_with.proof_purpose@,
    ensures
        verify_outcome(c, p, public_key, checked_with) == Err::<bool, ProofVerificationError>(
            ProofVerificationError::MismatchedProofPurposeError,
        ),
{
}

/// Checking a proof under the purpose it was made for checks the signature it
/// carries against the very digest that was signed: the outcome is the
/// signature scheme's verdict on that digest and signature.
pub proof fn lemma_check_uses_signed_digest(
    c: Credential,
    signing_key: Seq<u8>,
    options: ProofOptions,
    suite_type: Seq<char>,
    p: Proof,
    public_key: Seq<u8>,
)
    requires
        is_generated_proof(c, signing_key, options, suite_type, p),
        signature_accepted(p.proof_value@),
        public_key_accepted(public_key),
    ensures
        ecdsa_signature_of(signing_key, proof_digest(c)) matches Some(sig) && verify_outcome(
            c,
            p,
            public_key,
            options,
        ) == Ok::<bool, ProofVerificationError>(ecdsa_verifies(public_key, proof_digest(c), sig)),
{
}

/// A proof made with a freshly generated signing key verifies under its
/// public key when checked with the purpose it was made for.
pub proof fn lemma_fresh_key_proof_verifies(
    c: Credential,
    secret: Seq<u8>,
    public: Seq<u8>,
    signed_with: ProofOptions,
    suite_type: Seq<char>,
    p: Proof,
    checked_with: ProofOptions,
)
    requires
        key_pair_matches(secret, public),
        is_generated_proof(c, secret, signed_with, suite_type, p),
        checked_with.proof_purpose@ == signed_with.proof_purpose@,
    ensures
        verify_outcome(c, p, public, checked_with) == Ok::<bool, ProofVerificationError>(true),
{
    assert(ecdsa_signature_of(secret, proof_digest(c)) == Some(p.proof_value@));
}

} // verus!
