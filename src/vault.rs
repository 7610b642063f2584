use vstd::prelude::*;
use crate::crypto::{ecdsa_sign, ecdsa_signature_of};

verus! {

/// The column family of the key vault that holds signing keys.
pub const ISSUER_SIGNING_KEY_CF_PATH: &'static str = "signing_key";

/// Why the key vault could not sign.
#[derive(PartialEq, Eq, Structural, Debug, Clone, Copy)]
pub enum VaultError {
    UnknownKey,
    InvalidKeyMaterial,
}

/// Signs a digest with the key stored for a verification method, given what
/// the vault holds under its identifier.
pub fn sign_with(stored: Option<&Vec<u8>>, digest: &[u8]) -> (r: Result<Vec<u8>, VaultError>)
    ensures
        stored is None ==> r == Err::<Vec<u8>, VaultError>(VaultError::UnknownKey),
        stored matches Some(k) ==> match ecdsa_signature_of(k@, digest@) {
            Some(sig) => r matches Ok(s) && s@ == sig,
            None => r == Err::<Vec<u8>, VaultError>(VaultError::InvalidKeyMaterial),
        },
{
    match stored {
        None => Err(VaultError::UnknownKey),
        Some(key) => match ecdsa_sign(key.as_slice(), digest) {
            Some(sig) => Ok(sig),
            None => Err(VaultError::InvalidKeyMaterial),
        },
    }
}

} // verus!
