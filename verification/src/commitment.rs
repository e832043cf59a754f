use vstd::prelude::*;
use vstd::string::StringSliceAdditionalSpecFns;
use sha2::Digest;
use crate::error::CustomError;
use crate::pubkey::bytes_equal;

verus! {

/// The SHA-256 digest of a byte string.
pub uninterp spec fn sha256_digest(bytes: Seq<u8>) -> Seq<u8>;

/// Runs `sha2::Sha256` over `bytes` (`new`, `update`, `finalize`) and hands
/// back the 32 bytes of the digest: a function of the bytes alone.
#[verifier::external_body]
fn sha256(bytes: &[u8]) -> (digest: [u8; 32])
    ensures
        digest@ == sha256_digest(bytes@),
{
    let mut hasher = sha2::Sha256::new();
    hasher.update(bytes);
    hasher.finalize().into()
}

/// The commitment to a secret: its SHA-256 digest.
pub fn commit(secret: &[u8]) -> (commitment: [u8; 32])
    ensures
        commitment@ == sha256_digest(secret@),
{
    sha256(secret)
}

/// Whether a digest opens a commitment: only the commitment itself does.
pub open spec fn digest_verdict(commitment: Seq<u8>, digest: Seq<u8>) -> Result<(), CustomError> {
    if digest == commitment {
        Ok(())
    } else {
        Err(CustomError::InvalidSecret)
    }
}

/// Compares the digest of an offered secret with a commitment, byte by byte.
pub fn check_digest(commitment: &[u8; 32], provided_hash: &[u8; 32]) -> (done: Result<
    (),
    CustomError,
>)
    ensures
        done == digest_verdict(commitment@, provided_hash@),
{
    if bytes_equal(provided_hash, commitment) {
        Ok(())
    } else {
        Err(CustomError::InvalidSecret)
    }
}

/// Hashes the bytes of an offered secret and compares the digest with a
/// commitment.
pub fn check_secret(commitment: &[u8; 32], secret: &str) -> (done: Result<(), CustomError>)
    ensures
        done == digest_verdict(commitment@, sha256_digest(secret.spec_bytes())),
{
    let provided_hash = commit(secret.as_bytes());
    check_digest(commitment, &provided_hash)
}

} // verus!
