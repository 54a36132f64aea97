//! A host-side interface that selects the variant by name and returns owned
//! keys, ciphertexts, secrets and signatures.
//!
//! Each family has its own entry points; a name outside the family is
//! `InvalidInput`. Output buffers are allocated at the lengths of the
//! variant's descriptor, so only the caller's inputs can be refused.
use vstd::prelude::*;

use crate::descriptor::{KemVariant, SignVariant};
use crate::dispatch::{
    falcon_from_name, falcon_named, kem_named, sign_named, hqc_from_name, hqc_named, mldsa_from_name, mldsa_named,
    mlkem_from_name, mlkem_named,
};
use crate::error::Error;
use crate::kem::{
    encapsulates_to, holds_public_key, kem_available, kem_decapsulate_outcome,
    kem_encapsulate_outcome, kem_key_pair, kem_shared_secret,
};
use crate::kat::same_bytes;
use crate::laws::lemma_sign_then_verify;
use crate::sign::{
    keys_share_seed, sign_key_pair, sign_outcome, signed_by, signs_with, verify_outcome,
};

verus! {

/// What generating an owned key pair `(secret key, public key)` gives.
pub open spec fn kem_keygen_result(v: KemVariant, r: Result<(Vec<u8>, Vec<u8>), Error>) -> bool {
    let d = v.spec_descriptor();
    match r {
        Ok(keys) => {
            &&& kem_available(v)
            &&& keys.0@.len() == d.secret_key_len
            &&& keys.1@.len() == d.public_key_len
            &&& holds_public_key(v, keys.1@, keys.0@)
            &&& kem_key_pair(v, keys.1@, keys.0@)
        },
        Err(e) => !kem_available(v) && e == Error::UnsupportedOperation,
    }
}

/// What an owned encapsulation `(shared secret, ciphertext)` to `pk` gives:
/// on success, a ciphertext that carries the secret to `pk`.
pub open spec fn kem_encapsulate_result(v: KemVariant, pk: Seq<u8>, r: Result<(Vec<u8>, Vec<u8>), Error>) -> bool {
    let d = v.spec_descriptor();
    let o = kem_encapsulate_outcome(v, d.ciphertext_len as int, d.shared_secret_len as int, pk.len() as int);
    match r {
        Ok(out) => {
            &&& o is Ok
            &&& out.0@.len() == d.shared_secret_len
            &&& out.1@.len() == d.ciphertext_len
            &&& encapsulates_to(v, pk, out.1@, out.0@)
        },
        Err(e) => o == Err::<(), Error>(e),
    }
}

/// What an owned decapsulation of `ct` with `sk` gives.
pub open spec fn kem_decapsulate_result(v: KemVariant, sk: Seq<u8>, ct: Seq<u8>, r: Result<Vec<u8>, Error>) -> bool {
    let d = v.spec_descriptor();
    let o = kem_decapsulate_outcome(v, d.shared_secret_len as int, ct.len() as int, sk.len() as int);
    match r {
        Ok(ss) => o is Ok && ss@ == kem_shared_secret(v, ct, sk),
        Err(e) => o == Err::<(), Error>(e),
    }
}

/// What generating an owned signature key pair `(secret key, public key)`
/// gives: it always succeeds, with a pair the signer can use.
pub open spec fn sign_keygen_result(v: SignVariant, r: Result<(Vec<u8>, Vec<u8>), Error>) -> bool {
    let d = v.spec_descriptor();
    match r {
        Ok(keys) => {
            &&& keys.0@.len() == d.secret_key_len
            &&& keys.1@.len() == d.public_key_len
            &&& keys_share_seed(v, keys.1@, keys.0@)
            &&& sign_key_pair(v, keys.1@, keys.0@)
            &&& signs_with(v, keys.0@)
        },
        Err(_) => false,
    }
}

/// What an owned signature of `msg` with `sk` gives: the same as signing
/// into a buffer of the largest signature length, cut to the signature.
pub open spec fn sign_result(v: SignVariant, sk: Seq<u8>, msg: Seq<u8>, r: Result<Vec<u8>, Error>) -> bool {
    let o = sign_outcome(v, v.spec_descriptor().signature_len_max as int, sk);
    match r {
        Ok(sig) => o is Ok && sig@.len() == o->Ok_0 && signed_by(v, sig@, msg, sk),
        Err(e) => o == Err::<usize, Error>(e),
    }
}

fn kem_keygen_owned(v: KemVariant) -> (r: Result<(Vec<u8>, Vec<u8>), Error>)
    ensures
        kem_keygen_result(v, r),
{
    let d = v.descriptor();
    let mut pk = vec![0u8; d.public_key_len];
    let mut sk = vec![0u8; d.secret_key_len];
    match v.keypair(pk.as_mut_slice(), sk.as_mut_slice()) {
        Ok(()) => Ok((sk, pk)),
        Err(e) => Err(e),
    }
}

fn kem_encapsulate_owned(v: KemVariant, pk: &[u8]) -> (r: Result<(Vec<u8>, Vec<u8>), Error>)
    ensures
        kem_encapsulate_result(v, pk@, r),
{
    let d = v.descriptor();
    let mut ct = vec![0u8; d.ciphertext_len];
    let mut ss = vec![0u8; d.shared_secret_len];
    match v.encapsulate(ct.as_mut_slice(), ss.as_mut_slice(), pk) {
        Ok(()) => Ok((ss, ct)),
        Err(e) => Err(e),
    }
}

fn kem_decapsulate_owned(v: KemVariant, sk: &[u8], ct: &[u8]) -> (r: Result<Vec<u8>, Error>)
    ensures
        kem_decapsulate_result(v, sk@, ct@, r),
{
    let d = v.descriptor();
    let mut ss = vec![0u8; d.shared_secret_len];
    match v.decapsulate(ss.as_mut_slice(), ct, sk) {
        Ok(()) => Ok(ss),
        Err(e) => Err(e),
    }
}

fn sign_keygen_owned(v: SignVariant) -> (r: Result<(Vec<u8>, Vec<u8>), Error>)
    ensures
        sign_keygen_result(v, r),
{
    let d = v.descriptor();
    let mut pk = vec![0u8; d.public_key_len];
    let mut sk = vec![0u8; d.secret_key_len];
    match v.keypair(pk.as_mut_slice(), sk.as_mut_slice()) {
        Ok(()) => Ok((sk, pk)),
        Err(e) => Err(e),
    }
}

fn sign_owned(v: SignVariant, sk: &[u8], msg: &[u8]) -> (r: Result<Vec<u8>, Error>)
    requires
        signs_with(v, sk@),
    ensures
        sign_result(v, sk@, msg@, r),
{
    let d = v.descriptor();
    let mut sig = vec![0u8; d.signature_len_max];
    match v.sign(sig.as_mut_slice(), msg, sk) {
        Ok(n) => {
            sig.truncate(n);
            Ok(sig)
        },
        Err(e) => Err(e),
    }
}

/// The post-quantum operations of a host, selected by variant name.
pub struct PqcInterface;

impl PqcInterface {
    /// Prepares the interface; there is nothing to set up, so it succeeds.
    pub fn init() -> (r: Result<(), Error>)
        ensures
            r == Ok::<(), Error>(()),
    {
        Ok(())
    }

    /// Generates an ML-KEM key pair; returns `(secret key, public key)`.
    pub fn mlkem_keygen(algorithm: &str) -> (r: Result<(Vec<u8>, Vec<u8>), Error>)
        ensures
            match mlkem_named(algorithm@) {
                None => r == Err::<(Vec<u8>, Vec<u8>), Error>(Error::InvalidInput),
                Some(v) => kem_keygen_result(v, r),
            },
    {
        match mlkem_from_name(algorithm) {
            Some(v) => kem_keygen_owned(v),
            None => Err(Error::InvalidInput),
        }
    }

    /// Encapsulates to an ML-KEM public key; returns `(shared secret, ciphertext)`.
    pub fn mlkem_encapsulate(algorithm: &str, public_key: &[u8]) -> (r: Result<(Vec<u8>, Vec<u8>), Error>)
        ensures
            match mlkem_named(algorithm@) {
                None => r == Err::<(Vec<u8>, Vec<u8>), Error>(Error::InvalidInput),
                Some(v) => kem_encapsulate_result(v, public_key@, r),
            },
    {
        match mlkem_from_name(algorithm) {
            Some(v) => kem_encapsulate_owned(v, public_key),
            None => Err(Error::InvalidInput),
        }
    }

    /// Decapsulates an ML-KEM ciphertext; returns the shared secret.
    pub fn mlkem_decapsulate(algorithm: &str, secret_key: &[u8], ciphertext: &[u8]) -> (r: Result<Vec<u8>, Error>)
        ensures
            match mlkem_named(algorithm@) {
                None => r == Err::<Vec<u8>, Error>(Error::InvalidInput),
                Some(v) => kem_decapsulate_result(v, secret_key@, ciphertext@, r),
            },
    {
        match mlkem_from_name(algorithm) {
            Some(v) => kem_decapsulate_owned(v, secret_key, ciphertext),
            None => Err(Error::InvalidInput),
        }
    }

    /// Generates an ML-DSA key pair; returns `(secret key, public key)`.
    pub fn mldsa_keygen(algorithm: &str) -> (r: Result<(Vec<u8>, Vec<u8>), Error>)
        ensures
            match mldsa_named(algorithm@) {
                None => r == Err::<(Vec<u8>, Vec<u8>), Error>(Error::InvalidInput),
                Some(v) => sign_keygen_result(v, r),
            },
    {
        match mldsa_from_name(algorithm) {
            Some(v) => sign_keygen_owned(v),
            None => Err(Error::InvalidInput),
        }
    }

    /// Signs a message with an ML-DSA secret key; returns the signature.
    pub fn mldsa_sign(algorithm: &str, secret_key: &[u8], message: &[u8]) -> (r: Result<Vec<u8>, Error>)
        ensures
            match mldsa_named(algorithm@) {
                None => r == Err::<Vec<u8>, Error>(Error::InvalidInput),
                Some(v) => sign_result(v, secret_key@, message@, r),
            },
    {
        match mldsa_from_name(algorithm) {
            Some(v) => sign_owned(v, secret_key, message),
            None => Err(Error::InvalidInput),
        }
    }

    /// Verifies an ML-DSA signature on a message under a public key.
    pub fn mldsa_verify(algorithm: &str, public_key: &[u8], message: &[u8], signature: &[u8]) -> (r: Result<bool, Error>)
        ensures
            match mldsa_named(algorithm@) {
                None => r == Err::<bool, Error>(Error::InvalidInput),
                Some(v) => r == verify_outcome(v, signature@, message@, public_key@),
            },
    {
        match mldsa_from_name(algorithm) {
            Some(v) => v.verify(signature, message, public_key),
            None => Err(Error::InvalidInput),
        }
    }

    /// Generates an HQC key pair; returns `(secret key, public key)`.
    pub fn hqc_keygen(algorithm: &str) -> (r: Result<(Vec<u8>, Vec<u8>), Error>)
        ensures
            match hqc_named(algorithm@) {
                None => r == Err::<(Vec<u8>, Vec<u8>), Error>(Error::InvalidInput),
                Some(v) => kem_keygen_result(v, r),
            },
    {
        match hqc_from_name(algorithm) {
            Some(v) => kem_keygen_owned(v),
            None => Err(Error::InvalidInput),
        }
    }

    /// Encapsulates to an HQC public key; returns `(shared secret, ciphertext)`.
    pub fn hqc_encapsulate(algorithm: &str, public_key: &[u8]) -> (r: Result<(Vec<u8>, Vec<u8>), Error>)
        ensures
            match hqc_named(algorithm@) {
                None => r == Err::<(Vec<u8>, Vec<u8>), Error>(Error::InvalidInput),
                Some(v) => kem_encapsulate_result(v, public_key@, r),
            },
    {
        match hqc_from_name(algorithm) {
            Some(v) => kem_encapsulate_owned(v, public_key),
            None => Err(Error::InvalidInput),
        }
    }

    /// Decapsulates an HQC ciphertext; returns the shared secret.
    pub fn hqc_decapsulate(algorithm: &str, secret_key: &[u8], ciphertext: &[u8]) -> (r: Result<Vec<u8>, Error>)
        ensures
            match hqc_named(algorithm@) {
                None => r == Err::<Vec<u8>, Error>(Error::InvalidInput),
                Some(v) => kem_decapsulate_result(v, secret_key@, ciphertext@, r),
            },
    {
        match hqc_from_name(algorithm) {
            Some(v) => kem_decapsulate_owned(v, secret_key, ciphertext),
            None => Err(Error::InvalidInput),
        }
    }

    /// Generates a Falcon key pair; returns `(secret key, public key)`.
    pub fn falcon_keygen(algorithm: &str) -> (r: Result<(Vec<u8>, Vec<u8>), Error>)
        ensures
            match falcon_named(algorithm@) {
                None => r == Err::<(Vec<u8>, Vec<u8>), Error>(Error::InvalidInput),
                Some(v) => sign_keygen_result(v, r),
            },
    {
        match falcon_from_name(algorithm) {
            Some(v) => sign_keygen_owned(v),
            None => Err(Error::InvalidInput),
        }
    }

    /// Signs a message with a Falcon secret key; returns the signature.
    pub fn falcon_sign(algorithm: &str, secret_key: &[u8], message: &[u8]) -> (r: Result<Vec<u8>, Error>)
        requires
            falcon_named(algorithm@) is Some ==> signs_with(falcon_named(algorithm@)->0, secret_key@),
        ensures
            match falcon_named(algorithm@) {
                None => r == Err::<Vec<u8>, Error>(Error::InvalidInput),
                Some(v) => sign_result(v, secret_key@, message@, r),
            },
    {
        match falcon_from_name(algorithm) {
            Some(v) => sign_owned(v, secret_key, message),
            None => Err(Error::InvalidInput),
        }
    }

    /// Verifies a Falcon signature on a message under a public key.
    pub fn falcon_verify(algorithm: &str, public_key: &[u8], message: &[u8], signature: &[u8]) -> (r: Result<bool, Error>)
        ensures
            match falcon_named(algorithm@) {
                None => r == Err::<bool, Error>(Error::InvalidInput),
                Some(v) => r == verify_outcome(v, signature@, message@, public_key@),
            },
    {
        match falcon_from_name(algorithm) {
            Some(v) => v.verify(signature, message, public_key),
            None => Err(Error::InvalidInput),
        }
    }

    /// Checks the named key-encapsulation variant end to end: generates a
    /// key pair, encapsulates to its public key and decapsulates with its
    /// secret key. `Ok(true)` when both sides agree on the secret, which they
    /// do for every available variant.
    pub fn kem_self_test(algorithm: &str) -> (r: Result<bool, Error>)
        ensures
            match kem_named(algorithm@) {
                None => r == Err::<bool, Error>(Error::InvalidInput),
                Some(v) => r == if kem_available(v) {
                    Ok::<bool, Error>(true)
                } else {
                    Err::<bool, Error>(Error::UnsupportedOperation)
                },
            },
    {
        let v = match KemVariant::from_name(algorithm) {
            Some(v) => v,
            None => return Err(Error::InvalidInput),
        };
        let (sk, pk) = kem_keygen_owned(v)?;
        let (ss, ct) = kem_encapsulate_owned(v, pk.as_slice())?;
        let recovered = kem_decapsulate_owned(v, sk.as_slice(), ct.as_slice())?;
        Ok(same_bytes(recovered.as_slice(), ss.as_slice()))
    }

    /// Checks the named signature variant end to end: generates a key pair,
    /// signs `message` and verifies the signature under the public key.
    /// `Ok(true)` for every variant.
    pub fn sign_self_test(algorithm: &str, message: &[u8]) -> (r: Result<bool, Error>)
        ensures
            match sign_named(algorithm@) {
                None => r == Err::<bool, Error>(Error::InvalidInput),
                Some(_) => r == Ok::<bool, Error>(true),
            },
    {
        let v = match SignVariant::from_name(algorithm) {
            Some(v) => v,
            None => return Err(Error::InvalidInput),
        };
        let (sk, pk) = sign_keygen_owned(v)?;
        let sig = sign_owned(v, sk.as_slice(), message)?;
        proof {
            lemma_sign_then_verify(v, pk@, sk@, sig@, message@);
        }
        v.verify(sig.as_slice(), message, pk.as_slice())
    }
}

} // verus!
