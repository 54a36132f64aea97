//! The signature operations, one type per variant.
//!
//! Size policy: the public-key and secret-key buffers of a key pair must
//! have exactly the variant's lengths (else `BufferTooSmall`). A signature
//! buffer must hold at least the largest signature (else `BufferTooSmall`);
//! the signature goes to its front and its length is returned. A secret key
//! to sign with must have its exact length (else `InvalidInput`). A public
//! key to verify with must have its exact length, and a signature between
//! one byte and the largest signature (else `InvalidInput`).
//!
//! Verification answers `Ok(false)` for a well-formed but rejected
//! signature, so that rejection and malformed input stay apart.
//!
//! Falcon's signer loops forever on some secret keys of the right length,
//! so signing with Falcon asks for a key that key generation produced.
//!
//! Randomness: the backend draws its own entropy from the platform source
//! when it generates keys and signs; no caller source is consumed. Falcon
//! uses the padded encoding, whose signatures always have the largest length.
//! The backend aborts the process when the platform source fails, so these
//! operations never report `RngFailure`.
use vstd::prelude::*;

use crate::backend;
use crate::descriptor::{
    check_keypair, check_sign, check_verify, keypair_check, sign_check, verify_check, SignVariant,
};
use crate::error::Error;

verus! {

/// The result of a key-pair generation with buffers of these lengths.
pub open spec fn sign_keypair_outcome(v: SignVariant, pk_len: int, sk_len: int) -> Result<(), Error> {
    let d = v.spec_descriptor();
    keypair_check(pk_len, sk_len, d.public_key_len as int, d.secret_key_len as int)
}

/// The result of signing into a buffer of `sig_len` bytes with `sk`: the
/// checks' error, else the largest signature length (both encodings here
/// have fixed length).
pub open spec fn sign_outcome(v: SignVariant, sig_len: int, sk: Seq<u8>) -> Result<usize, Error> {
    let d = v.spec_descriptor();
    match sign_check(d, sig_len, sk.len() as int) {
        Err(e) => Err(e),
        Ok(_) => Ok(d.signature_len_max),
    }
}

/// Whether `pk` and `sk` were generated together as a key pair of `v`.
pub open spec fn sign_key_pair(v: SignVariant, pk: Seq<u8>, sk: Seq<u8>) -> bool {
    match v {
        SignVariant::MlDsa44 => backend::mldsa44_key_pair(pk, sk),
        SignVariant::MlDsa65 => backend::mldsa65_key_pair(pk, sk),
        SignVariant::MlDsa87 => backend::mldsa87_key_pair(pk, sk),
        SignVariant::Falcon512 => backend::falcon512_key_pair(pk, sk),
        SignVariant::Falcon1024 => backend::falcon1024_key_pair(pk, sk),
    }
}

/// Whether the variant's signer is known to return on `sk`. Falcon's signer
/// loops forever on some keys of the right length, so for Falcon such a key
/// must come from key generation; ML-DSA signs with any key.
pub open spec fn signs_with(v: SignVariant, sk: Seq<u8>) -> bool {
    match v {
        SignVariant::Falcon512 | SignVariant::Falcon1024 => sk.len() == v.spec_descriptor().secret_key_len
            ==> exists|pk: Seq<u8>| #[trigger] sign_key_pair(v, pk, sk),
        _ => true,
    }
}

/// ML-DSA keys both begin with the same 32-byte public seed.
pub open spec fn keys_share_seed(v: SignVariant, pk: Seq<u8>, sk: Seq<u8>) -> bool {
    match v {
        SignVariant::MlDsa44 | SignVariant::MlDsa65 | SignVariant::MlDsa87 => sk.subrange(0, 32)
            == pk.subrange(0, 32),
        _ => true,
    }
}

/// Whether the variant's verification accepts the signature.
pub open spec fn sig_accepts(v: SignVariant, sig: Seq<u8>, msg: Seq<u8>, pk: Seq<u8>) -> bool {
    match v {
        SignVariant::MlDsa44 => backend::mldsa44_accepts(sig, msg, pk),
        SignVariant::MlDsa65 => backend::mldsa65_accepts(sig, msg, pk),
        SignVariant::MlDsa87 => backend::mldsa87_accepts(sig, msg, pk),
        SignVariant::Falcon512 => backend::falcon512_accepts(sig, msg, pk),
        SignVariant::Falcon1024 => backend::falcon1024_accepts(sig, msg, pk),
    }
}

/// Whether `sig` is a signature on `msg` by `sk`: verification accepts it
/// under the public key generated together with `sk`.
pub open spec fn signed_by(v: SignVariant, sig: Seq<u8>, msg: Seq<u8>, sk: Seq<u8>) -> bool {
    forall|pk: Seq<u8>| #[trigger] sign_key_pair(v, pk, sk) ==> sig_accepts(v, sig, msg, pk)
}

/// The result of a verification.
pub open spec fn verify_outcome(v: SignVariant, sig: Seq<u8>, msg: Seq<u8>, pk: Seq<u8>) -> Result<bool, Error> {
    match verify_check(v.spec_descriptor(), sig.len() as int, pk.len() as int) {
        Err(e) => Err(e),
        Ok(_) => Ok(sig_accepts(v, sig, msg, pk)),
    }
}

/// ML-DSA-44.
pub struct MlDsa44;

impl MlDsa44 {
    /// Public key length in bytes.
    pub const PUBLIC_KEY_LEN: usize = 1312;
    /// Secret key length in bytes.
    pub const SECRET_KEY_LEN: usize = 2560;
    /// Maximum signature length in bytes.
    pub const SIGNATURE_LEN_MAX: usize = 2420;

    /// Generates an ML-DSA-44 key pair into `pk` (1312 bytes) and `sk` (2560 bytes).
    pub fn keypair(pk: &mut [u8], sk: &mut [u8]) -> (r: Result<(), Error>)
        ensures
            r == sign_keypair_outcome(SignVariant::MlDsa44, old(pk)@.len() as int, old(sk)@.len() as int),
            final(pk)@.len() == old(pk)@.len(),
            final(sk)@.len() == old(sk)@.len(),
            r is Err ==> (final(pk)@ == old(pk)@ && final(sk)@ == old(sk)@),
            r is Ok ==> keys_share_seed(SignVariant::MlDsa44, final(pk)@, final(sk)@),
            r is Ok ==> sign_key_pair(SignVariant::MlDsa44, final(pk)@, final(sk)@),
            r is Ok ==> signs_with(SignVariant::MlDsa44, final(sk)@),
    {
        let d = SignVariant::MlDsa44.descriptor();
        check_keypair(pk.len(), sk.len(), d.public_key_len, d.secret_key_len)?;
        backend::mldsa44_keypair(pk, sk);
        Ok(())
    }

    /// Signs `msg` with `sk` into the front of `sig` and returns the
    /// signature's length; the rest of `sig` is left as it was.
    pub fn sign(sig: &mut [u8], msg: &[u8], sk: &[u8]) -> (r: Result<usize, Error>)
        requires
            signs_with(SignVariant::MlDsa44, sk@),
        ensures
            r == sign_outcome(SignVariant::MlDsa44, old(sig)@.len() as int, sk@),
            final(sig)@.len() == old(sig)@.len(),
            r is Err ==> final(sig)@ == old(sig)@,
            r is Ok ==> final(sig)@.subrange(r->Ok_0 as int, final(sig)@.len() as int)
                == old(sig)@.subrange(r->Ok_0 as int, old(sig)@.len() as int),
            r is Ok ==> signed_by(SignVariant::MlDsa44, final(sig)@.subrange(0, r->Ok_0 as int), msg@, sk@),
    {
        check_sign(&SignVariant::MlDsa44.descriptor(), sig.len(), sk.len())?;
        match backend::mldsa44_sign(sig, msg, sk) {
            Some(n) => Ok(n),
            None => Err(Error::InvalidInput),
        }
    }

    /// Verifies the signature `sig` on `msg` under `pk`.
    pub fn verify(sig: &[u8], msg: &[u8], pk: &[u8]) -> (r: Result<bool, Error>)
        ensures
            r == verify_outcome(SignVariant::MlDsa44, sig@, msg@, pk@),
    {
        check_verify(&SignVariant::MlDsa44.descriptor(), sig.len(), pk.len())?;
        match backend::mldsa44_verify(sig, msg, pk) {
            Some(accepted) => Ok(accepted),
            None => Err(Error::InvalidInput),
        }
    }
}

/// ML-DSA-65.
pub struct MlDsa65;

impl MlDsa65 {
    /// Public key length in bytes.
    pub const PUBLIC_KEY_LEN: usize = 1952;
    /// Secret key length in bytes.
    pub const SECRET_KEY_LEN: usize = 4032;
    /// Maximum signature length in bytes.
    pub const SIGNATURE_LEN_MAX: usize = 3309;

    /// Generates an ML-DSA-65 key pair into `pk` (1952 bytes) and `sk` (4032 bytes).
    pub fn keypair(pk: &mut [u8], sk: &mut [u8]) -> (r: Result<(), Error>)
        ensures
            r == sign_keypair_outcome(SignVariant::MlDsa65, old(pk)@.len() as int, old(sk)@.len() as int),
            final(pk)@.len() == old(pk)@.len(),
            final(sk)@.len() == old(sk)@.len(),
            r is Err ==> (final(pk)@ == old(pk)@ && final(sk)@ == old(sk)@),
            r is Ok ==> keys_share_seed(SignVariant::MlDsa65, final(pk)@, final(sk)@),
            r is Ok ==> sign_key_pair(SignVariant::MlDsa65, final(pk)@, final(sk)@),
            r is Ok ==> signs_with(SignVariant::MlDsa65, final(sk)@),
    {
        let d = SignVariant::MlDsa65.descriptor();
        check_keypair(pk.len(), sk.len(), d.public_key_len, d.secret_key_len)?;
        backend::mldsa65_keypair(pk, sk);
        Ok(())
    }

    /// Signs `msg` with `sk` into the front of `sig` and returns the
    /// signature's length; the rest of `sig` is left as it was.
    pub fn sign(sig: &mut [u8], msg: &[u8], sk: &[u8]) -> (r: Result<usize, Error>)
        requires
            signs_with(SignVariant::MlDsa65, sk@),
        ensures
            r == sign_outcome(SignVariant::MlDsa65, old(sig)@.len() as int, sk@),
            final(sig)@.len() == old(sig)@.len(),
            r is Err ==> final(sig)@ == old(sig)@,
            r is Ok ==> final(sig)@.subrange(r->Ok_0 as int, final(sig)@.len() as int)
                == old(sig)@.subrange(r->Ok_0 as int, old(sig)@.len() as int),
            r is Ok ==> signed_by(SignVariant::MlDsa65, final(sig)@.subrange(0, r->Ok_0 as int), msg@, sk@),
    {
        check_sign(&SignVariant::MlDsa65.descriptor(), sig.len(), sk.len())?;
        match backend::mldsa65_sign(sig, msg, sk) {
            Some(n) => Ok(n),
            None => Err(Error::InvalidInput),
        }
    }

    /// Verifies the signature `sig` on `msg` under `pk`.
    pub fn verify(sig: &[u8], msg: &[u8], pk: &[u8]) -> (r: Result<bool, Error>)
        ensures
            r == verify_outcome(SignVariant::MlDsa65, sig@, msg@, pk@),
    {
        check_verify(&SignVariant::MlDsa65.descriptor(), sig.len(), pk.len())?;
        match backend::mldsa65_verify(sig, msg, pk) {
            Some(accepted) => Ok(accepted),
            None => Err(Error::InvalidInput),
        }
    }
}

/// ML-DSA-87.
pub struct MlDsa87;

impl MlDsa87 {
    /// Public key length in bytes.
    pub const PUBLIC_KEY_LEN: usize = 2592;
    /// Secret key length in bytes.
    pub const SECRET_KEY_LEN: usize = 4896;
    /// Maximum signature length in bytes.
    pub const SIGNATURE_LEN_MAX: usize = 4627;

    /// Generates an ML-DSA-87 key pair into `pk` (2592 bytes) and `sk` (4896 bytes).
    pub fn keypair(pk: &mut [u8], sk: &mut [u8]) -> (r: Result<(), Error>)
        ensures
            r == sign_keypair_outcome(SignVariant::MlDsa87, old(pk)@.len() as int, old(sk)@.len() as int),
            final(pk)@.len() == old(pk)@.len(),
            final(sk)@.len() == old(sk)@.len(),
            r is Err ==> (final(pk)@ == old(pk)@ && final(sk)@ == old(sk)@),
            r is Ok ==> keys_share_seed(SignVariant::MlDsa87, final(pk)@, final(sk)@),
            r is Ok ==> sign_key_pair(SignVariant::MlDsa87, final(pk)@, final(sk)@),
            r is Ok ==> signs_with(SignVariant::MlDsa87, final(sk)@),
    {
        let d = SignVariant::MlDsa87.descriptor();
        check_keypair(pk.len(), sk.len(), d.public_key_len, d.secret_key_len)?;
        backend::mldsa87_keypair(pk, sk);
        Ok(())
    }

    /// Signs `msg` with `sk` into the front of `sig` and returns the
    /// signature's length; the rest of `sig` is left as it was.
    pub fn sign(sig: &mut [u8], msg: &[u8], sk: &[u8]) -> (r: Result<usize, Error>)
        requires
            signs_with(SignVariant::MlDsa87, sk@),
        ensures
            r == sign_outcome(SignVariant::MlDsa87, old(sig)@.len() as int, sk@),
            final(sig)@.len() == old(sig)@.len(),
            r is Err ==> final(sig)@ == old(sig)@,
            r is Ok ==> final(sig)@.subrange(r->Ok_0 as int, final(sig)@.len() as int)
                == old(sig)@.subrange(r->Ok_0 as int, old(sig)@.len() as int),
            r is Ok ==> signed_by(SignVariant::MlDsa87, final(sig)@.subrange(0, r->Ok_0 as int), msg@, sk@),
    {
        check_sign(&SignVariant::MlDsa87.descriptor(), sig.len(), sk.len())?;
        match backend::mldsa87_sign(sig, msg, sk) {
            Some(n) => Ok(n),
            None => Err(Error::InvalidInput),
        }
    }

    /// Verifies the signature `sig` on `msg` under `pk`.
    pub fn verify(sig: &[u8], msg: &[u8], pk: &[u8]) -> (r: Result<bool, Error>)
        ensures
            r == verify_outcome(SignVariant::MlDsa87, sig@, msg@, pk@),
    {
        check_verify(&SignVariant::MlDsa87.descriptor(), sig.len(), pk.len())?;
        match backend::mldsa87_verify(sig, msg, pk) {
            Some(accepted) => Ok(accepted),
            None => Err(Error::InvalidInput),
        }
    }
}

/// Falcon-512.
pub struct Falcon512;

impl Falcon512 {
    /// Public key length in bytes.
    pub const PUBLIC_KEY_LEN: usize = 897;
    /// Secret key length in bytes.
    pub const SECRET_KEY_LEN: usize = 1281;
    /// Maximum signature length in bytes.
    pub const SIGNATURE_LEN_MAX: usize = 666;

    /// Generates a Falcon-512 key pair into `pk` (897 bytes) and `sk` (1281 bytes).
    pub fn keypair(pk: &mut [u8], sk: &mut [u8]) -> (r: Result<(), Error>)
        ensures
            r == sign_keypair_outcome(SignVariant::Falcon512, old(pk)@.len() as int, old(sk)@.len() as int),
            final(pk)@.len() == old(pk)@.len(),
            final(sk)@.len() == old(sk)@.len(),
            r is Err ==> (final(pk)@ == old(pk)@ && final(sk)@ == old(sk)@),
            r is Ok ==> keys_share_seed(SignVariant::Falcon512, final(pk)@, final(sk)@),
            r is Ok ==> sign_key_pair(SignVariant::Falcon512, final(pk)@, final(sk)@),
            r is Ok ==> signs_with(SignVariant::Falcon512, final(sk)@),
    {
        let d = SignVariant::Falcon512.descriptor();
        check_keypair(pk.len(), sk.len(), d.public_key_len, d.secret_key_len)?;
        backend::falcon512_keypair(pk, sk);
        Ok(())
    }

    /// Signs `msg` with `sk` into the front of `sig` and returns the
    /// signature's length; the rest of `sig` is left as it was.
    pub fn sign(sig: &mut [u8], msg: &[u8], sk: &[u8]) -> (r: Result<usize, Error>)
        requires
            signs_with(SignVariant::Falcon512, sk@),
        ensures
            r == sign_outcome(SignVariant::Falcon512, old(sig)@.len() as int, sk@),
            final(sig)@.len() == old(sig)@.len(),
            r is Err ==> final(sig)@ == old(sig)@,
            r is Ok ==> final(sig)@.subrange(r->Ok_0 as int, final(sig)@.len() as int)
                == old(sig)@.subrange(r->Ok_0 as int, old(sig)@.len() as int),
            r is Ok ==> signed_by(SignVariant::Falcon512, final(sig)@.subrange(0, r->Ok_0 as int), msg@, sk@),
    {
        check_sign(&SignVariant::Falcon512.descriptor(), sig.len(), sk.len())?;
        match backend::falcon512_sign(sig, msg, sk) {
            Some(n) => Ok(n),
            None => Err(Error::InvalidInput),
        }
    }

    /// Verifies the signature `sig` on `msg` under `pk`.
    pub fn verify(sig: &[u8], msg: &[u8], pk: &[u8]) -> (r: Result<bool, Error>)
        ensures
            r == verify_outcome(SignVariant::Falcon512, sig@, msg@, pk@),
    {
        check_verify(&SignVariant::Falcon512.descriptor(), sig.len(), pk.len())?;
        match backend::falcon512_verify(sig, msg, pk) {
            Some(accepted) => Ok(accepted),
            None => Err(Error::InvalidInput),
        }
    }
}

/// Falcon-1024.
pub struct Falcon1024;

impl Falcon1024 {
    /// Public key length in bytes.
    pub const PUBLIC_KEY_LEN: usize = 1793;
    /// Secret key length in bytes.
    pub const SECRET_KEY_LEN: usize = 2305;
    /// Maximum signature length in bytes.
    pub const SIGNATURE_LEN_MAX: usize = 1280;

    /// Generates a Falcon-1024 key pair into `pk` (1793 bytes) and `sk` (2305 bytes).
    pub fn keypair(pk: &mut [u8], sk: &mut [u8]) -> (r: Result<(), Error>)
        ensures
            r == sign_keypair_outcome(SignVariant::Falcon1024, old(pk)@.len() as int, old(sk)@.len() as int),
            final(pk)@.len() == old(pk)@.len(),
            final(sk)@.len() == old(sk)@.len(),
            r is Err ==> (final(pk)@ == old(pk)@ && final(sk)@ == old(sk)@),
            r is Ok ==> keys_share_seed(SignVariant::Falcon1024, final(pk)@, final(sk)@),
            r is Ok ==> sign_key_pair(SignVariant::Falcon1024, final(pk)@, final(sk)@),
            r is Ok ==> signs_with(SignVariant::Falcon1024, final(sk)@),
    {
        let d = SignVariant::Falcon1024.descriptor();
        check_keypair(pk.len(), sk.len(), d.public_key_len, d.secret_key_len)?;
        backend::falcon1024_keypair(pk, sk);
        Ok(())
    }

    /// Signs `msg` with `sk` into the front of `sig` and returns the
    /// signature's length; the rest of `sig` is left as it was.
    pub fn sign(sig: &mut [u8], msg: &[u8], sk: &[u8]) -> (r: Result<usize, Error>)
        requires
            signs_with(SignVariant::Falcon1024, sk@),
        ensures
            r == sign_outcome(SignVariant::Falcon1024, old(sig)@.len() as int, sk@),
            final(sig)@.len() == old(sig)@.len(),
            r is Err ==> final(sig)@ == old(sig)@,
            r is Ok ==> final(sig)@.subrange(r->Ok_0 as int, final(sig)@.len() as int)
                == old(sig)@.subrange(r->Ok_0 as int, old(sig)@.len() as int),
            r is Ok ==> signed_by(SignVariant::Falcon1024, final(sig)@.subrange(0, r->Ok_0 as int), msg@, sk@),
    {
        check_sign(&SignVariant::Falcon1024.descriptor(), sig.len(), sk.len())?;
        match backend::falcon1024_sign(sig, msg, sk) {
            Some(n) => Ok(n),
            None => Err(Error::InvalidInput),
        }
    }

    /// Verifies the signature `sig` on `msg` under `pk`.
    pub fn verify(sig: &[u8], msg: &[u8], pk: &[u8]) -> (r: Result<bool, Error>)
        ensures
            r == verify_outcome(SignVariant::Falcon1024, sig@, msg@, pk@),
    {
        check_verify(&SignVariant::Falcon1024.descriptor(), sig.len(), pk.len())?;
        match backend::falcon1024_verify(sig, msg, pk) {
            Some(accepted) => Ok(accepted),
            None => Err(Error::InvalidInput),
        }
    }
}

} // verus!
