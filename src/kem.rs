//! The key-encapsulation operations, one type per variant.
//!
//! Size policy: the public-key, secret-key, ciphertext and shared-secret
//! buffers must have exactly the variant's lengths. A wrong output buffer
//! gives `BufferTooSmall`, a wrong input key or ciphertext `InvalidInput`;
//! output buffers are checked first, and nothing is written on any error.
//!
//! Randomness: the backend draws its own entropy from the platform source
//! when it generates keys and encapsulates; no caller source is consumed.
//! The backend offers no entry point that takes a seed. When the platform
//! source fails, the backend aborts the process rather than returning, so
//! these operations never report `RngFailure`.
//!
//! Decapsulation policy: ML-KEM rejects implicitly. An inauthentic
//! ciphertext of the right length still yields a (pseudorandom) secret,
//! never `VerificationFailed`.
//!
//! The HQC variants are recognised and their buffers checked against the
//! sizes below, but the linked backend encodes HQC keys and ciphertexts with
//! other lengths, so after the checks they report `UnsupportedOperation`.
use vstd::prelude::*;

use crate::backend;
use crate::descriptor::{
    check_decapsulate, check_encapsulate, check_keypair, decapsulate_check, encapsulate_check,
    keypair_check, KemVariant,
};
use crate::error::Error;

verus! {

/// Whether the linked backend serves the variant with the lengths of its
/// descriptor.
pub open spec fn kem_available(v: KemVariant) -> bool {
    match v {
        KemVariant::MlKem512 | KemVariant::MlKem768 | KemVariant::MlKem1024 => true,
        KemVariant::Hqc128 | KemVariant::Hqc192 | KemVariant::Hqc256 => false,
    }
}

/// An operation whose checks passed succeeds when the variant is available.
pub open spec fn when_available(check: Result<(), Error>, available: bool) -> Result<(), Error> {
    match check {
        Err(e) => Err(e),
        Ok(_) => if available {
            Ok(())
        } else {
            Err(Error::UnsupportedOperation)
        },
    }
}

/// The result of a key-pair generation with buffers of these lengths.
pub open spec fn kem_keypair_outcome(v: KemVariant, pk_len: int, sk_len: int) -> Result<(), Error> {
    let d = v.spec_descriptor();
    when_available(
        keypair_check(pk_len, sk_len, d.public_key_len as int, d.secret_key_len as int),
        kem_available(v),
    )
}

/// The result of an encapsulation with buffers of these lengths.
pub open spec fn kem_encapsulate_outcome(v: KemVariant, ct_len: int, ss_len: int, pk_len: int) -> Result<(), Error> {
    when_available(encapsulate_check(v.spec_descriptor(), ct_len, ss_len, pk_len), kem_available(v))
}

/// The result of a decapsulation with buffers of these lengths.
pub open spec fn kem_decapsulate_outcome(v: KemVariant, ss_len: int, ct_len: int, sk_len: int) -> Result<(), Error> {
    when_available(decapsulate_check(v.spec_descriptor(), ss_len, ct_len, sk_len), kem_available(v))
}

/// The shared secret that decapsulation derives from a ciphertext and a
/// secret key of an available variant.
pub open spec fn kem_shared_secret(v: KemVariant, ct: Seq<u8>, sk: Seq<u8>) -> Seq<u8> {
    match v {
        KemVariant::MlKem512 => backend::mlkem512_shared_secret(ct, sk),
        KemVariant::MlKem768 => backend::mlkem768_shared_secret(ct, sk),
        KemVariant::MlKem1024 => backend::mlkem1024_shared_secret(ct, sk),
        _ => Seq::empty(),
    }
}

/// Whether `pk` and `sk` were generated together as a key pair of `v`.
pub open spec fn kem_key_pair(v: KemVariant, pk: Seq<u8>, sk: Seq<u8>) -> bool {
    match v {
        KemVariant::MlKem512 => backend::mlkem512_key_pair(pk, sk),
        KemVariant::MlKem768 => backend::mlkem768_key_pair(pk, sk),
        KemVariant::MlKem1024 => backend::mlkem1024_key_pair(pk, sk),
        _ => false,
    }
}

/// Whether `ct` carries the shared secret `ss` to `pk`: decapsulating `ct`
/// with the secret key generated together with `pk` gives `ss`.
pub open spec fn encapsulates_to(v: KemVariant, pk: Seq<u8>, ct: Seq<u8>, ss: Seq<u8>) -> bool {
    forall|sk: Seq<u8>| #[trigger] kem_key_pair(v, pk, sk) ==> kem_shared_secret(v, ct, sk) == ss
}

/// Where an ML-KEM secret key holds a copy of its public key.
pub open spec fn embedded_public_key_offset(v: KemVariant) -> int {
    match v {
        KemVariant::MlKem512 => 768,
        KemVariant::MlKem768 => 1152,
        KemVariant::MlKem1024 => 1536,
        _ => 0,
    }
}

/// The secret key holds a copy of the public key (ML-KEM key layout).
pub open spec fn holds_public_key(v: KemVariant, pk: Seq<u8>, sk: Seq<u8>) -> bool {
    let off = embedded_public_key_offset(v);
    kem_available(v) ==> sk.subrange(off, off + pk.len()) == pk
}

/// ML-KEM-512.
pub struct MlKem512;

impl MlKem512 {
    /// Public key length in bytes.
    pub const PUBLIC_KEY_LEN: usize = 800;
    /// Secret key length in bytes.
    pub const SECRET_KEY_LEN: usize = 1632;
    /// Ciphertext length in bytes.
    pub const CIPHERTEXT_LEN: usize = 768;
    /// Shared secret length in bytes.
    pub const SHARED_SECRET_LEN: usize = 32;

    /// Estimated stack use of one operation, in bytes.
    pub const STACK_USAGE: usize = 2048;
    /// Estimated code size, in bytes.
    pub const FLASH_USAGE: usize = 15360;

    /// Generates an ML-KEM-512 key pair into `pk` (800 bytes) and `sk` (1632 bytes).
    pub fn keypair(pk: &mut [u8], sk: &mut [u8]) -> (r: Result<(), Error>)
        ensures
            r == kem_keypair_outcome(KemVariant::MlKem512, old(pk)@.len() as int, old(sk)@.len() as int),
            final(pk)@.len() == old(pk)@.len(),
            final(sk)@.len() == old(sk)@.len(),
            r is Err ==> (final(pk)@ == old(pk)@ && final(sk)@ == old(sk)@),
            r is Ok ==> holds_public_key(KemVariant::MlKem512, final(pk)@, final(sk)@),
            r is Ok ==> kem_key_pair(KemVariant::MlKem512, final(pk)@, final(sk)@),
    {
        let d = KemVariant::MlKem512.descriptor();
        check_keypair(pk.len(), sk.len(), d.public_key_len, d.secret_key_len)?;
        backend::mlkem512_keypair(pk, sk);
        Ok(())
    }

    /// Encapsulates a fresh shared secret to `pk`: the ciphertext (768 bytes)
    /// goes to `ct` and the secret (32 bytes) to `ss`.
    pub fn encapsulate(ct: &mut [u8], ss: &mut [u8], pk: &[u8]) -> (r: Result<(), Error>)
        ensures
            r == kem_encapsulate_outcome(KemVariant::MlKem512, old(ct)@.len() as int, old(ss)@.len() as int, pk@.len() as int),
            final(ct)@.len() == old(ct)@.len(),
            final(ss)@.len() == old(ss)@.len(),
            r is Err ==> (final(ct)@ == old(ct)@ && final(ss)@ == old(ss)@),
            r is Ok ==> encapsulates_to(KemVariant::MlKem512, pk@, final(ct)@, final(ss)@),
    {
        check_encapsulate(&KemVariant::MlKem512.descriptor(), ct.len(), ss.len(), pk.len())?;
        if backend::mlkem512_encapsulate(ct, ss, pk) {
            Ok(())
        } else {
            Err(Error::InvalidInput)
        }
    }

    /// Recovers into `ss` the shared secret that `ct` carries for `sk`.
    pub fn decapsulate(ss: &mut [u8], ct: &[u8], sk: &[u8]) -> (r: Result<(), Error>)
        ensures
            r == kem_decapsulate_outcome(KemVariant::MlKem512, old(ss)@.len() as int, ct@.len() as int, sk@.len() as int),
            final(ss)@.len() == old(ss)@.len(),
            r is Err ==> final(ss)@ == old(ss)@,
            r is Ok ==> final(ss)@ == kem_shared_secret(KemVariant::MlKem512, ct@, sk@),
    {
        check_decapsulate(&KemVariant::MlKem512.descriptor(), ss.len(), ct.len(), sk.len())?;
        if backend::mlkem512_decapsulate(ss, ct, sk) {
            Ok(())
        } else {
            Err(Error::InvalidInput)
        }
    }
}

/// ML-KEM-768.
pub struct MlKem768;

impl MlKem768 {
    /// Public key length in bytes.
    pub const PUBLIC_KEY_LEN: usize = 1184;
    /// Secret key length in bytes.
    pub const SECRET_KEY_LEN: usize = 2400;
    /// Ciphertext length in bytes.
    pub const CIPHERTEXT_LEN: usize = 1088;
    /// Shared secret length in bytes.
    pub const SHARED_SECRET_LEN: usize = 32;

    /// Estimated stack use of one operation, in bytes.
    pub const STACK_USAGE: usize = 3072;
    /// Estimated code size, in bytes.
    pub const FLASH_USAGE: usize = 20480;

    /// Generates an ML-KEM-768 key pair into `pk` (1184 bytes) and `sk` (2400 bytes).
    pub fn keypair(pk: &mut [u8], sk: &mut [u8]) -> (r: Result<(), Error>)
        ensures
            r == kem_keypair_outcome(KemVariant::MlKem768, old(pk)@.len() as int, old(sk)@.len() as int),
            final(pk)@.len() == old(pk)@.len(),
            final(sk)@.len() == old(sk)@.len(),
            r is Err ==> (final(pk)@ == old(pk)@ && final(sk)@ == old(sk)@),
            r is Ok ==> holds_public_key(KemVariant::MlKem768, final(pk)@, final(sk)@),
            r is Ok ==> kem_key_pair(KemVariant::MlKem768, final(pk)@, final(sk)@),
    {
        let d = KemVariant::MlKem768.descriptor();
        check_keypair(pk.len(), sk.len(), d.public_key_len, d.secret_key_len)?;
        backend::mlkem768_keypair(pk, sk);
        Ok(())
    }

    /// Encapsulates a fresh shared secret to `pk`: the ciphertext (1088 bytes)
    /// goes to `ct` and the secret (32 bytes) to `ss`.
    pub fn encapsulate(ct: &mut [u8], ss: &mut [u8], pk: &[u8]) -> (r: Result<(), Error>)
        ensures
            r == kem_encapsulate_outcome(KemVariant::MlKem768, old(ct)@.len() as int, old(ss)@.len() as int, pk@.len() as int),
            final(ct)@.len() == old(ct)@.len(),
            final(ss)@.len() == old(ss)@.len(),
            r is Err ==> (final(ct)@ == old(ct)@ && final(ss)@ == old(ss)@),
            r is Ok ==> encapsulates_to(KemVariant::MlKem768, pk@, final(ct)@, final(ss)@),
    {
        check_encapsulate(&KemVariant::MlKem768.descriptor(), ct.len(), ss.len(), pk.len())?;
        if backend::mlkem768_encapsulate(ct, ss, pk) {
            Ok(())
        } else {
            Err(Error::InvalidInput)
        }
    }

    /// Recovers into `ss` the shared secret that `ct` carries for `sk`.
    pub fn decapsulate(ss: &mut [u8], ct: &[u8], sk: &[u8]) -> (r: Result<(), Error>)
        ensures
            r == kem_decapsulate_outcome(KemVariant::MlKem768, old(ss)@.len() as int, ct@.len() as int, sk@.len() as int),
            final(ss)@.len() == old(ss)@.len(),
            r is Err ==> final(ss)@ == old(ss)@,
            r is Ok ==> final(ss)@ == kem_shared_secret(KemVariant::MlKem768, ct@, sk@),
    {
        check_decapsulate(&KemVariant::MlKem768.descriptor(), ss.len(), ct.len(), sk.len())?;
        if backend::mlkem768_decapsulate(ss, ct, sk) {
            Ok(())
        } else {
            Err(Error::InvalidInput)
        }
    }
}

/// ML-KEM-1024.
pub struct MlKem1024;

impl MlKem1024 {
    /// Public key length in bytes.
    pub const PUBLIC_KEY_LEN: usize = 1568;
    /// Secret key length in bytes.
    pub const SECRET_KEY_LEN: usize = 3168;
    /// Ciphertext length in bytes.
    pub const CIPHERTEXT_LEN: usize = 1568;
    /// Shared secret length in bytes.
    pub const SHARED_SECRET_LEN: usize = 32;

    /// Estimated stack use of one operation, in bytes.
    pub const STACK_USAGE: usize = 4096;
    /// Estimated code size, in bytes.
    pub const FLASH_USAGE: usize = 25600;

    /// Generates an ML-KEM-1024 key pair into `pk` (1568 bytes) and `sk` (3168 bytes).
    pub fn keypair(pk: &mut [u8], sk: &mut [u8]) -> (r: Result<(), Error>)
        ensures
            r == kem_keypair_outcome(KemVariant::MlKem1024, old(pk)@.len() as int, old(sk)@.len() as int),
            final(pk)@.len() == old(pk)@.len(),
            final(sk)@.len() == old(sk)@.len(),
            r is Err ==> (final(pk)@ == old(pk)@ && final(sk)@ == old(sk)@),
            r is Ok ==> holds_public_key(KemVariant::MlKem1024, final(pk)@, final(sk)@),
            r is Ok ==> kem_key_pair(KemVariant::MlKem1024, final(pk)@, final(sk)@),
    {
        let d = KemVariant::MlKem1024.descriptor();
        check_keypair(pk.len(), sk.len(), d.public_key_len, d.secret_key_len)?;
        backend::mlkem1024_keypair(pk, sk);
        Ok(())
    }

    /// Encapsulates a fresh shared secret to `pk`: the ciphertext (1568 bytes)
    /// goes to `ct` and the secret (32 bytes) to `ss`.
    pub fn encapsulate(ct: &mut [u8], ss: &mut [u8], pk: &[u8]) -> (r: Result<(), Error>)
        ensures
            r == kem_encapsulate_outcome(KemVariant::MlKem1024, old(ct)@.len() as int, old(ss)@.len() as int, pk@.len() as int),
            final(ct)@.len() == old(ct)@.len(),
            final(ss)@.len() == old(ss)@.len(),
            r is Err ==> (final(ct)@ == old(ct)@ && final(ss)@ == old(ss)@),
            r is Ok ==> encapsulates_to(KemVariant::MlKem1024, pk@, final(ct)@, final(ss)@),
    {
        check_encapsulate(&KemVariant::MlKem1024.descriptor(), ct.len(), ss.len(), pk.len())?;
        if backend::mlkem1024_encapsulate(ct, ss, pk) {
            Ok(())
        } else {
            Err(Error::InvalidInput)
        }
    }

    /// Recovers into `ss` the shared secret that `ct` carries for `sk`.
    pub fn decapsulate(ss: &mut [u8], ct: &[u8], sk: &[u8]) -> (r: Result<(), Error>)
        ensures
            r == kem_decapsulate_outcome(KemVariant::MlKem1024, old(ss)@.len() as int, ct@.len() as int, sk@.len() as int),
            final(ss)@.len() == old(ss)@.len(),
            r is Err ==> final(ss)@ == old(ss)@,
            r is Ok ==> final(ss)@ == kem_shared_secret(KemVariant::MlKem1024, ct@, sk@),
    {
        check_decapsulate(&KemVariant::MlKem1024.descriptor(), ss.len(), ct.len(), sk.len())?;
        if backend::mlkem1024_decapsulate(ss, ct, sk) {
            Ok(())
        } else {
            Err(Error::InvalidInput)
        }
    }
}

/// HQC-128.
pub struct Hqc128;

impl Hqc128 {
    /// Public key length in bytes.
    pub const PUBLIC_KEY_LEN: usize = 2249;
    /// Secret key length in bytes.
    pub const SECRET_KEY_LEN: usize = 57;
    /// Ciphertext length in bytes.
    pub const CIPHERTEXT_LEN: usize = 4481;
    /// Shared secret length in bytes.
    pub const SHARED_SECRET_LEN: usize = 32;

    /// Checks the buffers of an HQC-128 key pair; the variant is then unavailable.
    pub fn keypair(pk: &mut [u8], sk: &mut [u8]) -> (r: Result<(), Error>)
        ensures
            r == kem_keypair_outcome(KemVariant::Hqc128, old(pk)@.len() as int, old(sk)@.len() as int),
            final(pk)@.len() == old(pk)@.len(),
            final(sk)@.len() == old(sk)@.len(),
            r is Err ==> (final(pk)@ == old(pk)@ && final(sk)@ == old(sk)@),
    {
        let d = KemVariant::Hqc128.descriptor();
        check_keypair(pk.len(), sk.len(), d.public_key_len, d.secret_key_len)?;
        Err(Error::UnsupportedOperation)
    }

    /// Checks the buffers of an HQC-128 encapsulation; the variant is then unavailable.
    pub fn encapsulate(ct: &mut [u8], ss: &mut [u8], pk: &[u8]) -> (r: Result<(), Error>)
        ensures
            r == kem_encapsulate_outcome(KemVariant::Hqc128, old(ct)@.len() as int, old(ss)@.len() as int, pk@.len() as int),
            final(ct)@.len() == old(ct)@.len(),
            final(ss)@.len() == old(ss)@.len(),
            r is Err ==> (final(ct)@ == old(ct)@ && final(ss)@ == old(ss)@),
    {
        check_encapsulate(&KemVariant::Hqc128.descriptor(), ct.len(), ss.len(), pk.len())?;
        Err(Error::UnsupportedOperation)
    }

    /// Checks the buffers of an HQC-128 decapsulation; the variant is then unavailable.
    pub fn decapsulate(ss: &mut [u8], ct: &[u8], sk: &[u8]) -> (r: Result<(), Error>)
        ensures
            r == kem_decapsulate_outcome(KemVariant::Hqc128, old(ss)@.len() as int, ct@.len() as int, sk@.len() as int),
            final(ss)@.len() == old(ss)@.len(),
            r is Err ==> final(ss)@ == old(ss)@,
    {
        check_decapsulate(&KemVariant::Hqc128.descriptor(), ss.len(), ct.len(), sk.len())?;
        Err(Error::UnsupportedOperation)
    }
}

/// HQC-192.
pub struct Hqc192;

impl Hqc192 {
    /// Public key length in bytes.
    pub const PUBLIC_KEY_LEN: usize = 4522;
    /// Secret key length in bytes.
    pub const SECRET_KEY_LEN: usize = 57;
    /// Ciphertext length in bytes.
    pub const CIPHERTEXT_LEN: usize = 9026;
    /// Shared secret length in bytes.
    pub const SHARED_SECRET_LEN: usize = 32;

    /// Checks the buffers of an HQC-192 key pair; the variant is then unavailable.
    pub fn keypair(pk: &mut [u8], sk: &mut [u8]) -> (r: Result<(), Error>)
        ensures
            r == kem_keypair_outcome(KemVariant::Hqc192, old(pk)@.len() as int, old(sk)@.len() as int),
            final(pk)@.len() == old(pk)@.len(),
            final(sk)@.len() == old(sk)@.len(),
            r is Err ==> (final(pk)@ == old(pk)@ && final(sk)@ == old(sk)@),
    {
        let d = KemVariant::Hqc192.descriptor();
        check_keypair(pk.len(), sk.len(), d.public_key_len, d.secret_key_len)?;
        Err(Error::UnsupportedOperation)
    }

    /// Checks the buffers of an HQC-192 encapsulation; the variant is then unavailable.
    pub fn encapsulate(ct: &mut [u8], ss: &mut [u8], pk: &[u8]) -> (r: Result<(), Error>)
        ensures
            r == kem_encapsulate_outcome(KemVariant::Hqc192, old(ct)@.len() as int, old(ss)@.len() as int, pk@.len() as int),
            final(ct)@.len() == old(ct)@.len(),
            final(ss)@.len() == old(ss)@.len(),
            r is Err ==> (final(ct)@ == old(ct)@ && final(ss)@ == old(ss)@),
    {
        check_encapsulate(&KemVariant::Hqc192.descriptor(), ct.len(), ss.len(), pk.len())?;
        Err(Error::UnsupportedOperation)
    }

    /// Checks the buffers of an HQC-192 decapsulation; the variant is then unavailable.
    pub fn decapsulate(ss: &mut [u8], ct: &[u8], sk: &[u8]) -> (r: Result<(), Error>)
        ensures
            r == kem_decapsulate_outcome(KemVariant::Hqc192, old(ss)@.len() as int, ct@.len() as int, sk@.len() as int),
            final(ss)@.len() == old(ss)@.len(),
            r is Err ==> final(ss)@ == old(ss)@,
    {
        check_decapsulate(&KemVariant::Hqc192.descriptor(), ss.len(), ct.len(), sk.len())?;
        Err(Error::UnsupportedOperation)
    }
}

/// HQC-256.
pub struct Hqc256;

impl Hqc256 {
    /// Public key length in bytes.
    pub const PUBLIC_KEY_LEN: usize = 7245;
    /// Secret key length in bytes.
    pub const SECRET_KEY_LEN: usize = 57;
    /// Ciphertext length in bytes.
    pub const CIPHERTEXT_LEN: usize = 14469;
    /// Shared secret length in bytes.
    pub const SHARED_SECRET_LEN: usize = 32;

    /// Checks the buffers of an HQC-256 key pair; the variant is then unavailable.
    pub fn keypair(pk: &mut [u8], sk: &mut [u8]) -> (r: Result<(), Error>)
        ensures
            r == kem_keypair_outcome(KemVariant::Hqc256, old(pk)@.len() as int, old(sk)@.len() as int),
            final(pk)@.len() == old(pk)@.len(),
            final(sk)@.len() == old(sk)@.len(),
            r is Err ==> (final(pk)@ == old(pk)@ && final(sk)@ == old(sk)@),
    {
        let d = KemVariant::Hqc256.descriptor();
        check_keypair(pk.len(), sk.len(), d.public_key_len, d.secret_key_len)?;
        Err(Error::UnsupportedOperation)
    }

    /// Checks the buffers of an HQC-256 encapsulation; the variant is then unavailable.
    pub fn encapsulate(ct: &mut [u8], ss: &mut [u8], pk: &[u8]) -> (r: Result<(), Error>)
        ensures
            r == kem_encapsulate_outcome(KemVariant::Hqc256, old(ct)@.len() as int, old(ss)@.len() as int, pk@.len() as int),
            final(ct)@.len() == old(ct)@.len(),
            final(ss)@.len() == old(ss)@.len(),
            r is Err ==> (final(ct)@ == old(ct)@ && final(ss)@ == old(ss)@),
    {
        check_encapsulate(&KemVariant::Hqc256.descriptor(), ct.len(), ss.len(), pk.len())?;
        Err(Error::UnsupportedOperation)
    }

    /// Checks the buffers of an HQC-256 decapsulation; the variant is then unavailable.
    pub fn decapsulate(ss: &mut [u8], ct: &[u8], sk: &[u8]) -> (r: Result<(), Error>)
        ensures
            r == kem_decapsulate_outcome(KemVariant::Hqc256, old(ss)@.len() as int, ct@.len() as int, sk@.len() as int),
            final(ss)@.len() == old(ss)@.len(),
            r is Err ==> final(ss)@ == old(ss)@,
    {
        check_decapsulate(&KemVariant::Hqc256.descriptor(), ss.len(), ct.len(), sk.len())?;
        Err(Error::UnsupportedOperation)
    }
}

/// HQC-128 under the name that the embedded interface gives it.
pub type HqcKem128 = Hqc128;

} // verus!
