//! The calls into the cryptographic backend.
//!
//! Each function here makes one backend call; its contract is what the
//! backend's source shows of that call. Keys, ciphertexts and signatures cross
//! as plain byte slices: the backend's own types are built from them and read
//! back into them inside these bodies.
use vstd::prelude::*;

use pqcrypto_traits::kem::{Ciphertext as _, PublicKey as _, SecretKey as _, SharedSecret as _};
use pqcrypto_traits::sign::{
    DetachedSignature as _, PublicKey as SignPublicKey, SecretKey as SignSecretKey,
};

verus! {

/// The shared secret that ML-KEM-512 decapsulation derives from a ciphertext and
/// a secret key.
pub uninterp spec fn mlkem512_shared_secret(ct: Seq<u8>, sk: Seq<u8>) -> Seq<u8>;

/// Whether `pk` and `sk` were generated together by ML-KEM-512 key generation.
pub uninterp spec fn mlkem512_key_pair(pk: Seq<u8>, sk: Seq<u8>) -> bool;

/// Relies on `pqcrypto_mlkem::mlkem512::keypair`: it returns a public key of 800 bytes and
/// a secret key of 1632 bytes, and the key generation copies the public key
/// into the secret key at byte 768. The two keys form a pair.
#[verifier::external_body]
pub(crate) fn mlkem512_keypair(pk: &mut [u8], sk: &mut [u8])
    requires
        old(pk)@.len() == 800,
        old(sk)@.len() == 1632,
    ensures
        final(pk)@.len() == 800,
        final(sk)@.len() == 1632,
        final(sk)@.subrange(768, 1568) == final(pk)@,
        mlkem512_key_pair(final(pk)@, final(sk)@),
{
    let (p, s) = pqcrypto_mlkem::mlkem512::keypair();
    pk.copy_from_slice(p.as_bytes());
    sk.copy_from_slice(s.as_bytes());
}

/// Relies on `pqcrypto_mlkem::mlkem512::encapsulate`: the public key is accepted exactly when
/// it has 800 bytes (`PublicKey::from_bytes`), and the call returns a ciphertext
/// of 768 bytes and a shared secret of 32 bytes. Decapsulating that ciphertext
/// with the secret key generated together with `pk` gives that secret (the
/// round trip that the crate documents and tests, `mlkem512.rs` lines 11-14).
#[verifier::external_body]
pub(crate) fn mlkem512_encapsulate(ct: &mut [u8], ss: &mut [u8], pk: &[u8]) -> (accepted: bool)
    requires
        old(ct)@.len() == 768,
        old(ss)@.len() == 32,
    ensures
        accepted <==> pk@.len() == 800,
        final(ct)@.len() == 768,
        final(ss)@.len() == 32,
        !accepted ==> (final(ct)@ == old(ct)@ && final(ss)@ == old(ss)@),
        accepted ==> forall|sk: Seq<u8>| #[trigger] mlkem512_key_pair(pk@, sk)
            ==> mlkem512_shared_secret(final(ct)@, sk) == final(ss)@,
{
    let Ok(p) = pqcrypto_mlkem::mlkem512::PublicKey::from_bytes(pk) else {
        return false;
    };
    let (s, c) = pqcrypto_mlkem::mlkem512::encapsulate(&p);
    ct.copy_from_slice(c.as_bytes());
    ss.copy_from_slice(s.as_bytes());
    true
}

/// Relies on `pqcrypto_mlkem::mlkem512::decapsulate`: the ciphertext and secret key are
/// accepted exactly when they have 768 and 1632 bytes (`from_bytes`), and the
/// 32-byte result depends on those two values alone. Decapsulation rejects
/// implicitly: a ciphertext that fails the check still yields a secret.
#[verifier::external_body]
pub(crate) fn mlkem512_decapsulate(ss: &mut [u8], ct: &[u8], sk: &[u8]) -> (accepted: bool)
    requires
        old(ss)@.len() == 32,
    ensures
        accepted <==> (ct@.len() == 768 && sk@.len() == 1632),
        final(ss)@.len() == 32,
        accepted ==> final(ss)@ == mlkem512_shared_secret(ct@, sk@),
        !accepted ==> final(ss)@ == old(ss)@,
{
    let (Ok(c), Ok(s)) = (
        pqcrypto_mlkem::mlkem512::Ciphertext::from_bytes(ct),
        pqcrypto_mlkem::mlkem512::SecretKey::from_bytes(sk),
    ) else {
        return false;
    };
    ss.copy_from_slice(pqcrypto_mlkem::mlkem512::decapsulate(&c, &s).as_bytes());
    true
}

/// The shared secret that ML-KEM-768 decapsulation derives from a ciphertext and
/// a secret key.
pub uninterp spec fn mlkem768_shared_secret(ct: Seq<u8>, sk: Seq<u8>) -> Seq<u8>;

/// Whether `pk` and `sk` were generated together by ML-KEM-768 key generation.
pub uninterp spec fn mlkem768_key_pair(pk: Seq<u8>, sk: Seq<u8>) -> bool;

/// Relies on `pqcrypto_mlkem::mlkem768::keypair`: it returns a public key of 1184 bytes and
/// a secret key of 2400 bytes, and the key generation copies the public key
/// into the secret key at byte 1152. The two keys form a pair.
#[verifier::external_body]
pub(crate) fn mlkem768_keypair(pk: &mut [u8], sk: &mut [u8])
    requires
        old(pk)@.len() == 1184,
        old(sk)@.len() == 2400,
    ensures
        final(pk)@.len() == 1184,
        final(sk)@.len() == 2400,
        final(sk)@.subrange(1152, 2336) == final(pk)@,
        mlkem768_key_pair(final(pk)@, final(sk)@),
{
    let (p, s) = pqcrypto_mlkem::mlkem768::keypair();
    pk.copy_from_slice(p.as_bytes());
    sk.copy_from_slice(s.as_bytes());
}

/// Relies on `pqcrypto_mlkem::mlkem768::encapsulate`: the public key is accepted exactly when
/// it has 1184 bytes (`PublicKey::from_bytes`), and the call returns a ciphertext
/// of 1088 bytes and a shared secret of 32 bytes. Decapsulating that ciphertext
/// with the secret key generated together with `pk` gives that secret (the
/// round trip that the crate documents and tests, `mlkem768.rs` lines 11-14).
#[verifier::external_body]
pub(crate) fn mlkem768_encapsulate(ct: &mut [u8], ss: &mut [u8], pk: &[u8]) -> (accepted: bool)
    requires
        old(ct)@.len() == 1088,
        old(ss)@.len() == 32,
    ensures
        accepted <==> pk@.len() == 1184,
        final(ct)@.len() == 1088,
        final(ss)@.len() == 32,
        !accepted ==> (final(ct)@ == old(ct)@ && final(ss)@ == old(ss)@),
        accepted ==> forall|sk: Seq<u8>| #[trigger] mlkem768_key_pair(pk@, sk)
            ==> mlkem768_shared_secret(final(ct)@, sk) == final(ss)@,
{
    let Ok(p) = pqcrypto_mlkem::mlkem768::PublicKey::from_bytes(pk) else {
        return false;
    };
    let (s, c) = pqcrypto_mlkem::mlkem768::encapsulate(&p);
    ct.copy_from_slice(c.as_bytes());
    ss.copy_from_slice(s.as_bytes());
    true
}

/// Relies on `pqcrypto_mlkem::mlkem768::decapsulate`: the ciphertext and secret key are
/// accepted exactly when they have 1088 and 2400 bytes (`from_bytes`), and the
/// 32-byte result depends on those two values alone. Decapsulation rejects
/// implicitly: a ciphertext that fails the check still yields a secret.
#[verifier::external_body]
pub(crate) fn mlkem768_decapsulate(ss: &mut [u8], ct: &[u8], sk: &[u8]) -> (accepted: bool)
    requires
        old(ss)@.len() == 32,
    ensures
        accepted <==> (ct@.len() == 1088 && sk@.len() == 2400),
        final(ss)@.len() == 32,
        accepted ==> final(ss)@ == mlkem768_shared_secret(ct@, sk@),
        !accepted ==> final(ss)@ == old(ss)@,
{
    let (Ok(c), Ok(s)) = (
        pqcrypto_mlkem::mlkem768::Ciphertext::from_bytes(ct),
        pqcrypto_mlkem::mlkem768::SecretKey::from_bytes(sk),
    ) else {
        return false;
    };
    ss.copy_from_slice(pqcrypto_mlkem::mlkem768::decapsulate(&c, &s).as_bytes());
    true
}

/// The shared secret that ML-KEM-1024 decapsulation derives from a ciphertext and
/// a secret key.
pub uninterp spec fn mlkem1024_shared_secret(ct: Seq<u8>, sk: Seq<u8>) -> Seq<u8>;

/// Whether `pk` and `sk` were generated together by ML-KEM-1024 key generation.
pub uninterp spec fn mlkem1024_key_pair(pk: Seq<u8>, sk: Seq<u8>) -> bool;

/// Relies on `pqcrypto_mlkem::mlkem1024::keypair`: it returns a public key of 1568 bytes and
/// a secret key of 3168 bytes, and the key generation copies the public key
/// into the secret key at byte 1536. The two keys form a pair.
#[verifier::external_body]
pub(crate) fn mlkem1024_keypair(pk: &mut [u8], sk: &mut [u8])
    requires
        old(pk)@.len() == 1568,
        old(sk)@.len() == 3168,
    ensures
        final(pk)@.len() == 1568,
        final(sk)@.len() == 3168,
        final(sk)@.subrange(1536, 3104) == final(pk)@,
        mlkem1024_key_pair(final(pk)@, final(sk)@),
{
    let (p, s) = pqcrypto_mlkem::mlkem1024::keypair();
    pk.copy_from_slice(p.as_bytes());
    sk.copy_from_slice(s.as_bytes());
}

/// Relies on `pqcrypto_mlkem::mlkem1024::encapsulate`: the public key is accepted exactly when
/// it has 1568 bytes (`PublicKey::from_bytes`), and the call returns a ciphertext
/// of 1568 bytes and a shared secret of 32 bytes. Decapsulating that ciphertext
/// with the secret key generated together with `pk` gives that secret (the
/// round trip that the crate documents and tests, `mlkem1024.rs` lines 11-14).
#[verifier::external_body]
pub(crate) fn mlkem1024_encapsulate(ct: &mut [u8], ss: &mut [u8], pk: &[u8]) -> (accepted: bool)
    requires
        old(ct)@.len() == 1568,
        old(ss)@.len() == 32,
    ensures
        accepted <==> pk@.len() == 1568,
        final(ct)@.len() == 1568,
        final(ss)@.len() == 32,
        !accepted ==> (final(ct)@ == old(ct)@ && final(ss)@ == old(ss)@),
        accepted ==> forall|sk: Seq<u8>| #[trigger] mlkem1024_key_pair(pk@, sk)
            ==> mlkem1024_shared_secret(final(ct)@, sk) == final(ss)@,
{
    let Ok(p) = pqcrypto_mlkem::mlkem1024::PublicKey::from_bytes(pk) else {
        return false;
    };
    let (s, c) = pqcrypto_mlkem::mlkem1024::encapsulate(&p);
    ct.copy_from_slice(c.as_bytes());
    ss.copy_from_slice(s.as_bytes());
    true
}

/// Relies on `pqcrypto_mlkem::mlkem1024::decapsulate`: the ciphertext and secret key are
/// accepted exactly when they have 1568 and 3168 bytes (`from_bytes`), and the
/// 32-byte result depends on those two values alone. Decapsulation rejects
/// implicitly: a ciphertext that fails the check still yields a secret.
#[verifier::external_body]
pub(crate) fn mlkem1024_decapsulate(ss: &mut [u8], ct: &[u8], sk: &[u8]) -> (accepted: bool)
    requires
        old(ss)@.len() == 32,
    ensures
        accepted <==> (ct@.len() == 1568 && sk@.len() == 3168),
        final(ss)@.len() == 32,
        accepted ==> final(ss)@ == mlkem1024_shared_secret(ct@, sk@),
        !accepted ==> final(ss)@ == old(ss)@,
{
    let (Ok(c), Ok(s)) = (
        pqcrypto_mlkem::mlkem1024::Ciphertext::from_bytes(ct),
        pqcrypto_mlkem::mlkem1024::SecretKey::from_bytes(sk),
    ) else {
        return false;
    };
    ss.copy_from_slice(pqcrypto_mlkem::mlkem1024::decapsulate(&c, &s).as_bytes());
    true
}

/// Whether ML-DSA-44 verification accepts a signature on a message under a
/// public key.
pub uninterp spec fn mldsa44_accepts(sig: Seq<u8>, msg: Seq<u8>, pk: Seq<u8>) -> bool;

/// Whether `pk` and `sk` were generated together by ML-DSA-44 key generation.
pub uninterp spec fn mldsa44_key_pair(pk: Seq<u8>, sk: Seq<u8>) -> bool;

/// Relies on `pqcrypto_mldsa::mldsa44::keypair`: it returns a public key of 1312 bytes and
/// a secret key of 2560 bytes that form a pair, and both begin with the same 32-byte public seed
/// (`pack_pk` and `pack_sk` write `rho` first).
#[verifier::external_body]
pub(crate) fn mldsa44_keypair(pk: &mut [u8], sk: &mut [u8])
    requires
        old(pk)@.len() == 1312,
        old(sk)@.len() == 2560,
    ensures
        final(pk)@.len() == 1312,
        final(sk)@.len() == 2560,
        final(sk)@.subrange(0, 32) == final(pk)@.subrange(0, 32),
        mldsa44_key_pair(final(pk)@, final(sk)@),
{
    let (p, s) = pqcrypto_mldsa::mldsa44::keypair();
    pk.copy_from_slice(p.as_bytes());
    sk.copy_from_slice(s.as_bytes());
}

/// Relies on `pqcrypto_mldsa::mldsa44::detached_sign`: the secret key is accepted exactly
/// when it has 2560 bytes (`SecretKey::from_bytes`), and the signing always writes a signature of 2420 bytes.
/// The signature goes to the front of `sig`; the rest of `sig` is untouched.
/// A signature made with a generated secret key is accepted under the public
/// key generated with it (the crate's own sign-then-verify test).
#[verifier::external_body]
pub(crate) fn mldsa44_sign(sig: &mut [u8], msg: &[u8], sk: &[u8]) -> (r: Option<usize>)
    requires
        old(sig)@.len() >= 2420,
    ensures
        r is Some <==> sk@.len() == 2560,
        r is Some ==> r->0 == 2420,
        final(sig)@.len() == old(sig)@.len(),
        r is Some ==> final(sig)@.subrange(r->0 as int, final(sig)@.len() as int)
            == old(sig)@.subrange(r->0 as int, old(sig)@.len() as int),
        r is None ==> final(sig)@ == old(sig)@,
        r is Some ==> forall|pk: Seq<u8>| #[trigger] mldsa44_key_pair(pk, sk@)
            ==> mldsa44_accepts(final(sig)@.subrange(0, r->0 as int), msg@, pk),
{
    let k = pqcrypto_mldsa::mldsa44::SecretKey::from_bytes(sk).ok()?;
    let s = pqcrypto_mldsa::mldsa44::detached_sign(msg, &k);
    let b = s.as_bytes();
    sig[..b.len()].copy_from_slice(b);
    Some(b.len())
}

/// Relies on `pqcrypto_mldsa::mldsa44::verify_detached_signature`: the signature is accepted
/// when it has at most 2420 bytes and the public key when it has 1312 bytes
/// (`from_bytes`); the verdict depends on signature, message and key alone.
#[verifier::external_body]
pub(crate) fn mldsa44_verify(sig: &[u8], msg: &[u8], pk: &[u8]) -> (r: Option<bool>)
    ensures
        r is Some <==> (sig@.len() <= 2420 && pk@.len() == 1312),
        r is Some ==> r->0 == mldsa44_accepts(sig@, msg@, pk@),
{
    let s = pqcrypto_mldsa::mldsa44::DetachedSignature::from_bytes(sig).ok()?;
    let k = pqcrypto_mldsa::mldsa44::PublicKey::from_bytes(pk).ok()?;
    Some(pqcrypto_mldsa::mldsa44::verify_detached_signature(&s, msg, &k).is_ok())
}

/// Whether ML-DSA-65 verification accepts a signature on a message under a
/// public key.
pub uninterp spec fn mldsa65_accepts(sig: Seq<u8>, msg: Seq<u8>, pk: Seq<u8>) -> bool;

/// Whether `pk` and `sk` were generated together by ML-DSA-65 key generation.
pub uninterp spec fn mldsa65_key_pair(pk: Seq<u8>, sk: Seq<u8>) -> bool;

/// Relies on `pqcrypto_mldsa::mldsa65::keypair`: it returns a public key of 1952 bytes and
/// a secret key of 4032 bytes that form a pair, and both begin with the same 32-byte public seed
/// (`pack_pk` and `pack_sk` write `rho` first).
#[verifier::external_body]
pub(crate) fn mldsa65_keypair(pk: &mut [u8], sk: &mut [u8])
    requires
        old(pk)@.len() == 1952,
        old(sk)@.len() == 4032,
    ensures
        final(pk)@.len() == 1952,
        final(sk)@.len() == 4032,
        final(sk)@.subrange(0, 32) == final(pk)@.subrange(0, 32),
        mldsa65_key_pair(final(pk)@, final(sk)@),
{
    let (p, s) = pqcrypto_mldsa::mldsa65::keypair();
    pk.copy_from_slice(p.as_bytes());
    sk.copy_from_slice(s.as_bytes());
}

/// Relies on `pqcrypto_mldsa::mldsa65::detached_sign`: the secret key is accepted exactly
/// when it has 4032 bytes (`SecretKey::from_bytes`), and the signing always writes a signature of 3309 bytes.
/// The signature goes to the front of `sig`; the rest of `sig` is untouched.
/// A signature made with a generated secret key is accepted under the public
/// key generated with it (the crate's own sign-then-verify test).
#[verifier::external_body]
pub(crate) fn mldsa65_sign(sig: &mut [u8], msg: &[u8], sk: &[u8]) -> (r: Option<usize>)
    requires
        old(sig)@.len() >= 3309,
    ensures
        r is Some <==> sk@.len() == 4032,
        r is Some ==> r->0 == 3309,
        final(sig)@.len() == old(sig)@.len(),
        r is Some ==> final(sig)@.subrange(r->0 as int, final(sig)@.len() as int)
            == old(sig)@.subrange(r->0 as int, old(sig)@.len() as int),
        r is None ==> final(sig)@ == old(sig)@,
        r is Some ==> forall|pk: Seq<u8>| #[trigger] mldsa65_key_pair(pk, sk@)
            ==> mldsa65_accepts(final(sig)@.subrange(0, r->0 as int), msg@, pk),
{
    let k = pqcrypto_mldsa::mldsa65::SecretKey::from_bytes(sk).ok()?;
    let s = pqcrypto_mldsa::mldsa65::detached_sign(msg, &k);
    let b = s.as_bytes();
    sig[..b.len()].copy_from_slice(b);
    Some(b.len())
}

/// Relies on `pqcrypto_mldsa::mldsa65::verify_detached_signature`: the signature is accepted
/// when it has at most 3309 bytes and the public key when it has 1952 bytes
/// (`from_bytes`); the verdict depends on signature, message and key alone.
#[verifier::external_body]
pub(crate) fn mldsa65_verify(sig: &[u8], msg: &[u8], pk: &[u8]) -> (r: Option<bool>)
    ensures
        r is Some <==> (sig@.len() <= 3309 && pk@.len() == 1952),
        r is Some ==> r->0 == mldsa65_accepts(sig@, msg@, pk@),
{
    let s = pqcrypto_mldsa::mldsa65::DetachedSignature::from_bytes(sig).ok()?;
    let k = pqcrypto_mldsa::mldsa65::PublicKey::from_bytes(pk).ok()?;
    Some(pqcrypto_mldsa::mldsa65::verify_detached_signature(&s, msg, &k).is_ok())
}

/// Whether ML-DSA-87 verification accepts a signature on a message under a
/// public key.
pub uninterp spec fn mldsa87_accepts(sig: Seq<u8>, msg: Seq<u8>, pk: Seq<u8>) -> bool;

/// Whether `pk` and `sk` were generated together by ML-DSA-87 key generation.
pub uninterp spec fn mldsa87_key_pair(pk: Seq<u8>, sk: Seq<u8>) -> bool;

/// Relies on `pqcrypto_mldsa::mldsa87::keypair`: it returns a public key of 2592 bytes and
/// a secret key of 4896 bytes that form a pair, and both begin with the same 32-byte public seed
/// (`pack_pk` and `pack_sk` write `rho` first).
#[verifier::external_body]
pub(crate) fn mldsa87_keypair(pk: &mut [u8], sk: &mut [u8])
    requires
        old(pk)@.len() == 2592,
        old(sk)@.len() == 4896,
    ensures
        final(pk)@.len() == 2592,
        final(sk)@.len() == 4896,
        final(sk)@.subrange(0, 32) == final(pk)@.subrange(0, 32),
        mldsa87_key_pair(final(pk)@, final(sk)@),
{
    let (p, s) = pqcrypto_mldsa::mldsa87::keypair();
    pk.copy_from_slice(p.as_bytes());
    sk.copy_from_slice(s.as_bytes());
}

/// Relies on `pqcrypto_mldsa::mldsa87::detached_sign`: the secret key is accepted exactly
/// when it has 4896 bytes (`SecretKey::from_bytes`), and the signing always writes a signature of 4627 bytes.
/// The signature goes to the front of `sig`; the rest of `sig` is untouched.
/// A signature made with a generated secret key is accepted under the public
/// key generated with it (the crate's own sign-then-verify test).
#[verifier::external_body]
pub(crate) fn mldsa87_sign(sig: &mut [u8], msg: &[u8], sk: &[u8]) -> (r: Option<usize>)
    requires
        old(sig)@.len() >= 4627,
    ensures
        r is Some <==> sk@.len() == 4896,
        r is Some ==> r->0 == 4627,
        final(sig)@.len() == old(sig)@.len(),
        r is Some ==> final(sig)@.subrange(r->0 as int, final(sig)@.len() as int)
            == old(sig)@.subrange(r->0 as int, old(sig)@.len() as int),
        r is None ==> final(sig)@ == old(sig)@,
        r is Some ==> forall|pk: Seq<u8>| #[trigger] mldsa87_key_pair(pk, sk@)
            ==> mldsa87_accepts(final(sig)@.subrange(0, r->0 as int), msg@, pk),
{
    let k = pqcrypto_mldsa::mldsa87::SecretKey::from_bytes(sk).ok()?;
    let s = pqcrypto_mldsa::mldsa87::detached_sign(msg, &k);
    let b = s.as_bytes();
    sig[..b.len()].copy_from_slice(b);
    Some(b.len())
}

/// Relies on `pqcrypto_mldsa::mldsa87::verify_detached_signature`: the signature is accepted
/// when it has at most 4627 bytes and the public key when it has 2592 bytes
/// (`from_bytes`); the verdict depends on signature, message and key alone.
#[verifier::external_body]
pub(crate) fn mldsa87_verify(sig: &[u8], msg: &[u8], pk: &[u8]) -> (r: Option<bool>)
    ensures
        r is Some <==> (sig@.len() <= 4627 && pk@.len() == 2592),
        r is Some ==> r->0 == mldsa87_accepts(sig@, msg@, pk@),
{
    let s = pqcrypto_mldsa::mldsa87::DetachedSignature::from_bytes(sig).ok()?;
    let k = pqcrypto_mldsa::mldsa87::PublicKey::from_bytes(pk).ok()?;
    Some(pqcrypto_mldsa::mldsa87::verify_detached_signature(&s, msg, &k).is_ok())
}

/// Whether Falcon-512 (padded encoding) verification accepts a signature on a message under a
/// public key.
pub uninterp spec fn falcon512_accepts(sig: Seq<u8>, msg: Seq<u8>, pk: Seq<u8>) -> bool;

/// Whether `pk` and `sk` were generated together by Falcon-512 (padded encoding) key generation.
pub uninterp spec fn falcon512_key_pair(pk: Seq<u8>, sk: Seq<u8>) -> bool;

/// Relies on `pqcrypto_falcon::falconpadded512::keypair`: it returns a public key of 897 bytes and
/// a secret key of 1281 bytes that form a pair.
#[verifier::external_body]
pub(crate) fn falcon512_keypair(pk: &mut [u8], sk: &mut [u8])
    requires
        old(pk)@.len() == 897,
        old(sk)@.len() == 1281,
    ensures
        final(pk)@.len() == 897,
        final(sk)@.len() == 1281,
        falcon512_key_pair(final(pk)@, final(sk)@),
{
    let (p, s) = pqcrypto_falcon::falconpadded512::keypair();
    pk.copy_from_slice(p.as_bytes());
    sk.copy_from_slice(s.as_bytes());
}

/// Relies on `pqcrypto_falcon::falconpadded512::detached_sign`: the secret key is accepted exactly
/// when it has 1281 bytes (`SecretKey::from_bytes`), and the signature is 666 bytes long.
/// That holds only for some keys: on a key that does not decode the signer
/// writes nothing, and on some keys that decode it loops forever (no
/// candidate signature is ever short enough). A key that key generation
/// produced decodes and is signed with, so `sk` must be one.
/// The signature goes to the front of `sig`; the rest of `sig` is untouched.
/// A signature made with a generated secret key is accepted under the public
/// key generated with it (the crate's own sign-then-verify test).
#[verifier::external_body]
pub(crate) fn falcon512_sign(sig: &mut [u8], msg: &[u8], sk: &[u8]) -> (r: Option<usize>)
    requires
        old(sig)@.len() >= 666,
        sk@.len() == 1281 ==> exists|pk: Seq<u8>| #[trigger] falcon512_key_pair(pk, sk@),
    ensures
        r is Some <==> sk@.len() == 1281,
        r is Some ==> r->0 == 666,
        final(sig)@.len() == old(sig)@.len(),
        r is Some ==> final(sig)@.subrange(r->0 as int, final(sig)@.len() as int)
            == old(sig)@.subrange(r->0 as int, old(sig)@.len() as int),
        r is None ==> final(sig)@ == old(sig)@,
        r is Some ==> forall|pk: Seq<u8>| #[trigger] falcon512_key_pair(pk, sk@)
            ==> falcon512_accepts(final(sig)@.subrange(0, r->0 as int), msg@, pk),
{
    let k = pqcrypto_falcon::falconpadded512::SecretKey::from_bytes(sk).ok()?;
    let s = pqcrypto_falcon::falconpadded512::detached_sign(msg, &k);
    let b = s.as_bytes();
    sig[..b.len()].copy_from_slice(b);
    Some(b.len())
}

/// Relies on `pqcrypto_falcon::falconpadded512::verify_detached_signature`: the signature is accepted
/// when it has at most 666 bytes and the public key when it has 897 bytes
/// (`from_bytes`); the verdict depends on signature, message and key alone.
#[verifier::external_body]
pub(crate) fn falcon512_verify(sig: &[u8], msg: &[u8], pk: &[u8]) -> (r: Option<bool>)
    ensures
        r is Some <==> (sig@.len() <= 666 && pk@.len() == 897),
        r is Some ==> r->0 == falcon512_accepts(sig@, msg@, pk@),
{
    let s = pqcrypto_falcon::falconpadded512::DetachedSignature::from_bytes(sig).ok()?;
    let k = pqcrypto_falcon::falconpadded512::PublicKey::from_bytes(pk).ok()?;
    Some(pqcrypto_falcon::falconpadded512::verify_detached_signature(&s, msg, &k).is_ok())
}

/// Whether Falcon-1024 (padded encoding) verification accepts a signature on a message under a
/// public key.
pub uninterp spec fn falcon1024_accepts(sig: Seq<u8>, msg: Seq<u8>, pk: Seq<u8>) -> bool;

/// Whether `pk` and `sk` were generated together by Falcon-1024 (padded encoding) key generation.
pub uninterp spec fn falcon1024_key_pair(pk: Seq<u8>, sk: Seq<u8>) -> bool;

/// Relies on `pqcrypto_falcon::falconpadded1024::keypair`: it returns a public key of 1793 bytes and
/// a secret key of 2305 bytes that form a pair.
#[verifier::external_body]
pub(crate) fn falcon1024_keypair(pk: &mut [u8], sk: &mut [u8])
    requires
        old(pk)@.len() == 1793,
        old(sk)@.len() == 2305,
    ensures
        final(pk)@.len() == 1793,
        final(sk)@.len() == 2305,
        falcon1024_key_pair(final(pk)@, final(sk)@),
{
    let (p, s) = pqcrypto_falcon::falconpadded1024::keypair();
    pk.copy_from_slice(p.as_bytes());
    sk.copy_from_slice(s.as_bytes());
}

/// Relies on `pqcrypto_falcon::falconpadded1024::detached_sign`: the secret key is accepted exactly
/// when it has 2305 bytes (`SecretKey::from_bytes`), and the signature is 1280 bytes long.
/// That holds only for some keys: on a key that does not decode the signer
/// writes nothing, and on some keys that decode it loops forever (no
/// candidate signature is ever short enough). A key that key generation
/// produced decodes and is signed with, so `sk` must be one.
/// The signature goes to the front of `sig`; the rest of `sig` is untouched.
/// A signature made with a generated secret key is accepted under the public
/// key generated with it (the crate's own sign-then-verify test).
#[verifier::external_body]
pub(crate) fn falcon1024_sign(sig: &mut [u8], msg: &[u8], sk: &[u8]) -> (r: Option<usize>)
    requires
        old(sig)@.len() >= 1280,
        sk@.len() == 2305 ==> exists|pk: Seq<u8>| #[trigger] falcon1024_key_pair(pk, sk@),
    ensures
        r is Some <==> sk@.len() == 2305,
        r is Some ==> r->0 == 1280,
        final(sig)@.len() == old(sig)@.len(),
        r is Some ==> final(sig)@.subrange(r->0 as int, final(sig)@.len() as int)
            == old(sig)@.subrange(r->0 as int, old(sig)@.len() as int),
        r is None ==> final(sig)@ == old(sig)@,
        r is Some ==> forall|pk: Seq<u8>| #[trigger] falcon1024_key_pair(pk, sk@)
            ==> falcon1024_accepts(final(sig)@.subrange(0, r->0 as int), msg@, pk),
{
    let k = pqcrypto_falcon::falconpadded1024::SecretKey::from_bytes(sk).ok()?;
    let s = pqcrypto_falcon::falconpadded1024::detached_sign(msg, &k);
    let b = s.as_bytes();
    sig[..b.len()].copy_from_slice(b);
    Some(b.len())
}

/// Relies on `pqcrypto_falcon::falconpadded1024::verify_detached_signature`: the signature is accepted
/// when it has at most 1280 bytes and the public key when it has 1793 bytes
/// (`from_bytes`); the verdict depends on signature, message and key alone.
#[verifier::external_body]
pub(crate) fn falcon1024_verify(sig: &[u8], msg: &[u8], pk: &[u8]) -> (r: Option<bool>)
    ensures
        r is Some <==> (sig@.len() <= 1280 && pk@.len() == 1793),
        r is Some ==> r->0 == falcon1024_accepts(sig@, msg@, pk@),
{
    let s = pqcrypto_falcon::falconpadded1024::DetachedSignature::from_bytes(sig).ok()?;
    let k = pqcrypto_falcon::falconpadded1024::PublicKey::from_bytes(pk).ok()?;
    Some(pqcrypto_falcon::falconpadded1024::verify_detached_signature(&s, msg, &k).is_ok())
}

} // verus!
