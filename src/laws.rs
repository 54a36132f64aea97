//! Properties that hold across the operations of every variant.
use vstd::prelude::*;

use crate::descriptor::{KemVariant, SignVariant};
use crate::error::Error;
use crate::kem::{
    encapsulates_to, kem_decapsulate_outcome, kem_encapsulate_outcome, kem_key_pair,
    kem_keypair_outcome, kem_shared_secret, Hqc128, Hqc192, Hqc256, MlKem1024, MlKem512, MlKem768,
};
use crate::sign::{
    sig_accepts, sign_key_pair, sign_keypair_outcome, sign_outcome, signed_by, signs_with,
    verify_outcome, Falcon1024, Falcon512, MlDsa44, MlDsa65, MlDsa87,
};

verus! {

/// Every descriptor has positive lengths, and a shared secret of 32 bytes.
pub proof fn lemma_descriptors_well_formed(k: KemVariant, s: SignVariant)
    ensures
        k.spec_descriptor().wf(),
        k.spec_descriptor().shared_secret_len == 32,
        s.spec_descriptor().wf(),
{
}

/// The length constants of each variant's type are those of its descriptor,
/// the table that the operations check against.
pub proof fn lemma_constants_match_descriptors()
    ensures
        MlKem512::PUBLIC_KEY_LEN == KemVariant::MlKem512.spec_descriptor().public_key_len,
        MlKem512::SECRET_KEY_LEN == KemVariant::MlKem512.spec_descriptor().secret_key_len,
        MlKem512::CIPHERTEXT_LEN == KemVariant::MlKem512.spec_descriptor().ciphertext_len,
        MlKem512::SHARED_SECRET_LEN == KemVariant::MlKem512.spec_descriptor().shared_secret_len,
        MlKem768::PUBLIC_KEY_LEN == KemVariant::MlKem768.spec_descriptor().public_key_len,
        MlKem768::SECRET_KEY_LEN == KemVariant::MlKem768.spec_descriptor().secret_key_len,
        MlKem768::CIPHERTEXT_LEN == KemVariant::MlKem768.spec_descriptor().ciphertext_len,
        MlKem768::SHARED_SECRET_LEN == KemVariant::MlKem768.spec_descriptor().shared_secret_len,
        MlKem1024::PUBLIC_KEY_LEN == KemVariant::MlKem1024.spec_descriptor().public_key_len,
        MlKem1024::SECRET_KEY_LEN == KemVariant::MlKem1024.spec_descriptor().secret_key_len,
        MlKem1024::CIPHERTEXT_LEN == KemVariant::MlKem1024.spec_descriptor().ciphertext_len,
        MlKem1024::SHARED_SECRET_LEN == KemVariant::MlKem1024.spec_descriptor().shared_secret_len,
        Hqc128::PUBLIC_KEY_LEN == KemVariant::Hqc128.spec_descriptor().public_key_len,
        Hqc128::SECRET_KEY_LEN == KemVariant::Hqc128.spec_descriptor().secret_key_len,
        Hqc128::CIPHERTEXT_LEN == KemVariant::Hqc128.spec_descriptor().ciphertext_len,
        Hqc128::SHARED_SECRET_LEN == KemVariant::Hqc128.spec_descriptor().shared_secret_len,
        Hqc192::PUBLIC_KEY_LEN == KemVariant::Hqc192.spec_descriptor().public_key_len,
        Hqc192::SECRET_KEY_LEN == KemVariant::Hqc192.spec_descriptor().secret_key_len,
        Hqc192::CIPHERTEXT_LEN == KemVariant::Hqc192.spec_descriptor().ciphertext_len,
        Hqc192::SHARED_SECRET_LEN == KemVariant::Hqc192.spec_descriptor().shared_secret_len,
        Hqc256::PUBLIC_KEY_LEN == KemVariant::Hqc256.spec_descriptor().public_key_len,
        Hqc256::SECRET_KEY_LEN == KemVariant::Hqc256.spec_descriptor().secret_key_len,
        Hqc256::CIPHERTEXT_LEN == KemVariant::Hqc256.spec_descriptor().ciphertext_len,
        Hqc256::SHARED_SECRET_LEN == KemVariant::Hqc256.spec_descriptor().shared_secret_len,
        MlDsa44::PUBLIC_KEY_LEN == SignVariant::MlDsa44.spec_descriptor().public_key_len,
        MlDsa44::SECRET_KEY_LEN == SignVariant::MlDsa44.spec_descriptor().secret_key_len,
        MlDsa44::SIGNATURE_LEN_MAX == SignVariant::MlDsa44.spec_descriptor().signature_len_max,
        MlDsa65::PUBLIC_KEY_LEN == SignVariant::MlDsa65.spec_descriptor().public_key_len,
        MlDsa65::SECRET_KEY_LEN == SignVariant::MlDsa65.spec_descriptor().secret_key_len,
        MlDsa65::SIGNATURE_LEN_MAX == SignVariant::MlDsa65.spec_descriptor().signature_len_max,
        MlDsa87::PUBLIC_KEY_LEN == SignVariant::MlDsa87.spec_descriptor().public_key_len,
        MlDsa87::SECRET_KEY_LEN == SignVariant::MlDsa87.spec_descriptor().secret_key_len,
        MlDsa87::SIGNATURE_LEN_MAX == SignVariant::MlDsa87.spec_descriptor().signature_len_max,
        Falcon512::PUBLIC_KEY_LEN == SignVariant::Falcon512.spec_descriptor().public_key_len,
        Falcon512::SECRET_KEY_LEN == SignVariant::Falcon512.spec_descriptor().secret_key_len,
        Falcon512::SIGNATURE_LEN_MAX == SignVariant::Falcon512.spec_descriptor().signature_len_max,
        Falcon1024::PUBLIC_KEY_LEN == SignVariant::Falcon1024.spec_descriptor().public_key_len,
        Falcon1024::SECRET_KEY_LEN == SignVariant::Falcon1024.spec_descriptor().secret_key_len,
        Falcon1024::SIGNATURE_LEN_MAX == SignVariant::Falcon1024.spec_descriptor().signature_len_max,
{
}

/// An operation given an output buffer whose length differs from the one
/// its descriptor asks for (for a signature: one shorter than the largest
/// signature) fails with `BufferTooSmall`, whatever the other arguments.
/// The operations' own contracts add that such a call leaves every buffer
/// as it was, and no operation draws on a caller's randomness source.
pub proof fn lemma_output_size_guard(
    k: KemVariant,
    s: SignVariant,
    out1: int,
    out2: int,
    input: int,
    sk: Seq<u8>,
)
    ensures
        (out1 != k.spec_descriptor().public_key_len || out2 != k.spec_descriptor().secret_key_len)
            ==> kem_keypair_outcome(k, out1, out2) == Err::<(), Error>(Error::BufferTooSmall),
        (out1 != k.spec_descriptor().ciphertext_len || out2 != k.spec_descriptor().shared_secret_len)
            ==> kem_encapsulate_outcome(k, out1, out2, input) == Err::<(), Error>(Error::BufferTooSmall),
        out1 != k.spec_descriptor().shared_secret_len
            ==> kem_decapsulate_outcome(k, out1, input, out2) == Err::<(), Error>(Error::BufferTooSmall),
        (out1 != s.spec_descriptor().public_key_len || out2 != s.spec_descriptor().secret_key_len)
            ==> sign_keypair_outcome(s, out1, out2) == Err::<(), Error>(Error::BufferTooSmall),
        out1 < s.spec_descriptor().signature_len_max
            ==> sign_outcome(s, out1, sk) == Err::<usize, Error>(Error::BufferTooSmall),
{
}

/// Round trip: decapsulating, with the secret key of a generated pair, a
/// ciphertext that encapsulation produced for its public key gives the
/// secret that encapsulation produced.
pub proof fn lemma_kem_round_trip(v: KemVariant, pk: Seq<u8>, sk: Seq<u8>, ct: Seq<u8>, ss: Seq<u8>)
    requires
        kem_key_pair(v, pk, sk),
        encapsulates_to(v, pk, ct, ss),
    ensures
        kem_shared_secret(v, ct, sk) == ss,
{
}

/// Sign then verify: a signature made with the secret key of a generated
/// pair, of the variant's signature length, verifies as `Ok(true)` on the
/// same message under the pair's public key.
pub proof fn lemma_sign_then_verify(v: SignVariant, pk: Seq<u8>, sk: Seq<u8>, sig: Seq<u8>, msg: Seq<u8>)
    requires
        sign_key_pair(v, pk, sk),
        pk.len() == v.spec_descriptor().public_key_len,
        sig.len() == v.spec_descriptor().signature_len_max,
        signed_by(v, sig, msg, sk),
    ensures
        verify_outcome(v, sig, msg, pk) == Ok::<bool, Error>(true),
{
    assert(sig_accepts(v, sig, msg, pk));
}

/// The secret key of a generated pair always signs: the signer returns on
/// it, and into a buffer of at least the largest signature length signing
/// gives that length.
pub proof fn lemma_generated_key_signs(v: SignVariant, pk: Seq<u8>, sk: Seq<u8>, sig_len: int)
    requires
        sign_key_pair(v, pk, sk),
        sk.len() == v.spec_descriptor().secret_key_len,
        sig_len >= v.spec_descriptor().signature_len_max,
    ensures
        signs_with(v, sk),
        sign_outcome(v, sig_len, sk) == Ok::<usize, Error>(v.spec_descriptor().signature_len_max),
{
}

} // verus!
