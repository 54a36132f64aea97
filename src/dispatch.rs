//! Runtime selection of a variant by name.
//!
//! Names are lower case without separators ("mlkem512", "hqc128",
//! "mldsa44", "falcon1024"). A name that the asked family does not know is
//! `InvalidInput`; a known variant that this build cannot serve is
//! `UnsupportedOperation`. The dispatcher checks no sizes itself: it sizes
//! the buffers it allocates from the variant's descriptor and leaves every
//! check to the operation it selects.
use vstd::prelude::*;
use vstd::string::*;

use crate::descriptor::{KemVariant, SignVariant};
use crate::error::Error;
use crate::kem::{
    encapsulates_to, holds_public_key, kem_decapsulate_outcome, kem_encapsulate_outcome,
    kem_key_pair, kem_keypair_outcome, kem_shared_secret, Hqc128, Hqc192, Hqc256, MlKem1024,
    MlKem512, MlKem768,
};
use crate::sign::{
    keys_share_seed, sign_key_pair, sign_keypair_outcome, sign_outcome, signed_by, signs_with,
    verify_outcome, Falcon1024, Falcon512, MlDsa44, MlDsa65, MlDsa87,
};

verus! {

/// The ML-KEM variant of a name.
pub open spec fn mlkem_named(name: Seq<char>) -> Option<KemVariant> {
    if name == "mlkem512"@ {
        Some(KemVariant::MlKem512)
    } else if name == "mlkem768"@ {
        Some(KemVariant::MlKem768)
    } else if name == "mlkem1024"@ {
        Some(KemVariant::MlKem1024)
    } else {
        None
    }
}

/// The HQC variant of a name.
pub open spec fn hqc_named(name: Seq<char>) -> Option<KemVariant> {
    if name == "hqc128"@ {
        Some(KemVariant::Hqc128)
    } else if name == "hqc192"@ {
        Some(KemVariant::Hqc192)
    } else if name == "hqc256"@ {
        Some(KemVariant::Hqc256)
    } else {
        None
    }
}

/// The ML-DSA variant of a name.
pub open spec fn mldsa_named(name: Seq<char>) -> Option<SignVariant> {
    if name == "mldsa44"@ {
        Some(SignVariant::MlDsa44)
    } else if name == "mldsa65"@ {
        Some(SignVariant::MlDsa65)
    } else if name == "mldsa87"@ {
        Some(SignVariant::MlDsa87)
    } else {
        None
    }
}

/// The Falcon variant of a name.
pub open spec fn falcon_named(name: Seq<char>) -> Option<SignVariant> {
    if name == "falcon512"@ {
        Some(SignVariant::Falcon512)
    } else if name == "falcon1024"@ {
        Some(SignVariant::Falcon1024)
    } else {
        None
    }
}

/// The key-encapsulation variant of a name, of either family.
pub open spec fn kem_named(name: Seq<char>) -> Option<KemVariant> {
    if mlkem_named(name) is Some {
        mlkem_named(name)
    } else {
        hqc_named(name)
    }
}

/// The signature variant of a name, of either family.
pub open spec fn sign_named(name: Seq<char>) -> Option<SignVariant> {
    if mldsa_named(name) is Some {
        mldsa_named(name)
    } else {
        falcon_named(name)
    }
}

/// Whether two strings hold the same characters.
fn same_text(a: &str, b: &str) -> (r: bool)
    ensures
        r == (a@ == b@),
{
    let n = a.unicode_len();
    if n != b.unicode_len() {
        return false;
    }
    let mut i: usize = 0;
    while i < n
        invariant
            n == a@.len(),
            n == b@.len(),
            i <= n,
            forall|j: int| 0 <= j < i ==> a@[j] == b@[j],
        decreases n - i,
    {
        if a.get_char(i) != b.get_char(i) {
            return false;
        }
        i += 1;
    }
    assert(a@ =~= b@);
    true
}

/// Looks up an ML-KEM variant by name.
pub fn mlkem_from_name(name: &str) -> (r: Option<KemVariant>)
    ensures
        r == mlkem_named(name@),
{
    if same_text(name, "mlkem512") {
        Some(KemVariant::MlKem512)
    } else if same_text(name, "mlkem768") {
        Some(KemVariant::MlKem768)
    } else if same_text(name, "mlkem1024") {
        Some(KemVariant::MlKem1024)
    } else {
        None
    }
}

/// Looks up an HQC variant by name.
pub fn hqc_from_name(name: &str) -> (r: Option<KemVariant>)
    ensures
        r == hqc_named(name@),
{
    if same_text(name, "hqc128") {
        Some(KemVariant::Hqc128)
    } else if same_text(name, "hqc192") {
        Some(KemVariant::Hqc192)
    } else if same_text(name, "hqc256") {
        Some(KemVariant::Hqc256)
    } else {
        None
    }
}

/// Looks up an ML-DSA variant by name.
pub fn mldsa_from_name(name: &str) -> (r: Option<SignVariant>)
    ensures
        r == mldsa_named(name@),
{
    if same_text(name, "mldsa44") {
        Some(SignVariant::MlDsa44)
    } else if same_text(name, "mldsa65") {
        Some(SignVariant::MlDsa65)
    } else if same_text(name, "mldsa87") {
        Some(SignVariant::MlDsa87)
    } else {
        None
    }
}

/// Looks up a Falcon variant by name.
pub fn falcon_from_name(name: &str) -> (r: Option<SignVariant>)
    ensures
        r == falcon_named(name@),
{
    if same_text(name, "falcon512") {
        Some(SignVariant::Falcon512)
    } else if same_text(name, "falcon1024") {
        Some(SignVariant::Falcon1024)
    } else {
        None
    }
}

impl KemVariant {
    /// Looks up a key-encapsulation variant of either family by name.
    pub fn from_name(name: &str) -> (r: Option<KemVariant>)
        ensures
            r == kem_named(name@),
    {
        match mlkem_from_name(name) {
            Some(v) => Some(v),
            None => hqc_from_name(name),
        }
    }

    /// Generates a key pair of this variant into `pk` and `sk`.
    pub fn keypair(&self, pk: &mut [u8], sk: &mut [u8]) -> (r: Result<(), Error>)
        ensures
            r == kem_keypair_outcome(*self, old(pk)@.len() as int, old(sk)@.len() as int),
            final(pk)@.len() == old(pk)@.len(),
            final(sk)@.len() == old(sk)@.len(),
            r is Err ==> (final(pk)@ == old(pk)@ && final(sk)@ == old(sk)@),
            r is Ok ==> holds_public_key(*self, final(pk)@, final(sk)@),
            r is Ok ==> kem_key_pair(*self, final(pk)@, final(sk)@),
    {
        match self {
            KemVariant::MlKem512 => MlKem512::keypair(pk, sk),
            KemVariant::MlKem768 => MlKem768::keypair(pk, sk),
            KemVariant::MlKem1024 => MlKem1024::keypair(pk, sk),
            KemVariant::Hqc128 => Hqc128::keypair(pk, sk),
            KemVariant::Hqc192 => Hqc192::keypair(pk, sk),
            KemVariant::Hqc256 => Hqc256::keypair(pk, sk),
        }
    }

    /// Encapsulates a fresh shared secret of this variant to `pk`.
    pub fn encapsulate(&self, ct: &mut [u8], ss: &mut [u8], pk: &[u8]) -> (r: Result<(), Error>)
        ensures
            r == kem_encapsulate_outcome(*self, old(ct)@.len() as int, old(ss)@.len() as int, pk@.len() as int),
            final(ct)@.len() == old(ct)@.len(),
            final(ss)@.len() == old(ss)@.len(),
            r is Err ==> (final(ct)@ == old(ct)@ && final(ss)@ == old(ss)@),
            r is Ok ==> encapsulates_to(*self, pk@, final(ct)@, final(ss)@),
    {
        match self {
            KemVariant::MlKem512 => MlKem512::encapsulate(ct, ss, pk),
            KemVariant::MlKem768 => MlKem768::encapsulate(ct, ss, pk),
            KemVariant::MlKem1024 => MlKem1024::encapsulate(ct, ss, pk),
            KemVariant::Hqc128 => Hqc128::encapsulate(ct, ss, pk),
            KemVariant::Hqc192 => Hqc192::encapsulate(ct, ss, pk),
            KemVariant::Hqc256 => Hqc256::encapsulate(ct, ss, pk),
        }
    }

    /// Recovers into `ss` the shared secret that `ct` carries for `sk`.
    pub fn decapsulate(&self, ss: &mut [u8], ct: &[u8], sk: &[u8]) -> (r: Result<(), Error>)
        ensures
            r == kem_decapsulate_outcome(*self, old(ss)@.len() as int, ct@.len() as int, sk@.len() as int),
            final(ss)@.len() == old(ss)@.len(),
            r is Err ==> final(ss)@ == old(ss)@,
            r is Ok ==> final(ss)@ == kem_shared_secret(*self, ct@, sk@),
    {
        match self {
            KemVariant::MlKem512 => MlKem512::decapsulate(ss, ct, sk),
            KemVariant::MlKem768 => MlKem768::decapsulate(ss, ct, sk),
            KemVariant::MlKem1024 => MlKem1024::decapsulate(ss, ct, sk),
            KemVariant::Hqc128 => Hqc128::decapsulate(ss, ct, sk),
            KemVariant::Hqc192 => Hqc192::decapsulate(ss, ct, sk),
            KemVariant::Hqc256 => Hqc256::decapsulate(ss, ct, sk),
        }
    }
}

impl SignVariant {
    /// Looks up a signature variant of either family by name.
    pub fn from_name(name: &str) -> (r: Option<SignVariant>)
        ensures
            r == sign_named(name@),
    {
        match mldsa_from_name(name) {
            Some(v) => Some(v),
            None => falcon_from_name(name),
        }
    }

    /// Generates a key pair of this variant into `pk` and `sk`.
    pub fn keypair(&self, pk: &mut [u8], sk: &mut [u8]) -> (r: Result<(), Error>)
        ensures
            r == sign_keypair_outcome(*self, old(pk)@.len() as int, old(sk)@.len() as int),
            final(pk)@.len() == old(pk)@.len(),
            final(sk)@.len() == old(sk)@.len(),
            r is Err ==> (final(pk)@ == old(pk)@ && final(sk)@ == old(sk)@),
            r is Ok ==> keys_share_seed(*self, final(pk)@, final(sk)@),
            r is Ok ==> sign_key_pair(*self, final(pk)@, final(sk)@),
            r is Ok ==> signs_with(*self, final(sk)@),
    {
        match self {
            SignVariant::MlDsa44 => MlDsa44::keypair(pk, sk),
            SignVariant::MlDsa65 => MlDsa65::keypair(pk, sk),
            SignVariant::MlDsa87 => MlDsa87::keypair(pk, sk),
            SignVariant::Falcon512 => Falcon512::keypair(pk, sk),
            SignVariant::Falcon1024 => Falcon1024::keypair(pk, sk),
        }
    }

    /// Signs `msg` with `sk` into the front of `sig`; returns the length.
    pub fn sign(&self, sig: &mut [u8], msg: &[u8], sk: &[u8]) -> (r: Result<usize, Error>)
        requires
            signs_with(*self, sk@),
        ensures
            r == sign_outcome(*self, old(sig)@.len() as int, sk@),
            final(sig)@.len() == old(sig)@.len(),
            r is Err ==> final(sig)@ == old(sig)@,
            r is Ok ==> final(sig)@.subrange(r->Ok_0 as int, final(sig)@.len() as int)
                == old(sig)@.subrange(r->Ok_0 as int, old(sig)@.len() as int),
            r is Ok ==> signed_by(*self, final(sig)@.subrange(0, r->Ok_0 as int), msg@, sk@),
    {
        match self {
            SignVariant::MlDsa44 => MlDsa44::sign(sig, msg, sk),
            SignVariant::MlDsa65 => MlDsa65::sign(sig, msg, sk),
            SignVariant::MlDsa87 => MlDsa87::sign(sig, msg, sk),
            SignVariant::Falcon512 => Falcon512::sign(sig, msg, sk),
            SignVariant::Falcon1024 => Falcon1024::sign(sig, msg, sk),
        }
    }

    /// Verifies the signature `sig` on `msg` under `pk`.
    pub fn verify(&self, sig: &[u8], msg: &[u8], pk: &[u8]) -> (r: Result<bool, Error>)
        ensures
            r == verify_outcome(*self, sig@, msg@, pk@),
    {
        match self {
            SignVariant::MlDsa44 => MlDsa44::verify(sig, msg, pk),
            SignVariant::MlDsa65 => MlDsa65::verify(sig, msg, pk),
            SignVariant::MlDsa87 => MlDsa87::verify(sig, msg, pk),
            SignVariant::Falcon512 => Falcon512::verify(sig, msg, pk),
            SignVariant::Falcon1024 => Falcon1024::verify(sig, msg, pk),
        }
    }
}

} // verus!
