//! Per-variant byte lengths and the buffer checks made against them.
use vstd::prelude::*;

use crate::error::Error;

verus! {

/// The fixed byte lengths of a key-encapsulation variant.
#[derive(Debug, Clone, Copy, PartialEq, Eq, Structural)]
pub struct KemDescriptor {
    pub public_key_len: usize,
    pub secret_key_len: usize,
    pub ciphertext_len: usize,
    pub shared_secret_len: usize,
}

/// The fixed byte lengths of a signature variant.
#[derive(Debug, Clone, Copy, PartialEq, Eq, Structural)]
pub struct SignDescriptor {
    pub public_key_len: usize,
    pub secret_key_len: usize,
    pub signature_len_max: usize,
}

impl KemDescriptor {
    /// Every length is positive.
    pub open spec fn wf(&self) -> bool {
        &&& self.public_key_len > 0
        &&& self.secret_key_len > 0
        &&& self.ciphertext_len > 0
        &&& self.shared_secret_len > 0
    }
}

impl SignDescriptor {
    /// Every length is positive.
    pub open spec fn wf(&self) -> bool {
        &&& self.public_key_len > 0
        &&& self.secret_key_len > 0
        &&& self.signature_len_max > 0
    }
}

/// The key-encapsulation variants.
#[derive(Debug, Clone, Copy, PartialEq, Eq, Structural)]
pub enum KemVariant {
    MlKem512,
    MlKem768,
    MlKem1024,
    Hqc128,
    Hqc192,
    Hqc256,
}

/// The signature variants.
#[derive(Debug, Clone, Copy, PartialEq, Eq, Structural)]
pub enum SignVariant {
    MlDsa44,
    MlDsa65,
    MlDsa87,
    Falcon512,
    Falcon1024,
}

impl KemVariant {
    /// The size table of the key-encapsulation variants.
    pub open spec fn spec_descriptor(self) -> KemDescriptor {
        match self {
            KemVariant::MlKem512 => KemDescriptor {
                public_key_len: 800,
                secret_key_len: 1632,
                ciphertext_len: 768,
                shared_secret_len: 32,
            },
            KemVariant::MlKem768 => KemDescriptor {
                public_key_len: 1184,
                secret_key_len: 2400,
                ciphertext_len: 1088,
                shared_secret_len: 32,
            },
            KemVariant::MlKem1024 => KemDescriptor {
                public_key_len: 1568,
                secret_key_len: 3168,
                ciphertext_len: 1568,
                shared_secret_len: 32,
            },
            KemVariant::Hqc128 => KemDescriptor {
                public_key_len: 2249,
                secret_key_len: 57,
                ciphertext_len: 4481,
                shared_secret_len: 32,
            },
            KemVariant::Hqc192 => KemDescriptor {
                public_key_len: 4522,
                secret_key_len: 57,
                ciphertext_len: 9026,
                shared_secret_len: 32,
            },
            KemVariant::Hqc256 => KemDescriptor {
                public_key_len: 7245,
                secret_key_len: 57,
                ciphertext_len: 14469,
                shared_secret_len: 32,
            },
        }
    }

    /// The variant's descriptor.
    pub fn descriptor(&self) -> (d: KemDescriptor)
        ensures
            d == self.spec_descriptor(),
            d.wf(),
    {
        match self {
            KemVariant::MlKem512 => KemDescriptor {
                public_key_len: 800,
                secret_key_len: 1632,
                ciphertext_len: 768,
                shared_secret_len: 32,
            },
            KemVariant::MlKem768 => KemDescriptor {
                public_key_len: 1184,
                secret_key_len: 2400,
                ciphertext_len: 1088,
                shared_secret_len: 32,
            },
            KemVariant::MlKem1024 => KemDescriptor {
                public_key_len: 1568,
                secret_key_len: 3168,
                ciphertext_len: 1568,
                shared_secret_len: 32,
            },
            KemVariant::Hqc128 => KemDescriptor {
                public_key_len: 2249,
                secret_key_len: 57,
                ciphertext_len: 4481,
                shared_secret_len: 32,
            },
            KemVariant::Hqc192 => KemDescriptor {
                public_key_len: 4522,
                secret_key_len: 57,
                ciphertext_len: 9026,
                shared_secret_len: 32,
            },
            KemVariant::Hqc256 => KemDescriptor {
                public_key_len: 7245,
                secret_key_len: 57,
                ciphertext_len: 14469,
                shared_secret_len: 32,
            },
        }
    }
}

impl SignVariant {
    /// The size table of the signature variants.
    pub open spec fn spec_descriptor(self) -> SignDescriptor {
        match self {
            SignVariant::MlDsa44 => SignDescriptor {
                public_key_len: 1312,
                secret_key_len: 2560,
                signature_len_max: 2420,
            },
            SignVariant::MlDsa65 => SignDescriptor {
                public_key_len: 1952,
                secret_key_len: 4032,
                signature_len_max: 3309,
            },
            SignVariant::MlDsa87 => SignDescriptor {
                public_key_len: 2592,
                secret_key_len: 4896,
                signature_len_max: 4627,
            },
            SignVariant::Falcon512 => SignDescriptor {
                public_key_len: 897,
                secret_key_len: 1281,
                signature_len_max: 666,
            },
            SignVariant::Falcon1024 => SignDescriptor {
                public_key_len: 1793,
                secret_key_len: 2305,
                signature_len_max: 1280,
            },
        }
    }

    /// The variant's descriptor.
    pub fn descriptor(&self) -> (d: SignDescriptor)
        ensures
            d == self.spec_descriptor(),
            d.wf(),
    {
        match self {
            SignVariant::MlDsa44 => SignDescriptor {
                public_key_len: 1312,
                secret_key_len: 2560,
                signature_len_max: 2420,
            },
            SignVariant::MlDsa65 => SignDescriptor {
                public_key_len: 1952,
                secret_key_len: 4032,
                signature_len_max: 3309,
            },
            SignVariant::MlDsa87 => SignDescriptor {
                public_key_len: 2592,
                secret_key_len: 4896,
                signature_len_max: 4627,
            },
            SignVariant::Falcon512 => SignDescriptor {
                public_key_len: 897,
                secret_key_len: 1281,
                signature_len_max: 666,
            },
            SignVariant::Falcon1024 => SignDescriptor {
                public_key_len: 1793,
                secret_key_len: 2305,
                signature_len_max: 1280,
            },
        }
    }
}

// The size policy: output buffers of fixed size must match exactly, a
// signature buffer must hold at least the largest signature, and input keys
// and ciphertexts must match exactly. Output buffers are checked first.

/// What the checks of a key-pair generation decide.
pub open spec fn keypair_check(pk_len: int, sk_len: int, public_key_len: int, secret_key_len: int) -> Result<(), Error> {
    if pk_len != public_key_len || sk_len != secret_key_len {
        Err(Error::BufferTooSmall)
    } else {
        Ok(())
    }
}

/// What the checks of an encapsulation decide.
pub open spec fn encapsulate_check(d: KemDescriptor, ct_len: int, ss_len: int, pk_len: int) -> Result<(), Error> {
    if ct_len != d.ciphertext_len || ss_len != d.shared_secret_len {
        Err(Error::BufferTooSmall)
    } else if pk_len != d.public_key_len {
        Err(Error::InvalidInput)
    } else {
        Ok(())
    }
}

/// What the checks of a decapsulation decide.
pub open spec fn decapsulate_check(d: KemDescriptor, ss_len: int, ct_len: int, sk_len: int) -> Result<(), Error> {
    if ss_len != d.shared_secret_len {
        Err(Error::BufferTooSmall)
    } else if ct_len != d.ciphertext_len || sk_len != d.secret_key_len {
        Err(Error::InvalidInput)
    } else {
        Ok(())
    }
}

/// What the checks of a signing decide.
pub open spec fn sign_check(d: SignDescriptor, sig_len: int, sk_len: int) -> Result<(), Error> {
    if sig_len < d.signature_len_max {
        Err(Error::BufferTooSmall)
    } else if sk_len != d.secret_key_len {
        Err(Error::InvalidInput)
    } else {
        Ok(())
    }
}

/// What the checks of a verification decide: the key must have its exact
/// length and the signature between one byte and the largest signature.
pub open spec fn verify_check(d: SignDescriptor, sig_len: int, pk_len: int) -> Result<(), Error> {
    if pk_len != d.public_key_len || sig_len == 0 || sig_len > d.signature_len_max {
        Err(Error::InvalidInput)
    } else {
        Ok(())
    }
}

/// Checks the two output buffers of a key-pair generation.
pub fn check_keypair(pk_len: usize, sk_len: usize, public_key_len: usize, secret_key_len: usize) -> (r: Result<(), Error>)
    ensures
        r == keypair_check(pk_len as int, sk_len as int, public_key_len as int, secret_key_len as int),
{
    if pk_len != public_key_len || sk_len != secret_key_len {
        Err(Error::BufferTooSmall)
    } else {
        Ok(())
    }
}

/// Checks the buffers of an encapsulation.
pub fn check_encapsulate(d: &KemDescriptor, ct_len: usize, ss_len: usize, pk_len: usize) -> (r: Result<(), Error>)
    ensures
        r == encapsulate_check(*d, ct_len as int, ss_len as int, pk_len as int),
{
    if ct_len != d.ciphertext_len || ss_len != d.shared_secret_len {
        Err(Error::BufferTooSmall)
    } else if pk_len != d.public_key_len {
        Err(Error::InvalidInput)
    } else {
        Ok(())
    }
}

/// Checks the buffers of a decapsulation.
pub fn check_decapsulate(d: &KemDescriptor, ss_len: usize, ct_len: usize, sk_len: usize) -> (r: Result<(), Error>)
    ensures
        r == decapsulate_check(*d, ss_len as int, ct_len as int, sk_len as int),
{
    if ss_len != d.shared_secret_len {
        Err(Error::BufferTooSmall)
    } else if ct_len != d.ciphertext_len || sk_len != d.secret_key_len {
        Err(Error::InvalidInput)
    } else {
        Ok(())
    }
}

/// Checks the buffers of a signing.
pub fn check_sign(d: &SignDescriptor, sig_len: usize, sk_len: usize) -> (r: Result<(), Error>)
    ensures
        r == sign_check(*d, sig_len as int, sk_len as int),
{
    if sig_len < d.signature_len_max {
        Err(Error::BufferTooSmall)
    } else if sk_len != d.secret_key_len {
        Err(Error::InvalidInput)
    } else {
        Ok(())
    }
}

/// Checks the inputs of a verification.
pub fn check_verify(d: &SignDescriptor, sig_len: usize, pk_len: usize) -> (r: Result<(), Error>)
    ensures
        r == verify_check(*d, sig_len as int, pk_len as int),
{
    if pk_len != d.public_key_len || sig_len == 0 || sig_len > d.signature_len_max {
        Err(Error::InvalidInput)
    } else {
        Ok(())
    }
}

} // verus!
