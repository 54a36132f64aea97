//! Post-quantum key encapsulation and signatures behind one buffer contract.
//!
//! Every operation takes caller-owned byte buffers, checks their lengths
//! against the variant's descriptor before anything else happens, and only
//! then hands the bytes to the cryptographic backend. Nothing is allocated
//! by the typed operations of [`kem`] and [`sign`]; the name-keyed
//! [`interface`] allocates the outputs it returns.
use vstd::prelude::*;

pub mod backend;
pub mod descriptor;
pub mod dispatch;
pub mod error;
pub mod interface;
pub mod kat;
pub mod kem;
pub mod laws;
pub mod rng;
pub mod sign;

pub use descriptor::{KemDescriptor, KemVariant, SignDescriptor, SignVariant};
pub use error::Error;
pub use interface::PqcInterface;
pub use kem::{Hqc128, Hqc192, Hqc256, HqcKem128, MlKem1024, MlKem512, MlKem768};
pub use rng::{Esp32Rng, HardwareRng, OsRng, RngCore};
pub use sign::{Falcon1024, Falcon512, MlDsa44, MlDsa65, MlDsa87};

verus! {

/// The library's version.
pub fn version() -> (r: &'static str)
    ensures
        r@ == "0.1.0"@,
{
    "0.1.0"
}

/// The set of optional features built in.
pub fn features() -> (r: &'static str)
    ensures
        r@ == "basic"@,
{
    "basic"
}

} // verus!
