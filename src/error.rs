//! The closed set of failure kinds and their stable numeric codes.
use vstd::prelude::*;

verus! {

/// A failure of one operation of the library.
///
/// Each kind has a stable code in `1..=8` (see [`Error::code`]) so that it can
/// cross a boundary that only carries integers.
#[derive(Debug, Clone, Copy, PartialEq, Eq, Structural)]
pub enum Error {
    /// A malformed or semantically wrong argument: an unknown variant name,
    /// an encoded key or ciphertext of the wrong length.
    InvalidInput,
    /// A caller buffer whose length does not match the variant's descriptor.
    BufferTooSmall,
    /// The randomness source could not produce bytes.
    RngFailure,
    /// A signature or an authenticated decapsulation was rejected.
    VerificationFailed,
    /// A hardware-backed operation was asked for that this platform lacks.
    HardwareAccelUnavailable,
    /// A bounded allocation could not be served.
    MemoryAllocationFailed,
    /// The variant is known but not available in this build.
    UnsupportedOperation,
    /// An internal invariant was violated; unreachable under correct usage.
    InternalError,
}

/// The numeric code of each kind.
pub open spec fn code_of(e: Error) -> u8 {
    match e {
        Error::InvalidInput => 1,
        Error::BufferTooSmall => 2,
        Error::RngFailure => 3,
        Error::VerificationFailed => 4,
        Error::HardwareAccelUnavailable => 5,
        Error::MemoryAllocationFailed => 6,
        Error::UnsupportedOperation => 7,
        Error::InternalError => 8,
    }
}

/// The kind that a code stands for, if any.
pub open spec fn kind_of_code(code: u8) -> Option<Error> {
    if code == 1 {
        Some(Error::InvalidInput)
    } else if code == 2 {
        Some(Error::BufferTooSmall)
    } else if code == 3 {
        Some(Error::RngFailure)
    } else if code == 4 {
        Some(Error::VerificationFailed)
    } else if code == 5 {
        Some(Error::HardwareAccelUnavailable)
    } else if code == 6 {
        Some(Error::MemoryAllocationFailed)
    } else if code == 7 {
        Some(Error::UnsupportedOperation)
    } else if code == 8 {
        Some(Error::InternalError)
    } else {
        None
    }
}

impl Error {
    /// A human-readable description of the kind.
    pub fn description(&self) -> (r: &'static str)
        ensures
            r@ == self.spec_description()@,
    {
        match self {
            Error::InvalidInput => "Invalid input parameters",
            Error::BufferTooSmall => "Buffer too small for operation",
            Error::RngFailure => "Random number generation failed",
            Error::VerificationFailed => "Verification failed",
            Error::HardwareAccelUnavailable => "Hardware acceleration not available",
            Error::MemoryAllocationFailed => "Memory allocation failed",
            Error::UnsupportedOperation => "Operation not supported on this platform",
            Error::InternalError => "Internal error",
        }
    }

    /// The description of each kind, as text.
    pub open spec fn spec_description(&self) -> &'static str {
        match self {
            Error::InvalidInput => "Invalid input parameters",
            Error::BufferTooSmall => "Buffer too small for operation",
            Error::RngFailure => "Random number generation failed",
            Error::VerificationFailed => "Verification failed",
            Error::HardwareAccelUnavailable => "Hardware acceleration not available",
            Error::MemoryAllocationFailed => "Memory allocation failed",
            Error::UnsupportedOperation => "Operation not supported on this platform",
            Error::InternalError => "Internal error",
        }
    }

    /// The stable numeric code of the kind, in `1..=8`.
    pub fn code(&self) -> (r: u8)
        ensures
            r == code_of(*self),
            1 <= r <= 8,
    {
        match self {
            Error::InvalidInput => 1,
            Error::BufferTooSmall => 2,
            Error::RngFailure => 3,
            Error::VerificationFailed => 4,
            Error::HardwareAccelUnavailable => 5,
            Error::MemoryAllocationFailed => 6,
            Error::UnsupportedOperation => 7,
            Error::InternalError => 8,
        }
    }

    /// The kind whose code is `code`; `Err(())` for a code outside `1..=8`.
    pub fn try_from_code(code: u8) -> (r: Result<Error, ()>)
        ensures
            r == match kind_of_code(code) {
                Some(e) => Ok(e),
                None => Err(()),
            },
            r is Ok <==> 1 <= code <= 8,
            r is Ok ==> code_of(r->Ok_0) == code,
    {
        match code {
            1 => Ok(Error::InvalidInput),
            2 => Ok(Error::BufferTooSmall),
            3 => Ok(Error::RngFailure),
            4 => Ok(Error::VerificationFailed),
            5 => Ok(Error::HardwareAccelUnavailable),
            6 => Ok(Error::MemoryAllocationFailed),
            7 => Ok(Error::UnsupportedOperation),
            8 => Ok(Error::InternalError),
            _ => Err(()),
        }
    }
}

impl TryFrom<u8> for Error {
    type Error = ();

    /// The kind whose code is `value`; `Err(())` outside `1..=8`.
    fn try_from(value: u8) -> (r: Result<Error, ()>) {
        Error::try_from_code(value)
    }
}

impl vstd::std_specs::convert::TryFromSpecImpl<u8> for Error {
    open spec fn obeys_try_from_spec() -> bool {
        true
    }

    open spec fn try_from_spec(value: u8) -> Result<Error, ()> {
        match kind_of_code(value) {
            Some(e) => Ok(e),
            None => Err(()),
        }
    }
}

/// Converting a kind to its code and back gives the same kind, and a code
/// outside `1..=8` stands for no kind.
pub proof fn lemma_code_round_trip(e: Error, code: u8)
    ensures
        kind_of_code(code_of(e)) == Some(e),
        1 <= code_of(e) <= 8,
        kind_of_code(code) is None <==> (code < 1 || code > 8),
{
}

} // verus!
