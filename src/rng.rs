//! The randomness capability: a source that fills byte buffers, and the
//! integers read from what it draws.
//!
//! Integers are read little-endian: the first byte drawn is the least
//! significant. A deterministic source therefore gives the same integers on
//! every platform.
use vstd::prelude::*;

use crate::error::Error;

verus! {

/// The value of bytes read little-endian.
pub open spec fn le_value(bytes: Seq<u8>) -> int
    decreases bytes.len(),
{
    if bytes.len() == 0 {
        0
    } else {
        bytes[0] + 256 * le_value(bytes.drop_first())
    }
}

/// Reads four bytes as a little-endian `u32`.
pub fn u32_from_le_bytes(b: &[u8; 4]) -> (r: u32)
    ensures
        r as int == le_value(b@),
{
    proof {
        reveal_with_fuel(le_value, 5);
        assert(b@.drop_first().drop_first().drop_first().drop_first() =~= Seq::<u8>::empty());
    }
    b[0] as u32 + 256 * (b[1] as u32 + 256 * (b[2] as u32 + 256 * b[3] as u32))
}

/// Reads eight bytes as a little-endian `u64`.
pub fn u64_from_le_bytes(b: &[u8; 8]) -> (r: u64)
    ensures
        r as int == le_value(b@),
{
    proof {
        reveal_with_fuel(le_value, 9);
        assert(b@.drop_first().drop_first().drop_first().drop_first().drop_first().drop_first()
            .drop_first().drop_first() =~= Seq::<u8>::empty());
    }
    b[0] as u64 + 256 * (b[1] as u64 + 256 * (b[2] as u64 + 256 * (b[3] as u64 + 256 * (b[4] as u64
        + 256 * (b[5] as u64 + 256 * (b[6] as u64 + 256 * b[7] as u64))))))
}

/// What one fill of a buffer, which then held `bytes`, gives as an integer:
/// the bytes read little-endian, or the fill's own error.
pub open spec fn drawn(fill: Result<(), Error>, bytes: Seq<u8>) -> Result<int, Error> {
    match fill {
        Ok(_) => Ok(le_value(bytes)),
        Err(e) => Err(e),
    }
}

/// The `u32` that a fill of four bytes gives.
pub fn u32_from_fill(fill: Result<(), Error>, buf: &[u8; 4]) -> (r: Result<u32, Error>)
    ensures
        match drawn(fill, buf@) {
            Ok(v) => r is Ok && r->Ok_0 as int == v,
            Err(e) => r == Err::<u32, Error>(e),
        },
{
    match fill {
        Ok(()) => Ok(u32_from_le_bytes(buf)),
        Err(e) => Err(e),
    }
}

/// The `u64` that a fill of eight bytes gives.
pub fn u64_from_fill(fill: Result<(), Error>, buf: &[u8; 8]) -> (r: Result<u64, Error>)
    ensures
        match drawn(fill, buf@) {
            Ok(v) => r is Ok && r->Ok_0 as int == v,
            Err(e) => r == Err::<u64, Error>(e),
        },
{
    match fill {
        Ok(()) => Ok(u64_from_le_bytes(buf)),
        Err(e) => Err(e),
    }
}

/// A source of cryptographically suitable random bytes.
///
/// What `fill_bytes` writes, and whether it fails, is the implementation's
/// own; the integer helpers make one fill and pass its error on unchanged.
pub trait RngCore {
    /// Fills `buffer` with random bytes, or fails (`RngFailure`, or
    /// `HardwareAccelUnavailable` for a hardware source that is absent).
    fn fill_bytes(&mut self, buffer: &mut [u8]) -> (r: Result<(), Error>)
        ensures
            final(buffer)@.len() == old(buffer)@.len(),
    ;

    /// Draws four bytes with one fill and reads them little-endian; a failed
    /// fill's error is returned as it is (see [`u32_from_fill`]).
    fn next_u32(&mut self) -> (r: Result<u32, Error>) {
        let mut buf = [0u8; 4];
        let fill = self.fill_bytes(&mut buf);
        u32_from_fill(fill, &buf)
    }

    /// Draws eight bytes with one fill and reads them little-endian; a failed
    /// fill's error is returned as it is (see [`u64_from_fill`]).
    fn next_u64(&mut self) -> (r: Result<u64, Error>) {
        let mut buf = [0u8; 8];
        let fill = self.fill_bytes(&mut buf);
        u64_from_fill(fill, &buf)
    }
}

/// Relies on `getrandom::fill`: it fills the whole buffer from the operating
/// system's random source, or reports an error.
#[verifier::external_body]
fn os_fill(buffer: &mut [u8]) -> (filled: bool)
    ensures
        final(buffer)@.len() == old(buffer)@.len(),
{
    getrandom::fill(buffer).is_ok()
}

/// The operating system's entropy source, for hosted builds.
pub struct OsRng;

impl OsRng {
    /// A handle on the source.
    pub fn new() -> (r: OsRng) {
        OsRng
    }
}

impl RngCore for OsRng {
    fn fill_bytes(&mut self, buffer: &mut [u8]) -> (r: Result<(), Error>)
        ensures
            r is Err ==> r == Err::<(), Error>(Error::RngFailure),
    {
        if os_fill(buffer) {
            Ok(())
        } else {
            Err(Error::RngFailure)
        }
    }
}

/// The true random number generator of a Cortex-M microcontroller.
///
/// No peripheral driver is linked into this build, so the source reports
/// itself unavailable and every draw fails with `HardwareAccelUnavailable`.
pub struct HardwareRng;

impl HardwareRng {
    /// A handle on the peripheral.
    pub fn new() -> (r: HardwareRng) {
        HardwareRng
    }

    /// Whether the peripheral can be used in this build.
    pub fn is_available() -> (r: bool)
        ensures
            !r,
    {
        false
    }
}

impl RngCore for HardwareRng {
    fn fill_bytes(&mut self, buffer: &mut [u8]) -> (r: Result<(), Error>)
        ensures
            r == Err::<(), Error>(Error::HardwareAccelUnavailable),
            final(buffer)@ == old(buffer)@,
    {
        Err(Error::HardwareAccelUnavailable)
    }
}

/// The random number generator of an ESP32.
///
/// No peripheral driver is linked into this build, so every draw fails with
/// `HardwareAccelUnavailable`.
pub struct Esp32Rng;

impl Esp32Rng {
    /// A handle on the peripheral.
    pub fn new() -> (r: Esp32Rng) {
        Esp32Rng
    }
}

impl RngCore for Esp32Rng {
    fn fill_bytes(&mut self, buffer: &mut [u8]) -> (r: Result<(), Error>)
        ensures
            r == Err::<(), Error>(Error::HardwareAccelUnavailable),
            final(buffer)@ == old(buffer)@,
    {
        Err(Error::HardwareAccelUnavailable)
    }
}

} // verus!
