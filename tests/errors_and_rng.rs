use pqembed::rng::{u32_from_fill, u32_from_le_bytes, u64_from_fill, u64_from_le_bytes};
use pqembed::{features, version, Error, Esp32Rng, HardwareRng, RngCore};

const ALL: [Error; 8] = [
    Error::InvalidInput,
    Error::BufferTooSmall,
    Error::RngFailure,
    Error::VerificationFailed,
    Error::HardwareAccelUnavailable,
    Error::MemoryAllocationFailed,
    Error::UnsupportedOperation,
    Error::InternalError,
];

#[test]
fn test_version_and_features() {
    let version = version();
    let features = features();

    assert!(!version.is_empty(), "Version should not be empty");
    assert!(!features.is_empty(), "Features should not be empty");
    assert_eq!(version, "0.1.0", "Version should match expected value");
    assert_eq!(features, "basic", "Features should match expected value");
}

#[test]
fn test_error_types() {
    let invalid_input = Error::InvalidInput;
    let unsupported_operation = Error::UnsupportedOperation;
    let internal_error = Error::InternalError;
    let rng_failure = Error::RngFailure;
    let verification_failed = Error::VerificationFailed;

    // Test that the error kinds can be created and are distinct
    assert_ne!(invalid_input, unsupported_operation);
    assert_ne!(unsupported_operation, internal_error);
    assert_ne!(internal_error, rng_failure);
    assert_ne!(rng_failure, verification_failed);
}

#[test]
fn error_codes_round_trip() {
    for (i, e) in ALL.iter().enumerate() {
        assert_eq!(e.code() as usize, i + 1);
        assert_eq!(Error::try_from_code(e.code()), Ok(*e));
    }
    for code in [0u8, 9, 10, 128, 255] {
        assert_eq!(Error::try_from_code(code), Err(()));
        assert_eq!(Error::try_from(code), Err(()));
    }
    assert_eq!(Error::try_from(4u8), Ok(Error::VerificationFailed));
}

#[test]
fn error_descriptions() {
    assert_eq!(Error::InvalidInput.description(), "Invalid input parameters");
    assert_eq!(Error::BufferTooSmall.description(), "Buffer too small for operation");
    assert_eq!(Error::RngFailure.description(), "Random number generation failed");
    assert_eq!(Error::VerificationFailed.description(), "Verification failed");
    assert_eq!(Error::HardwareAccelUnavailable.description(), "Hardware acceleration not available");
    assert_eq!(Error::MemoryAllocationFailed.description(), "Memory allocation failed");
    assert_eq!(Error::UnsupportedOperation.description(), "Operation not supported on this platform");
    assert_eq!(Error::InternalError.description(), "Internal error");
}

/// Hands out 1, 2, 3, ... one byte at a time.
struct Counter(u8);

impl RngCore for Counter {
    fn fill_bytes(&mut self, buffer: &mut [u8]) -> Result<(), Error> {
        for b in buffer.iter_mut() {
            self.0 = self.0.wrapping_add(1);
            *b = self.0;
        }
        Ok(())
    }
}

struct Broken;

impl RngCore for Broken {
    fn fill_bytes(&mut self, _buffer: &mut [u8]) -> Result<(), Error> {
        Err(Error::RngFailure)
    }
}

#[test]
fn integers_are_read_little_endian() {
    let mut rng = Counter(0);
    assert_eq!(rng.next_u32(), Ok(0x0403_0201));
    assert_eq!(rng.next_u64(), Ok(0x0c0b_0a09_0807_0605));
    assert_eq!(u32_from_le_bytes(&[0xff, 0, 0, 0x80]), 0x8000_00ff);
    assert_eq!(u32_from_le_bytes(&[0xff; 4]), u32::MAX);
    assert_eq!(u64_from_le_bytes(&[1, 0, 0, 0, 0, 0, 0, 0]), 1);
    assert_eq!(u64_from_le_bytes(&[0xff; 8]), u64::MAX);
    assert_eq!(u64_from_le_bytes(&[0, 0, 0, 0, 0, 0, 0, 0x12]), 0x1200_0000_0000_0000);
}

#[test]
fn rng_failure_is_passed_on() {
    let mut rng = Broken;
    assert_eq!(rng.next_u32(), Err(Error::RngFailure));
    assert_eq!(rng.next_u64(), Err(Error::RngFailure));
}

#[test]
fn hardware_sources_are_absent() {
    assert!(!HardwareRng::is_available());
    let mut hw = HardwareRng::new();
    let mut buf = [7u8; 16];
    assert_eq!(hw.fill_bytes(&mut buf), Err(Error::HardwareAccelUnavailable));
    assert_eq!(buf, [7u8; 16]);
    assert_eq!(hw.next_u32(), Err(Error::HardwareAccelUnavailable));
    let mut esp = Esp32Rng::new();
    assert_eq!(esp.next_u64(), Err(Error::HardwareAccelUnavailable));
}

#[test]
fn os_source_gives_bytes() {
    let mut os = pqembed::OsRng::new();
    let mut a = [0u8; 64];
    let mut b = [0u8; 64];
    assert_eq!(os.fill_bytes(&mut a), Ok(()));
    assert_eq!(os.fill_bytes(&mut b), Ok(()));
    assert_ne!(a, b);
    assert!(os.next_u64().is_ok());
}

#[test]
fn fill_outcomes_become_integers() {
    assert_eq!(u32_from_fill(Ok(()), &[0x78, 0x56, 0x34, 0x12]), Ok(0x1234_5678));
    assert_eq!(u32_from_fill(Err(Error::RngFailure), &[1, 2, 3, 4]), Err(Error::RngFailure));
    assert_eq!(u64_from_fill(Ok(()), &[8, 7, 6, 5, 4, 3, 2, 1]), Ok(0x0102_0304_0506_0708));
    assert_eq!(
        u64_from_fill(Err(Error::HardwareAccelUnavailable), &[0; 8]),
        Err(Error::HardwareAccelUnavailable)
    );
}
