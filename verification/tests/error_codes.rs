//! Kernel status-word mapping: every known code maps to exactly one
//! variant, zero to success, and unknown codes are reported distinctly.

use hel::Time;
use hel::result::{CodeClass, Error, classify_code, hel_check};

#[test]
fn success_code_is_ok() {
    assert_eq!(hel_check(0), Ok(()));
    assert_eq!(classify_code(0), CodeClass::Success);
}

#[test]
fn each_error_code_maps_to_its_variant() {
    let expected = [
        (1, Error::IllegalSyscall),
        (2, Error::IllegalArgs),
        (3, Error::IllegalState),
        (4, Error::UnsupportedOperation),
        (5, Error::OutOfBounds),
        (6, Error::QueueTooSmall),
        (7, Error::Cancelled),
        (8, Error::NoDescriptor),
        (9, Error::BadDescriptor),
        (10, Error::ThreadTerminated),
        (11, Error::TransmissionMismatch),
        (12, Error::LaneShutdown),
        (13, Error::EndOfLane),
        (14, Error::Dismissed),
        (15, Error::BufferTooSmall),
        (16, Error::Fault),
        (17, Error::RemoteFault),
        (18, Error::NoHardwareSupport),
        (19, Error::NoMemory),
        (20, Error::AlreadyExists),
    ];
    for (code, variant) in expected {
        assert_eq!(hel_check(code), Err(variant));
        assert_eq!(classify_code(code), CodeClass::Failure(variant));
        assert_eq!(Error::from_code(code), Some(variant));
        assert_eq!(variant.code(), code);
    }
}

#[test]
fn unknown_codes_are_reported_distinctly() {
    assert_eq!(classify_code(21), CodeClass::Unknown(21));
    assert_eq!(classify_code(9999), CodeClass::Unknown(9999));
    assert_eq!(Error::from_code(21), None);
    assert_eq!(Error::from_code(0), None);
}

#[test]
fn messages_describe_the_variants() {
    assert_eq!(Error::IllegalSyscall.message(), "Illegal syscall");
    assert_eq!(Error::Cancelled.message(), "Cancelled");
    assert_eq!(Error::EndOfLane.message(), "End of lane");
    assert_eq!(Error::AlreadyExists.message(), "Already exists");
}

#[test]
fn time_arithmetic_is_exact() {
    let t = Time::from_nanos(1_000);
    assert_eq!(t.nanos(), 1_000);
    assert_eq!(t.plus_nanos(500).nanos(), 1_500);
    assert_eq!(t.minus_nanos(250).nanos(), 750);
}
