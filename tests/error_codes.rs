use aaudio::{wrap_result, Error};

const NAMED: [(i32, Error); 15] = [
    (-899, Error::Disconnected),
    (-898, Error::IllegalArgument),
    (-895, Error::InvalidState),
    (-892, Error::InvalidHandle),
    (-890, Error::Unimplemented),
    (-889, Error::Unavailable),
    (-888, Error::NoFreeHandles),
    (-887, Error::NoMemory),
    (-886, Error::Null),
    (-885, Error::Timeout),
    (-884, Error::WouldBlock),
    (-883, Error::InvalidFormat),
    (-882, Error::OutOfRange),
    (-881, Error::NoService),
    (-880, Error::InvalidRate),
];

#[test]
fn every_defined_code_maps_to_its_variant() {
    for (code, err) in NAMED.iter() {
        assert_eq!(Error::from_code(*code), *err);
        assert_eq!(err.code(), *code);
    }
}

#[test]
fn unrecognized_negative_codes_are_kept() {
    for code in [-1, -500, -879, -891, -893, -894, -896, -897, -900, i32::MIN] {
        assert_eq!(Error::from_code(code), Error::Unknown(code));
        assert_eq!(Error::Unknown(code).code(), code);
    }
}

#[test]
fn wrap_result_splits_on_sign() {
    assert_eq!(wrap_result(0), Ok(()));
    assert_eq!(wrap_result(7), Ok(()));
    assert_eq!(wrap_result(-895), Err(Error::InvalidState));
    assert_eq!(wrap_result(-3), Err(Error::Unknown(-3)));
}

#[test]
fn messages_of_named_errors() {
    assert_eq!(Error::Disconnected.message(), "The audio device was disconnected");
    assert_eq!(
        Error::InvalidState.message(),
        "The requested operation is not appropriate for the current state of AAudio."
    );
    assert_eq!(Error::NoMemory.message(), "Memory could not be allocated");
    assert_eq!(
        Error::InvalidRate.message(),
        "The requested sample rate was not supported."
    );
}

#[test]
fn message_of_unknown_error_carries_the_code() {
    assert_eq!(Error::Unknown(-5).message(), "Error code -5");
    assert_eq!(Error::Unknown(1234).message(), "Error code 1234");
    assert_eq!(Error::Unknown(0).message(), "Error code 0");
}
