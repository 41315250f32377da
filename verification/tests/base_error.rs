use tss_esapi::constants::BaseError;
use tss_esapi::error::return_code::BaseReturnCode;
use tss_esapi::{Error, WrapperErrorKind};

const INVALID_PARAM: Error = Error::WrapperError(WrapperErrorKind::InvalidParam);

const BASE_ERRORS: [(BaseError, u16, &str); 53] = [
    (BaseError::GeneralFailure, 1, "General failure"),
    (BaseError::NotImplemented, 2, "Not implemented"),
    (BaseError::BadContext, 3, "Bad context"),
    (BaseError::AbiMismatch, 4, "ABI mismatch"),
    (BaseError::BadReference, 5, "Bad reference"),
    (BaseError::InsufficientBuffer, 6, "Insufficient buffer"),
    (BaseError::BadSequence, 7, "Bad sequence"),
    (BaseError::NoConnection, 8, "No connection"),
    (BaseError::TryAgain, 9, "Try again"),
    (BaseError::IoError, 10, "IO error"),
    (BaseError::BadValue, 11, "Bad value"),
    (BaseError::NotPermitted, 12, "Not permitted"),
    (BaseError::InvalidSessions, 13, "Invalid sessions"),
    (BaseError::NoDecryptParam, 14, "No decrypt parameter"),
    (BaseError::NoEncryptParam, 15, "No encrypt parameter"),
    (BaseError::BadSize, 16, "Bad size"),
    (BaseError::MalformedResponse, 17, "Malformed response"),
    (BaseError::InsufficientContext, 18, "Insufficient context"),
    (BaseError::InsufficientResponse, 19, "Insufficient response"),
    (BaseError::IncompatibleTcti, 20, "Incompatible TCTI"),
    (BaseError::NotSupported, 21, "Not supported"),
    (BaseError::BadTctiStructure, 22, "Bad TCTI structure"),
    (BaseError::Memory, 23, "Memory allocation failed"),
    (BaseError::BadTr, 24, "Bad TR"),
    (BaseError::MultipleDecryptSessions, 25, "Multiple decrypt sessions"),
    (BaseError::MultipleEncryptSessions, 26, "Multiple encrypt sessions"),
    (BaseError::RspAuthFailed, 27, "Response authorization failed"),
    (BaseError::NoConfig, 28, "No config"),
    (BaseError::BadPath, 29, "Bad path"),
    (BaseError::NotDeletable, 30, "Not deletable"),
    (BaseError::PathAlreadyExists, 31, "Path already exists"),
    (BaseError::KeyNotFound, 32, "Key not found"),
    (BaseError::SignatureVerificationFailed, 33, "Signature verification failed"),
    (BaseError::HashMismatch, 34, "Hash mismatch"),
    (BaseError::KeyNotDuplicable, 35, "Key not duplicable"),
    (BaseError::PathNotFound, 36, "Path not found"),
    (BaseError::NoCert, 37, "No certificate"),
    (BaseError::NoPcr, 38, "No PCR"),
    (BaseError::PcrNotResettable, 39, "PCR not resettable"),
    (BaseError::BadTemplate, 40, "Bad template"),
    (BaseError::AuthorizationFailed, 41, "Authorization failed"),
    (BaseError::AuthorizationUnknown, 42, "Authorization unknown"),
    (BaseError::NvNotReadable, 43, "NV not readable"),
    (BaseError::NvTooSmall, 44, "NV too small"),
    (BaseError::NvNotWriteable, 45, "NV not writeable"),
    (BaseError::PolicyUnknown, 46, "Policy unknown"),
    (BaseError::NvWrongType, 47, "NV wrong type"),
    (BaseError::NameAlreadyExists, 48, "Name already exists"),
    (BaseError::NoTpm, 49, "No TPM"),
    (BaseError::BadKey, 50, "Bad key"),
    (BaseError::NoHandle, 51, "No handle"),
    (BaseError::NotProvisioned, 52, "Not provisioned"),
    (BaseError::AlreadyProvisioned, 53, "Already provisioned"),
];

#[test]
fn base_error_codes_are_the_numbers_of_the_list() {
    for (error, code, _) in BASE_ERRORS {
        assert_eq!(u16::from(error), code);
        assert_eq!(BaseError::try_from(code), Ok(error));
    }
}

#[test]
fn base_error_decodes_exactly_the_defined_codes() {
    for value in 0..=u16::MAX {
        let decoded = BaseError::try_from(value);
        if (1..=53).contains(&value) {
            let error = decoded.expect("a defined code");
            assert_eq!(u16::from(error), value);
        } else {
            assert_eq!(decoded, Err(INVALID_PARAM));
        }
    }
}

#[test]
fn base_error_round_trips_through_its_code() {
    for (error, _, _) in BASE_ERRORS {
        assert_eq!(BaseError::try_from(u16::from(error)), Ok(error));
    }
}

#[test]
fn base_error_codes_are_distinct() {
    for (i, (_, a, _)) in BASE_ERRORS.iter().enumerate() {
        for (_, b, _) in BASE_ERRORS.iter().skip(i + 1) {
            assert_ne!(a, b);
        }
    }
}

#[test]
fn base_error_refuses_the_neighbours_of_the_range() {
    assert_eq!(BaseError::try_from(0), Err(INVALID_PARAM));
    assert_eq!(BaseError::try_from(54), Err(INVALID_PARAM));
    assert_eq!(BaseError::try_from(0x0100), Err(INVALID_PARAM));
    assert_eq!(BaseError::try_from(u16::MAX), Err(INVALID_PARAM));
}

#[test]
fn base_error_bad_size_is_sixteen() {
    assert_eq!(BaseError::try_from(16), Ok(BaseError::BadSize));
    assert_eq!(u16::from(BaseError::BadSize), 16);
}

#[test]
fn base_error_converts_with_into() {
    let code: u16 = BaseError::InsufficientBuffer.into();
    assert_eq!(code, 6);
    let decoded: Result<BaseError, Error> = 11u16.try_into();
    assert_eq!(decoded, Ok(BaseError::BadValue));
}

#[test]
fn base_return_code_keeps_its_base_error() {
    for (error, code, _) in BASE_ERRORS {
        let return_code = BaseReturnCode::from(error);
        assert_eq!(return_code.base_error(), error);
        assert_eq!(BaseError::from(return_code), error);
        assert_eq!(u16::from(return_code), code);
    }
}

#[test]
fn base_return_code_renders_the_words_of_its_base_error() {
    for (error, _, words) in BASE_ERRORS {
        assert_eq!(BaseReturnCode::from(error).to_string(), words);
    }
}

#[test]
fn base_return_code_renders_bad_size() {
    assert_eq!(BaseReturnCode::from(BaseError::BadSize).to_string(), "Bad size");
}

#[test]
fn base_return_codes_compare_by_base_error() {
    assert_eq!(
        BaseReturnCode::from(BaseError::NoTpm),
        BaseReturnCode::from(BaseError::NoTpm)
    );
    assert_ne!(
        BaseReturnCode::from(BaseError::NoTpm),
        BaseReturnCode::from(BaseError::BadKey)
    );
}

#[test]
fn local_error_wraps_the_kind() {
    assert_eq!(
        Error::local_error(WrapperErrorKind::InvalidParam),
        Error::WrapperError(WrapperErrorKind::InvalidParam)
    );
}
