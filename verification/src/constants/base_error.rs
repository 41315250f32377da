use crate::error::{Error, Result, WrapperErrorKind};
use vstd::prelude::*;
use vstd::std_specs::convert::{FromSpecImpl, TryFromSpecImpl};

verus! {

/// The base errors: the failures that every layer of the software stack
/// reports under the same 16-bit code.
#[derive(Copy, Clone, Debug, PartialEq, Eq, Hash, Structural)]
pub enum BaseError {
    /// Catch-all for a failure that has no code of its own.
    GeneralFailure,
    /// The functionality that was called is not implemented.
    NotImplemented,
    /// A context structure is malformed.
    BadContext,
    /// The ABI version handed in is not the ABI version of the module called.
    AbiMismatch,
    /// A reference that must be present is missing.
    BadReference,
    /// A buffer is too small for what it has to hold.
    InsufficientBuffer,
    /// A function was called out of order.
    BadSequence,
    /// The connection to the next lower layer could not be made.
    NoConnection,
    /// The operation timed out and has to be called again to complete.
    TryAgain,
    /// Input or output failed.
    IoError,
    /// A parameter has a value that is not accepted.
    BadValue,
    /// The operation is not permitted.
    NotPermitted,
    /// Sessions were handed to a command that takes none, or not that many.
    InvalidSessions,
    /// A decrypt session was given to a command without a parameter to decrypt.
    NoDecryptParam,
    /// An encrypt session was given to a command without a parameter to encrypt.
    NoEncryptParam,
    /// A parameter has the wrong size.
    BadSize,
    /// The response is malformed.
    MalformedResponse,
    /// The context is not large enough.
    InsufficientContext,
    /// The response is shorter than it has to be.
    InsufficientResponse,
    /// The version of the TCTI is unknown or cannot be used.
    IncompatibleTcti,
    /// The functionality is not supported.
    NotSupported,
    /// The TCTI context is malformed.
    BadTctiStructure,
    /// Memory could not be allocated.
    Memory,
    /// An ESYS_TR handle is not valid.
    BadTr,
    /// More than one session has the decrypt attribute.
    MultipleDecryptSessions,
    /// More than one session has the encrypt attribute.
    MultipleEncryptSessions,
    /// The HMAC of the response did not verify.
    RspAuthFailed,
    /// No configuration is available.
    NoConfig,
    /// The path is not valid.
    BadPath,
    /// The object cannot be deleted.
    NotDeletable,
    /// The path is already taken.
    PathAlreadyExists,
    /// No key was found.
    KeyNotFound,
    /// The signature did not verify.
    SignatureVerificationFailed,
    /// The hashes differ.
    HashMismatch,
    /// The key cannot be duplicated.
    KeyNotDuplicable,
    /// The path was not found.
    PathNotFound,
    /// No certificate is available.
    NoCert,
    /// No PCR is available.
    NoPcr,
    /// The PCR cannot be reset.
    PcrNotResettable,
    /// The template is not valid.
    BadTemplate,
    /// The authorization failed.
    AuthorizationFailed,
    /// The authorization is unknown.
    AuthorizationUnknown,
    /// The NV index cannot be read.
    NvNotReadable,
    /// The NV index is too small.
    NvTooSmall,
    /// The NV index cannot be written.
    NvNotWriteable,
    /// The policy is unknown.
    PolicyUnknown,
    /// The NV index has the wrong type.
    NvWrongType,
    /// The name is already taken.
    NameAlreadyExists,
    /// No TPM is available.
    NoTpm,
    /// The key is not valid.
    BadKey,
    /// No handle is available.
    NoHandle,
    /// Provisioning has not been done.
    NotProvisioned,
    /// Provisioning has been done already.
    AlreadyProvisioned,
}

impl BaseError {
    /// The code of this base error.
    pub open spec fn code(self) -> u16 {
        match self {
            BaseError::GeneralFailure => 1,
            BaseError::NotImplemented => 2,
            BaseError::BadContext => 3,
            BaseError::AbiMismatch => 4,
            BaseError::BadReference => 5,
            BaseError::InsufficientBuffer => 6,
            BaseError::BadSequence => 7,
            BaseError::NoConnection => 8,
            BaseError::TryAgain => 9,
            BaseError::IoError => 10,
            BaseError::BadValue => 11,
            BaseError::NotPermitted => 12,
            BaseError::InvalidSessions => 13,
            BaseError::NoDecryptParam => 14,
            BaseError::NoEncryptParam => 15,
            BaseError::BadSize => 16,
            BaseError::MalformedResponse => 17,
            BaseError::InsufficientContext => 18,
            BaseError::InsufficientResponse => 19,
            BaseError::IncompatibleTcti => 20,
            BaseError::NotSupported => 21,
            BaseError::BadTctiStructure => 22,
            BaseError::Memory => 23,
            BaseError::BadTr => 24,
            BaseError::MultipleDecryptSessions => 25,
            BaseError::MultipleEncryptSessions => 26,
            BaseError::RspAuthFailed => 27,
            BaseError::NoConfig => 28,
            BaseError::BadPath => 29,
            BaseError::NotDeletable => 30,
            BaseError::PathAlreadyExists => 31,
            BaseError::KeyNotFound => 32,
            BaseError::SignatureVerificationFailed => 33,
            BaseError::HashMismatch => 34,
            BaseError::KeyNotDuplicable => 35,
            BaseError::PathNotFound => 36,
            BaseError::NoCert => 37,
            BaseError::NoPcr => 38,
            BaseError::PcrNotResettable => 39,
            BaseError::BadTemplate => 40,
            BaseError::AuthorizationFailed => 41,
            BaseError::AuthorizationUnknown => 42,
            BaseError::NvNotReadable => 43,
            BaseError::NvTooSmall => 44,
            BaseError::NvNotWriteable => 45,
            BaseError::PolicyUnknown => 46,
            BaseError::NvWrongType => 47,
            BaseError::NameAlreadyExists => 48,
            BaseError::NoTpm => 49,
            BaseError::BadKey => 50,
            BaseError::NoHandle => 51,
            BaseError::NotProvisioned => 52,
            BaseError::AlreadyProvisioned => 53,
        }
    }

    /// The base error with the code `value`, where there is one.
    pub open spec fn with_code(value: u16) -> Option<BaseError> {
        match value {
            1 => Some(BaseError::GeneralFailure),
            2 => Some(BaseError::NotImplemented),
            3 => Some(BaseError::BadContext),
            4 => Some(BaseError::AbiMismatch),
            5 => Some(BaseError::BadReference),
            6 => Some(BaseError::InsufficientBuffer),
            7 => Some(BaseError::BadSequence),
            8 => Some(BaseError::NoConnection),
            9 => Some(BaseError::TryAgain),
            10 => Some(BaseError::IoError),
            11 => Some(BaseError::BadValue),
            12 => Some(BaseError::NotPermitted),
            13 => Some(BaseError::InvalidSessions),
            14 => Some(BaseError::NoDecryptParam),
            15 => Some(BaseError::NoEncryptParam),
            16 => Some(BaseError::BadSize),
            17 => Some(BaseError::MalformedResponse),
            18 => Some(BaseError::InsufficientContext),
            19 => Some(BaseError::InsufficientResponse),
            20 => Some(BaseError::IncompatibleTcti),
            21 => Some(BaseError::NotSupported),
            22 => Some(BaseError::BadTctiStructure),
            23 => Some(BaseError::Memory),
            24 => Some(BaseError::BadTr),
            25 => Some(BaseError::MultipleDecryptSessions),
            26 => Some(BaseError::MultipleEncryptSessions),
            27 => Some(BaseError::RspAuthFailed),
            28 => Some(BaseError::NoConfig),
            29 => Some(BaseError::BadPath),
            30 => Some(BaseError::NotDeletable),
            31 => Some(BaseError::PathAlreadyExists),
            32 => Some(BaseError::KeyNotFound),
            33 => Some(BaseError::SignatureVerificationFailed),
            34 => Some(BaseError::HashMismatch),
            35 => Some(BaseError::KeyNotDuplicable),
            36 => Some(BaseError::PathNotFound),
            37 => Some(BaseError::NoCert),
            38 => Some(BaseError::NoPcr),
            39 => Some(BaseError::PcrNotResettable),
            40 => Some(BaseError::BadTemplate),
            41 => Some(BaseError::AuthorizationFailed),
            42 => Some(BaseError::AuthorizationUnknown),
            43 => Some(BaseError::NvNotReadable),
            44 => Some(BaseError::NvTooSmall),
            45 => Some(BaseError::NvNotWriteable),
            46 => Some(BaseError::PolicyUnknown),
            47 => Some(BaseError::NvWrongType),
            48 => Some(BaseError::NameAlreadyExists),
            49 => Some(BaseError::NoTpm),
            50 => Some(BaseError::BadKey),
            51 => Some(BaseError::NoHandle),
            52 => Some(BaseError::NotProvisioned),
            53 => Some(BaseError::AlreadyProvisioned),
            _ => None,
        }
    }

    /// Whether `value` is the code of a base error.
    pub open spec fn is_code(value: u16) -> bool {
        Self::with_code(value) is Some
    }

    /// What decoding `value` gives: the base error with that code, and
    /// `InvalidParam` where no base error has it.
    pub open spec fn decode(value: u16) -> Result<BaseError> {
        match Self::with_code(value) {
            Some(error) => Ok(error),
            None => Err(Error::WrapperError(WrapperErrorKind::InvalidParam)),
        }
    }

    /// No two base errors share a code.
    pub proof fn lemma_code_is_injective(a: BaseError, b: BaseError)
        requires
            a.code() == b.code(),
        ensures
            a == b,
    {
    }

    /// `with_code` is `code` read backwards: it finds a base error for a
    /// value exactly where the value is the code of that base error.
    pub proof fn lemma_with_code_inverts_code(error: BaseError, value: u16)
        ensures
            Self::with_code(value) == Some(error) <==> error.code() == value,
    {
    }

    /// A value is a code exactly where some base error has it.
    pub proof fn lemma_is_code(value: u16)
        ensures
            Self::is_code(value) <==> exists|error: BaseError| #[trigger] error.code() == value,
    {
        if let Some(found) = Self::with_code(value) {
            assert(found.code() == value);
        }
    }

    /// The codes are the numbers from 1 to 53.
    pub proof fn lemma_codes_are_contiguous(value: u16)
        ensures
            Self::is_code(value) <==> 1 <= value <= 53,
    {
    }

    /// Decoding succeeds exactly on the codes, and on nothing else.
    pub proof fn lemma_decode_accepts_codes(value: u16)
        ensures
            Self::decode(value) is Ok <==> Self::is_code(value),
            Self::decode(value) is Err ==> Self::decode(value) == Err::<BaseError, Error>(
                Error::WrapperError(WrapperErrorKind::InvalidParam),
            ),
    {
    }

    /// Decoding undoes encoding.
    pub proof fn lemma_decode_inverts_code(error: BaseError)
        ensures
            Self::decode(error.code()) == Ok::<BaseError, Error>(error),
    {
    }

    /// Encoding undoes decoding.
    pub proof fn lemma_code_inverts_decode(value: u16)
        ensures
            Self::decode(value) matches Ok(error) ==> error.code() == value,
    {
    }
}

impl FromSpecImpl<BaseError> for u16 {
    open spec fn obeys_from_spec() -> bool {
        true
    }

    open spec fn from_spec(error: BaseError) -> u16 {
        error.code()
    }
}

impl From<BaseError> for u16 {
    /// Encodes a base error as its code.
    fn from(error: BaseError) -> (code: u16)
        ensures
            code == error.code(),
            BaseError::decode(code) == Ok::<BaseError, Error>(error),
    {
        match error {
            BaseError::GeneralFailure => 1,
            BaseError::NotImplemented => 2,
            BaseError::BadContext => 3,
            BaseError::AbiMismatch => 4,
            BaseError::BadReference => 5,
            BaseError::InsufficientBuffer => 6,
            BaseError::BadSequence => 7,
            BaseError::NoConnection => 8,
            BaseError::TryAgain => 9,
            BaseError::IoError => 10,
            BaseError::BadValue => 11,
            BaseError::NotPermitted => 12,
            BaseError::InvalidSessions => 13,
            BaseError::NoDecryptParam => 14,
            BaseError::NoEncryptParam => 15,
            BaseError::BadSize => 16,
            BaseError::MalformedResponse => 17,
            BaseError::InsufficientContext => 18,
            BaseError::InsufficientResponse => 19,
            BaseError::IncompatibleTcti => 20,
            BaseError::NotSupported => 21,
            BaseError::BadTctiStructure => 22,
            BaseError::Memory => 23,
            BaseError::BadTr => 24,
            BaseError::MultipleDecryptSessions => 25,
            BaseError::MultipleEncryptSessions => 26,
            BaseError::RspAuthFailed => 27,
            BaseError::NoConfig => 28,
            BaseError::BadPath => 29,
            BaseError::NotDeletable => 30,
            BaseError::PathAlreadyExists => 31,
            BaseError::KeyNotFound => 32,
            BaseError::SignatureVerificationFailed => 33,
            BaseError::HashMismatch => 34,
            BaseError::KeyNotDuplicable => 35,
            BaseError::PathNotFound => 36,
            BaseError::NoCert => 37,
            BaseError::NoPcr => 38,
            BaseError::PcrNotResettable => 39,
            BaseError::BadTemplate => 40,
            BaseError::AuthorizationFailed => 41,
            BaseError::AuthorizationUnknown => 42,
            BaseError::NvNotReadable => 43,
            BaseError::NvTooSmall => 44,
            BaseError::NvNotWriteable => 45,
            BaseError::PolicyUnknown => 46,
            BaseError::NvWrongType => 47,
            BaseError::NameAlreadyExists => 48,
            BaseError::NoTpm => 49,
            BaseError::BadKey => 50,
            BaseError::NoHandle => 51,
            BaseError::NotProvisioned => 52,
            BaseError::AlreadyProvisioned => 53,
        }
    }
}

impl TryFromSpecImpl<u16> for BaseError {
    open spec fn obeys_try_from_spec() -> bool {
        true
    }

    open spec fn try_from_spec(value: u16) -> Result<BaseError> {
        BaseError::decode(value)
    }
}

impl TryFrom<u16> for BaseError {
    type Error = Error;

    /// Decodes a code: succeeds exactly on the codes of the base errors,
    /// with the error that has the code.
    fn try_from(value: u16) -> (decoded: Result<BaseError>)
        ensures
            decoded == BaseError::decode(value),
            decoded is Ok <==> exists|error: BaseError| #[trigger] error.code() == value,
            decoded matches Ok(error) ==> error.code() == value,
            decoded matches Err(error) ==> error == Error::WrapperError(
                WrapperErrorKind::InvalidParam,
            ),
    {
        proof {
            BaseError::lemma_is_code(value);
        }
        match value {
            1 => Ok(BaseError::GeneralFailure),
            2 => Ok(BaseError::NotImplemented),
            3 => Ok(BaseError::BadContext),
            4 => Ok(BaseError::AbiMismatch),
            5 => Ok(BaseError::BadReference),
            6 => Ok(BaseError::InsufficientBuffer),
            7 => Ok(BaseError::BadSequence),
            8 => Ok(BaseError::NoConnection),
            9 => Ok(BaseError::TryAgain),
            10 => Ok(BaseError::IoError),
            11 => Ok(BaseError::BadValue),
            12 => Ok(BaseError::NotPermitted),
            13 => Ok(BaseError::InvalidSessions),
            14 => Ok(BaseError::NoDecryptParam),
            15 => Ok(BaseError::NoEncryptParam),
            16 => Ok(BaseError::BadSize),
            17 => Ok(BaseError::MalformedResponse),
            18 => Ok(BaseError::InsufficientContext),
            19 => Ok(BaseError::InsufficientResponse),
            20 => Ok(BaseError::IncompatibleTcti),
            21 => Ok(BaseError::NotSupported),
            22 => Ok(BaseError::BadTctiStructure),
            23 => Ok(BaseError::Memory),
            24 => Ok(BaseError::BadTr),
            25 => Ok(BaseError::MultipleDecryptSessions),
            26 => Ok(BaseError::MultipleEncryptSessions),
            27 => Ok(BaseError::RspAuthFailed),
            28 => Ok(BaseError::NoConfig),
            29 => Ok(BaseError::BadPath),
            30 => Ok(BaseError::NotDeletable),
            31 => Ok(BaseError::PathAlreadyExists),
            32 => Ok(BaseError::KeyNotFound),
            33 => Ok(BaseError::SignatureVerificationFailed),
            34 => Ok(BaseError::HashMismatch),
            35 => Ok(BaseError::KeyNotDuplicable),
            36 => Ok(BaseError::PathNotFound),
            37 => Ok(BaseError::NoCert),
            38 => Ok(BaseError::NoPcr),
            39 => Ok(BaseError::PcrNotResettable),
            40 => Ok(BaseError::BadTemplate),
            41 => Ok(BaseError::AuthorizationFailed),
            42 => Ok(BaseError::AuthorizationUnknown),
            43 => Ok(BaseError::NvNotReadable),
            44 => Ok(BaseError::NvTooSmall),
            45 => Ok(BaseError::NvNotWriteable),
            46 => Ok(BaseError::PolicyUnknown),
            47 => Ok(BaseError::NvWrongType),
            48 => Ok(BaseError::NameAlreadyExists),
            49 => Ok(BaseError::NoTpm),
            50 => Ok(BaseError::BadKey),
            51 => Ok(BaseError::NoHandle),
            52 => Ok(BaseError::NotProvisioned),
            53 => Ok(BaseError::AlreadyProvisioned),
            _ => Err(Error::local_error(WrapperErrorKind::InvalidParam)),
        }
    }
}

} // verus!
