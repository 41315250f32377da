use crate::constants::BaseError;
use vstd::prelude::*;
use vstd::std_specs::convert::FromSpecImpl;
use vstd::string::StringExecFns;

verus! {

/// A return code that is a base error and nothing else: what the layers
/// share.
#[derive(Copy, Clone, Debug, PartialEq, Eq, Hash, Structural)]
pub struct BaseReturnCode {
    base_error: BaseError,
}

impl BaseReturnCode {
    /// The base error of the return code.
    pub closed spec fn spec_base_error(&self) -> BaseError {
        self.base_error
    }

    /// The return code of the base error.
    pub closed spec fn with_base_error(base_error: BaseError) -> BaseReturnCode {
        BaseReturnCode { base_error }
    }

    /// The words for a base error.
    pub open spec fn description(base_error: BaseError) -> Seq<char> {
        match base_error {
            BaseError::GeneralFailure => "General failure"@,
            BaseError::NotImplemented => "Not implemented"@,
            BaseError::BadContext => "Bad context"@,
            BaseError::AbiMismatch => "ABI mismatch"@,
            BaseError::BadReference => "Bad reference"@,
            BaseError::InsufficientBuffer => "Insufficient buffer"@,
            BaseError::BadSequence => "Bad sequence"@,
            BaseError::NoConnection => "No connection"@,
            BaseError::TryAgain => "Try again"@,
            BaseError::IoError => "IO error"@,
            BaseError::BadValue => "Bad value"@,
            BaseError::NotPermitted => "Not permitted"@,
            BaseError::InvalidSessions => "Invalid sessions"@,
            BaseError::NoDecryptParam => "No decrypt parameter"@,
            BaseError::NoEncryptParam => "No encrypt parameter"@,
            BaseError::BadSize => "Bad size"@,
            BaseError::MalformedResponse => "Malformed response"@,
            BaseError::InsufficientContext => "Insufficient context"@,
            BaseError::InsufficientResponse => "Insufficient response"@,
            BaseError::IncompatibleTcti => "Incompatible TCTI"@,
            BaseError::NotSupported => "Not supported"@,
            BaseError::BadTctiStructure => "Bad TCTI structure"@,
            BaseError::Memory => "Memory allocation failed"@,
            BaseError::BadTr => "Bad TR"@,
            BaseError::MultipleDecryptSessions => "Multiple decrypt sessions"@,
            BaseError::MultipleEncryptSessions => "Multiple encrypt sessions"@,
            BaseError::RspAuthFailed => "Response authorization failed"@,
            BaseError::NoConfig => "No config"@,
            BaseError::BadPath => "Bad path"@,
            BaseError::NotDeletable => "Not deletable"@,
            BaseError::PathAlreadyExists => "Path already exists"@,
            BaseError::KeyNotFound => "Key not found"@,
            BaseError::SignatureVerificationFailed => "Signature verification failed"@,
            BaseError::HashMismatch => "Hash mismatch"@,
            BaseError::KeyNotDuplicable => "Key not duplicable"@,
            BaseError::PathNotFound => "Path not found"@,
            BaseError::NoCert => "No certificate"@,
            BaseError::NoPcr => "No PCR"@,
            BaseError::PcrNotResettable => "PCR not resettable"@,
            BaseError::BadTemplate => "Bad template"@,
            BaseError::AuthorizationFailed => "Authorization failed"@,
            BaseError::AuthorizationUnknown => "Authorization unknown"@,
            BaseError::NvNotReadable => "NV not readable"@,
            BaseError::NvTooSmall => "NV too small"@,
            BaseError::NvNotWriteable => "NV not writeable"@,
            BaseError::PolicyUnknown => "Policy unknown"@,
            BaseError::NvWrongType => "NV wrong type"@,
            BaseError::NameAlreadyExists => "Name already exists"@,
            BaseError::NoTpm => "No TPM"@,
            BaseError::BadKey => "Bad key"@,
            BaseError::NoHandle => "No handle"@,
            BaseError::NotProvisioned => "Not provisioned"@,
            BaseError::AlreadyProvisioned => "Already provisioned"@,
        }
    }

    /// The text of the return code: the words for its base error.
    pub open spec fn text(self) -> Seq<char> {
        Self::description(self.base_error())
    }

    /// A return code is its base error and nothing more.
    pub proof fn lemma_base_error_determines(a: BaseReturnCode, b: BaseReturnCode)
        requires
            a.base_error() == b.base_error(),
        ensures
            a == b,
    {
    }

    /// The base error of the return code of a base error is that base error.
    pub proof fn lemma_base_error_of_with_base_error(base_error: BaseError)
        ensures
            Self::with_base_error(base_error).base_error() == base_error,
    {
    }

    /// The return code of the base error of a return code is that return
    /// code.
    pub proof fn lemma_with_base_error_of_base_error(code: BaseReturnCode)
        ensures
            Self::with_base_error(code.base_error()) == code,
    {
    }

    /// The base error of the return code.
    #[verifier::when_used_as_spec(spec_base_error)]
    pub fn base_error(&self) -> (base_error: BaseError)
        ensures
            base_error == self.spec_base_error(),
    {
        self.base_error
    }

    /// Renders the return code as the words for its base error.
    pub fn to_string(&self) -> (text: String)
        ensures
            text@ == self.text(),
    {
        let words = match self.base_error {
            BaseError::GeneralFailure => "General failure",
            BaseError::NotImplemented => "Not implemented",
            BaseError::BadContext => "Bad context",
            BaseError::AbiMismatch => "ABI mismatch",
            BaseError::BadReference => "Bad reference",
            BaseError::InsufficientBuffer => "Insufficient buffer",
            BaseError::BadSequence => "Bad sequence",
            BaseError::NoConnection => "No connection",
            BaseError::TryAgain => "Try again",
            BaseError::IoError => "IO error",
            BaseError::BadValue => "Bad value",
            BaseError::NotPermitted => "Not permitted",
            BaseError::InvalidSessions => "Invalid sessions",
            BaseError::NoDecryptParam => "No decrypt parameter",
            BaseError::NoEncryptParam => "No encrypt parameter",
            BaseError::BadSize => "Bad size",
            BaseError::MalformedResponse => "Malformed response",
            BaseError::InsufficientContext => "Insufficient context",
            BaseError::InsufficientResponse => "Insufficient response",
            BaseError::IncompatibleTcti => "Incompatible TCTI",
            BaseError::NotSupported => "Not supported",
            BaseError::BadTctiStructure => "Bad TCTI structure",
            BaseError::Memory => "Memory allocation failed",
            BaseError::BadTr => "Bad TR",
            BaseError::MultipleDecryptSessions => "Multiple decrypt sessions",
            BaseError::MultipleEncryptSessions => "Multiple encrypt sessions",
            BaseError::RspAuthFailed => "Response authorization failed",
            BaseError::NoConfig => "No config",
            BaseError::BadPath => "Bad path",
            BaseError::NotDeletable => "Not deletable",
            BaseError::PathAlreadyExists => "Path already exists",
            BaseError::KeyNotFound => "Key not found",
            BaseError::SignatureVerificationFailed => "Signature verification failed",
            BaseError::HashMismatch => "Hash mismatch",
            BaseError::KeyNotDuplicable => "Key not duplicable",
            BaseError::PathNotFound => "Path not found",
            BaseError::NoCert => "No certificate",
            BaseError::NoPcr => "No PCR",
            BaseError::PcrNotResettable => "PCR not resettable",
            BaseError::BadTemplate => "Bad template",
            BaseError::AuthorizationFailed => "Authorization failed",
            BaseError::AuthorizationUnknown => "Authorization unknown",
            BaseError::NvNotReadable => "NV not readable",
            BaseError::NvTooSmall => "NV too small",
            BaseError::NvNotWriteable => "NV not writeable",
            BaseError::PolicyUnknown => "Policy unknown",
            BaseError::NvWrongType => "NV wrong type",
            BaseError::NameAlreadyExists => "Name already exists",
            BaseError::NoTpm => "No TPM",
            BaseError::BadKey => "Bad key",
            BaseError::NoHandle => "No handle",
            BaseError::NotProvisioned => "Not provisioned",
            BaseError::AlreadyProvisioned => "Already provisioned",
        };
        String::from_str(words)
    }
}

impl FromSpecImpl<BaseError> for BaseReturnCode {
    open spec fn obeys_from_spec() -> bool {
        true
    }

    open spec fn from_spec(base_error: BaseError) -> BaseReturnCode {
        BaseReturnCode::with_base_error(base_error)
    }
}

impl From<BaseError> for BaseReturnCode {
    /// The return code of the base error.
    fn from(base_error: BaseError) -> (code: BaseReturnCode)
        ensures
            code == BaseReturnCode::with_base_error(base_error),
            code.base_error() == base_error,
    {
        BaseReturnCode { base_error }
    }
}

impl FromSpecImpl<BaseReturnCode> for BaseError {
    open spec fn obeys_from_spec() -> bool {
        true
    }

    open spec fn from_spec(code: BaseReturnCode) -> BaseError {
        code.base_error()
    }
}

impl From<BaseReturnCode> for BaseError {
    /// The base error of the return code.
    fn from(code: BaseReturnCode) -> (base_error: BaseError)
        ensures
            base_error == code.base_error(),
    {
        code.base_error
    }
}

impl FromSpecImpl<BaseReturnCode> for u16 {
    open spec fn obeys_from_spec() -> bool {
        true
    }

    open spec fn from_spec(code: BaseReturnCode) -> u16 {
        code.base_error().code()
    }
}

impl From<BaseReturnCode> for u16 {
    /// Encodes the return code as the code of its base error.
    fn from(code: BaseReturnCode) -> (value: u16)
        ensures
            value == code.base_error().code(),
    {
        code.base_error.into()
    }
}

} // verus!
