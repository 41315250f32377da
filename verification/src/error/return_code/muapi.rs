use crate::constants::BaseError;
use crate::error::return_code::base::BaseReturnCode;
use crate::error::{Error, Result, WrapperErrorKind};
use vstd::prelude::*;
use vstd::std_specs::convert::{FromSpecImpl, TryFromSpecImpl};

verus! {

/// A return code of the MUAPI layer, the layer that marshals and unmarshals:
/// one of the five base errors that this layer can report.
#[derive(Copy, Clone, Debug, PartialEq, Eq, Hash, Structural)]
pub struct MuapiReturnCode {
    base_error: BaseError,
}

impl MuapiReturnCode {
    /// Whether the MUAPI layer can report the base error.
    pub open spec fn permits(base_error: BaseError) -> bool {
        ||| base_error == BaseError::GeneralFailure
        ||| base_error == BaseError::BadReference
        ||| base_error == BaseError::BadSize
        ||| base_error == BaseError::BadValue
        ||| base_error == BaseError::InsufficientBuffer
    }

    /// The base error of the return code.
    pub closed spec fn spec_base_error(&self) -> BaseError {
        self.base_error
    }

    /// The return code with the given base error.
    pub closed spec fn with_base_error(base_error: BaseError) -> MuapiReturnCode {
        MuapiReturnCode { base_error }
    }

    /// Whether the layer can report the base error of the return code: true
    /// of every return code that a program holds.
    #[verifier::type_invariant]
    pub open spec fn is_valid(self) -> bool {
        Self::permits(self.base_error())
    }

    /// What restricting a base error to this layer gives: the return code
    /// with that base error where the layer can report it, and `InvalidParam`
    /// where it cannot.
    pub open spec fn restrict(base_error: BaseError) -> Result<MuapiReturnCode> {
        if Self::permits(base_error) {
            Ok(Self::with_base_error(base_error))
        } else {
            Err(Error::WrapperError(WrapperErrorKind::InvalidParam))
        }
    }

    /// What decoding `value` gives: the base error with that code,
    /// restricted to this layer. A value that is no code and the code of a
    /// base error of another layer are refused alike.
    pub open spec fn decode(value: u16) -> Result<MuapiReturnCode> {
        match BaseError::decode(value) {
            Ok(base_error) => Self::restrict(base_error),
            Err(error) => Err(error),
        }
    }

    /// The code of the return code: that of its base error.
    pub open spec fn encode(self) -> u16 {
        self.base_error().code()
    }

    /// A return code is its base error and nothing more.
    pub proof fn lemma_base_error_determines(a: MuapiReturnCode, b: MuapiReturnCode)
        requires
            a.base_error() == b.base_error(),
        ensures
            a == b,
    {
    }

    /// The base error of the return code with a base error is that base
    /// error.
    pub proof fn lemma_base_error_of_with_base_error(base_error: BaseError)
        ensures
            Self::with_base_error(base_error).base_error() == base_error,
    {
    }

    /// The return code with the base error of a return code is that return
    /// code.
    pub proof fn lemma_with_base_error_of_base_error(code: MuapiReturnCode)
        ensures
            Self::with_base_error(code.base_error()) == code,
    {
    }

    /// The layer accepts the code of a base error exactly where it can
    /// report that base error, and then decodes to it; the code of every
    /// other base error it refuses.
    pub proof fn lemma_decode_accepts_permitted(base_error: BaseError)
        ensures
            Self::decode(base_error.code()) is Ok <==> Self::permits(base_error),
            Self::decode(base_error.code()) matches Ok(code) ==> code.base_error() == base_error,
            !Self::permits(base_error) ==> Self::decode(base_error.code()) == Err::<
                MuapiReturnCode,
                Error,
            >(Error::WrapperError(WrapperErrorKind::InvalidParam)),
    {
    }

    /// The layer accepts five values: 1, 5, 6, 11 and 16.
    pub proof fn lemma_accepted_values(value: u16)
        ensures
            Self::decode(value) is Ok <==> {
                ||| value == 1
                ||| value == 5
                ||| value == 6
                ||| value == 11
                ||| value == 16
            },
    {
    }

    /// Decoding undoes encoding, for every return code that the layer can
    /// report.
    pub proof fn lemma_decode_inverts_encode(code: MuapiReturnCode)
        requires
            code.is_valid(),
        ensures
            Self::decode(code.encode()) == Ok::<MuapiReturnCode, Error>(code),
    {
    }

    /// Encoding undoes decoding, for every value that the layer accepts, and
    /// what decoding gives is a return code that the layer can report.
    pub proof fn lemma_encode_inverts_decode(value: u16)
        ensures
            Self::decode(value) matches Ok(code) ==> code.encode() == value && code.is_valid(),
    {
    }

    /// The base error of the return code.
    #[verifier::when_used_as_spec(spec_base_error)]
    pub fn base_error(&self) -> (base_error: BaseError)
        ensures
            base_error == self.spec_base_error(),
            Self::permits(base_error),
    {
        proof {
            use_type_invariant(self);
        }
        self.base_error
    }

    /// Renders the return code as the words for its base error.
    pub fn to_string(&self) -> (text: String)
        ensures
            text@ == BaseReturnCode::description(self.base_error()),
    {
        BaseReturnCode::from(*self).to_string()
    }
}

impl FromSpecImpl<MuapiReturnCode> for BaseReturnCode {
    open spec fn obeys_from_spec() -> bool {
        true
    }

    open spec fn from_spec(code: MuapiReturnCode) -> BaseReturnCode {
        BaseReturnCode::with_base_error(code.base_error())
    }
}

impl From<MuapiReturnCode> for BaseReturnCode {
    /// Forgets the layer: the base return code with the same base error.
    fn from(code: MuapiReturnCode) -> (base: BaseReturnCode)
        ensures
            base == BaseReturnCode::with_base_error(code.base_error()),
            base.base_error() == code.base_error(),
    {
        code.base_error.into()
    }
}

impl TryFromSpecImpl<BaseReturnCode> for MuapiReturnCode {
    open spec fn obeys_try_from_spec() -> bool {
        true
    }

    open spec fn try_from_spec(base: BaseReturnCode) -> Result<MuapiReturnCode> {
        MuapiReturnCode::restrict(base.base_error())
    }
}

impl TryFrom<BaseReturnCode> for MuapiReturnCode {
    type Error = Error;

    /// Restricts a base return code to this layer: succeeds exactly where
    /// the layer can report its base error.
    fn try_from(base: BaseReturnCode) -> (restricted: Result<MuapiReturnCode>)
        ensures
            restricted == MuapiReturnCode::restrict(base.base_error()),
            restricted is Ok <==> MuapiReturnCode::permits(base.base_error()),
            restricted matches Ok(code) ==> code.base_error() == base.base_error(),
            restricted matches Err(error) ==> error == Error::WrapperError(
                WrapperErrorKind::InvalidParam,
            ),
    {
        MuapiReturnCode::try_from(BaseError::from(base))
    }
}

impl TryFromSpecImpl<u16> for MuapiReturnCode {
    open spec fn obeys_try_from_spec() -> bool {
        true
    }

    open spec fn try_from_spec(value: u16) -> Result<MuapiReturnCode> {
        MuapiReturnCode::decode(value)
    }
}

impl TryFrom<u16> for MuapiReturnCode {
    type Error = Error;

    /// Decodes a code: succeeds exactly on the codes of the five base errors
    /// that the layer can report, with the return code of that base error.
    fn try_from(value: u16) -> (decoded: Result<MuapiReturnCode>)
        ensures
            decoded == MuapiReturnCode::decode(value),
            decoded is Ok <==> {
                ||| value == 1
                ||| value == 5
                ||| value == 6
                ||| value == 11
                ||| value == 16
            },
            decoded matches Ok(code) ==> code.base_error().code() == value
                && MuapiReturnCode::permits(code.base_error()),
            decoded matches Err(error) ==> error == Error::WrapperError(
                WrapperErrorKind::InvalidParam,
            ),
    {
        match BaseError::try_from(value) {
            Ok(base_error) => MuapiReturnCode::try_from(base_error),
            Err(error) => Err(error),
        }
    }
}

impl FromSpecImpl<MuapiReturnCode> for u16 {
    open spec fn obeys_from_spec() -> bool {
        true
    }

    open spec fn from_spec(code: MuapiReturnCode) -> u16 {
        code.encode()
    }
}

impl From<MuapiReturnCode> for u16 {
    /// Encodes the return code as the code of its base error.
    fn from(code: MuapiReturnCode) -> (value: u16)
        ensures
            value == code.encode(),
            MuapiReturnCode::decode(value) == Ok::<MuapiReturnCode, Error>(code),
    {
        proof {
            use_type_invariant(code);
        }
        BaseReturnCode::from(code).into()
    }
}

impl TryFromSpecImpl<BaseError> for MuapiReturnCode {
    open spec fn obeys_try_from_spec() -> bool {
        true
    }

    open spec fn try_from_spec(base_error: BaseError) -> Result<MuapiReturnCode> {
        MuapiReturnCode::restrict(base_error)
    }
}

impl TryFrom<BaseError> for MuapiReturnCode {
    type Error = Error;

    /// Restricts a base error to this layer: succeeds exactly where the
    /// layer can report it.
    fn try_from(base_error: BaseError) -> (restricted: Result<MuapiReturnCode>)
        ensures
            restricted == MuapiReturnCode::restrict(base_error),
            restricted is Ok <==> MuapiReturnCode::permits(base_error),
            restricted matches Ok(code) ==> code.base_error() == base_error,
            restricted matches Err(error) ==> error == Error::WrapperError(
                WrapperErrorKind::InvalidParam,
            ),
    {
        match base_error {
            BaseError::GeneralFailure
            | BaseError::BadReference
            | BaseError::BadSize
            | BaseError::BadValue
            | BaseError::InsufficientBuffer => Ok(MuapiReturnCode { base_error }),
            _ => Err(Error::local_error(WrapperErrorKind::InvalidParam)),
        }
    }
}

impl FromSpecImpl<MuapiReturnCode> for BaseError {
    open spec fn obeys_from_spec() -> bool {
        true
    }

    open spec fn from_spec(code: MuapiReturnCode) -> BaseError {
        code.base_error()
    }
}

impl From<MuapiReturnCode> for BaseError {
    /// The base error of the return code.
    fn from(code: MuapiReturnCode) -> (base_error: BaseError)
        ensures
            base_error == code.base_error(),
            MuapiReturnCode::permits(base_error),
    {
        proof {
            use_type_invariant(code);
        }
        code.base_error
    }
}

} // verus!
