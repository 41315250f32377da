use crate::error::{Error, Result, WrapperErrorKind};
use vstd::prelude::*;
use vstd::std_specs::convert::{FromSpecImpl, TryFromSpecImpl};

verus! {

/// The errors that a TPM reports in a format-one response code: those that
/// concern one parameter, session or handle of the command.
#[derive(Copy, Clone, Debug, PartialEq, Eq, Hash, Structural)]
pub enum TpmFormatOneError {
    /// The asymmetric algorithm is not supported or not correct.
    Asymmetric,
    /// The attributes are inconsistent.
    Attributes,
    /// The hash algorithm is not supported or not appropriate.
    Hash,
    /// The value is out of range or not correct for the context.
    Value,
    /// The hierarchy is not enabled or not correct for the use.
    Hierarchy,
    /// The key size is not supported.
    KeySize,
    /// The mask generation function is not supported.
    Mgf,
    /// The mode of operation is not supported.
    Mode,
    /// The type of the value is not appropriate for the use.
    Type,
    /// The handle is not correct for the use.
    Handle,
    /// The key derivation function is not supported or not appropriate for the use.
    Kdf,
    /// The value was out of the allowed range.
    Range,
    /// The authorization HMAC check failed and the dictionary attack counter was incremented.
    AuthFail,
    /// The nonce has an invalid size or its value does not match.
    Nonce,
    /// The authorization requires the assertion of physical presence.
    Pp,
    /// The scheme is not supported or incompatible.
    Scheme,
    /// The structure has the wrong size.
    Size,
    /// The symmetric algorithm or key size is not supported or not appropriate for the instance.
    Symmetric,
    /// The structure tag is incorrect.
    Tag,
    /// The union selector is incorrect.
    Selector,
    /// The input buffer held too few octets to unmarshal a value.
    Insufficient,
    /// The signature is not valid.
    Signature,
    /// The key fields are not compatible with the selected use.
    Key,
    /// A policy check failed.
    PolicyFail,
    /// The integrity check failed.
    Integrity,
    /// The ticket is not valid.
    Ticket,
    /// Reserved bits are not zero as required.
    ReservedBits,
    /// The authorization failed without dictionary attack implications.
    BadAuth,
    /// The policy has expired.
    Expired,
    /// The command code in the policy is not that of the command, or names a command that is not implemented.
    PolicyCc,
    /// The public and sensitive portions of an object are not cryptographically bound.
    Binding,
    /// The curve is not supported.
    Curve,
    /// The point is not on the required curve.
    EccPoint,
}

impl TpmFormatOneError {
    /// The error number of this error: a number of six bits.
    pub open spec fn number(self) -> u8 {
        match self {
            TpmFormatOneError::Asymmetric => 0x01,
            TpmFormatOneError::Attributes => 0x02,
            TpmFormatOneError::Hash => 0x03,
            TpmFormatOneError::Value => 0x04,
            TpmFormatOneError::Hierarchy => 0x05,
            TpmFormatOneError::KeySize => 0x07,
            TpmFormatOneError::Mgf => 0x08,
            TpmFormatOneError::Mode => 0x09,
            TpmFormatOneError::Type => 0x0A,
            TpmFormatOneError::Handle => 0x0B,
            TpmFormatOneError::Kdf => 0x0C,
            TpmFormatOneError::Range => 0x0D,
            TpmFormatOneError::AuthFail => 0x0E,
            TpmFormatOneError::Nonce => 0x0F,
            TpmFormatOneError::Pp => 0x10,
            TpmFormatOneError::Scheme => 0x12,
            TpmFormatOneError::Size => 0x15,
            TpmFormatOneError::Symmetric => 0x16,
            TpmFormatOneError::Tag => 0x17,
            TpmFormatOneError::Selector => 0x18,
            TpmFormatOneError::Insufficient => 0x1A,
            TpmFormatOneError::Signature => 0x1B,
            TpmFormatOneError::Key => 0x1C,
            TpmFormatOneError::PolicyFail => 0x1D,
            TpmFormatOneError::Integrity => 0x1F,
            TpmFormatOneError::Ticket => 0x20,
            TpmFormatOneError::ReservedBits => 0x21,
            TpmFormatOneError::BadAuth => 0x22,
            TpmFormatOneError::Expired => 0x23,
            TpmFormatOneError::PolicyCc => 0x24,
            TpmFormatOneError::Binding => 0x25,
            TpmFormatOneError::Curve => 0x26,
            TpmFormatOneError::EccPoint => 0x27,
        }
    }

    /// The error with the error number `value`, where there is one.
    pub open spec fn with_number(value: u8) -> Option<TpmFormatOneError> {
        match value {
            0x01 => Some(TpmFormatOneError::Asymmetric),
            0x02 => Some(TpmFormatOneError::Attributes),
            0x03 => Some(TpmFormatOneError::Hash),
            0x04 => Some(TpmFormatOneError::Value),
            0x05 => Some(TpmFormatOneError::Hierarchy),
            0x07 => Some(TpmFormatOneError::KeySize),
            0x08 => Some(TpmFormatOneError::Mgf),
            0x09 => Some(TpmFormatOneError::Mode),
            0x0A => Some(TpmFormatOneError::Type),
            0x0B => Some(TpmFormatOneError::Handle),
            0x0C => Some(TpmFormatOneError::Kdf),
            0x0D => Some(TpmFormatOneError::Range),
            0x0E => Some(TpmFormatOneError::AuthFail),
            0x0F => Some(TpmFormatOneError::Nonce),
            0x10 => Some(TpmFormatOneError::Pp),
            0x12 => Some(TpmFormatOneError::Scheme),
            0x15 => Some(TpmFormatOneError::Size),
            0x16 => Some(TpmFormatOneError::Symmetric),
            0x17 => Some(TpmFormatOneError::Tag),
            0x18 => Some(TpmFormatOneError::Selector),
            0x1A => Some(TpmFormatOneError::Insufficient),
            0x1B => Some(TpmFormatOneError::Signature),
            0x1C => Some(TpmFormatOneError::Key),
            0x1D => Some(TpmFormatOneError::PolicyFail),
            0x1F => Some(TpmFormatOneError::Integrity),
            0x20 => Some(TpmFormatOneError::Ticket),
            0x21 => Some(TpmFormatOneError::ReservedBits),
            0x22 => Some(TpmFormatOneError::BadAuth),
            0x23 => Some(TpmFormatOneError::Expired),
            0x24 => Some(TpmFormatOneError::PolicyCc),
            0x25 => Some(TpmFormatOneError::Binding),
            0x26 => Some(TpmFormatOneError::Curve),
            0x27 => Some(TpmFormatOneError::EccPoint),
            _ => None,
        }
    }

    /// Whether `value` is the error number of an error.
    pub open spec fn is_number(value: u8) -> bool {
        Self::with_number(value) is Some
    }

    /// What decoding `value` gives: the error with that error number, and
    /// `InvalidParam` where no error has it.
    pub open spec fn decode(value: u8) -> Result<TpmFormatOneError> {
        match Self::with_number(value) {
            Some(error) => Ok(error),
            None => Err(Error::WrapperError(WrapperErrorKind::InvalidParam)),
        }
    }

    /// Every error number fits in six bits, and none is zero.
    pub proof fn lemma_number_is_six_bits(error: TpmFormatOneError)
        ensures
            0 < error.number() < 64,
    {
    }

    /// No two errors share an error number.
    pub proof fn lemma_number_is_injective(a: TpmFormatOneError, b: TpmFormatOneError)
        requires
            a.number() == b.number(),
        ensures
            a == b,
    {
    }

    /// `with_number` is `number` read backwards: it finds an error for a
    /// value exactly where the value is the error number of that error.
    pub proof fn lemma_with_number_inverts_number(error: TpmFormatOneError, value: u8)
        ensures
            Self::with_number(value) == Some(error) <==> error.number() == value,
    {
    }

    /// A value is an error number exactly where some error has it.
    pub proof fn lemma_is_number(value: u8)
        ensures
            Self::is_number(value) <==> exists|error: TpmFormatOneError| #[trigger]
                error.number() == value,
    {
        if let Some(found) = Self::with_number(value) {
            assert(found.number() == value);
        }
    }

    /// The error numbers are the numbers from 0x01 to 0x27 but for 0x06, 0x11,
    /// 0x13, 0x14, 0x19 and 0x1E.
    pub proof fn lemma_numbers_in_use(value: u8)
        ensures
            Self::is_number(value) <==> {
                &&& 0x01 <= value <= 0x27
                &&& value != 0x06
                &&& value != 0x11
                &&& value != 0x13
                &&& value != 0x14
                &&& value != 0x19
                &&& value != 0x1E
            },
    {
    }

    /// Decoding succeeds exactly on the error numbers, and on nothing else.
    pub proof fn lemma_decode_accepts_numbers(value: u8)
        ensures
            Self::decode(value) is Ok <==> Self::is_number(value),
            Self::decode(value) is Err ==> Self::decode(value) == Err::<
                TpmFormatOneError,
                Error,
            >(Error::WrapperError(WrapperErrorKind::InvalidParam)),
    {
    }

    /// Decoding undoes encoding.
    pub proof fn lemma_decode_inverts_number(error: TpmFormatOneError)
        ensures
            Self::decode(error.number()) == Ok::<TpmFormatOneError, Error>(error),
    {
    }

    /// Encoding undoes decoding.
    pub proof fn lemma_number_inverts_decode(value: u8)
        ensures
            Self::decode(value) matches Ok(error) ==> error.number() == value,
    {
    }
}

impl FromSpecImpl<TpmFormatOneError> for u8 {
    open spec fn obeys_from_spec() -> bool {
        true
    }

    open spec fn from_spec(error: TpmFormatOneError) -> u8 {
        error.number()
    }
}

impl From<TpmFormatOneError> for u8 {
    /// Encodes an error as its error number.
    fn from(error: TpmFormatOneError) -> (number: u8)
        ensures
            number == error.number(),
            0 < number < 64,
            TpmFormatOneError::decode(number) == Ok::<TpmFormatOneError, Error>(error),
    {
        match error {
            TpmFormatOneError::Asymmetric => 0x01,
            TpmFormatOneError::Attributes => 0x02,
            TpmFormatOneError::Hash => 0x03,
            TpmFormatOneError::Value => 0x04,
            TpmFormatOneError::Hierarchy => 0x05,
            TpmFormatOneError::KeySize => 0x07,
            TpmFormatOneError::Mgf => 0x08,
            TpmFormatOneError::Mode => 0x09,
            TpmFormatOneError::Type => 0x0A,
            TpmFormatOneError::Handle => 0x0B,
            TpmFormatOneError::Kdf => 0x0C,
            TpmFormatOneError::Range => 0x0D,
            TpmFormatOneError::AuthFail => 0x0E,
            TpmFormatOneError::Nonce => 0x0F,
            TpmFormatOneError::Pp => 0x10,
            TpmFormatOneError::Scheme => 0x12,
            TpmFormatOneError::Size => 0x15,
            TpmFormatOneError::Symmetric => 0x16,
            TpmFormatOneError::Tag => 0x17,
            TpmFormatOneError::Selector => 0x18,
            TpmFormatOneError::Insufficient => 0x1A,
            TpmFormatOneError::Signature => 0x1B,
            TpmFormatOneError::Key => 0x1C,
            TpmFormatOneError::PolicyFail => 0x1D,
            TpmFormatOneError::Integrity => 0x1F,
            TpmFormatOneError::Ticket => 0x20,
            TpmFormatOneError::ReservedBits => 0x21,
            TpmFormatOneError::BadAuth => 0x22,
            TpmFormatOneError::Expired => 0x23,
            TpmFormatOneError::PolicyCc => 0x24,
            TpmFormatOneError::Binding => 0x25,
            TpmFormatOneError::Curve => 0x26,
            TpmFormatOneError::EccPoint => 0x27,
        }
    }
}

impl TryFromSpecImpl<u8> for TpmFormatOneError {
    open spec fn obeys_try_from_spec() -> bool {
        true
    }

    open spec fn try_from_spec(value: u8) -> Result<TpmFormatOneError> {
        TpmFormatOneError::decode(value)
    }
}

impl TryFrom<u8> for TpmFormatOneError {
    type Error = Error;

    /// Decodes an error number: succeeds exactly on the error numbers of the
    /// errors, with the error that has the number.
    fn try_from(value: u8) -> (decoded: Result<TpmFormatOneError>)
        ensures
            decoded == TpmFormatOneError::decode(value),
            decoded is Ok <==> exists|error: TpmFormatOneError| #[trigger]
                error.number() == value,
            decoded matches Ok(error) ==> error.number() == value,
            decoded matches Err(error) ==> error == Error::WrapperError(
                WrapperErrorKind::InvalidParam,
            ),
    {
        proof {
            TpmFormatOneError::lemma_is_number(value);
        }
        match value {
            0x01 => Ok(TpmFormatOneError::Asymmetric),
            0x02 => Ok(TpmFormatOneError::Attributes),
            0x03 => Ok(TpmFormatOneError::Hash),
            0x04 => Ok(TpmFormatOneError::Value),
            0x05 => Ok(TpmFormatOneError::Hierarchy),
            0x07 => Ok(TpmFormatOneError::KeySize),
            0x08 => Ok(TpmFormatOneError::Mgf),
            0x09 => Ok(TpmFormatOneError::Mode),
            0x0A => Ok(TpmFormatOneError::Type),
            0x0B => Ok(TpmFormatOneError::Handle),
            0x0C => Ok(TpmFormatOneError::Kdf),
            0x0D => Ok(TpmFormatOneError::Range),
            0x0E => Ok(TpmFormatOneError::AuthFail),
            0x0F => Ok(TpmFormatOneError::Nonce),
            0x10 => Ok(TpmFormatOneError::Pp),
            0x12 => Ok(TpmFormatOneError::Scheme),
            0x15 => Ok(TpmFormatOneError::Size),
            0x16 => Ok(TpmFormatOneError::Symmetric),
            0x17 => Ok(TpmFormatOneError::Tag),
            0x18 => Ok(TpmFormatOneError::Selector),
            0x1A => Ok(TpmFormatOneError::Insufficient),
            0x1B => Ok(TpmFormatOneError::Signature),
            0x1C => Ok(TpmFormatOneError::Key),
            0x1D => Ok(TpmFormatOneError::PolicyFail),
            0x1F => Ok(TpmFormatOneError::Integrity),
            0x20 => Ok(TpmFormatOneError::Ticket),
            0x21 => Ok(TpmFormatOneError::ReservedBits),
            0x22 => Ok(TpmFormatOneError::BadAuth),
            0x23 => Ok(TpmFormatOneError::Expired),
            0x24 => Ok(TpmFormatOneError::PolicyCc),
            0x25 => Ok(TpmFormatOneError::Binding),
            0x26 => Ok(TpmFormatOneError::Curve),
            0x27 => Ok(TpmFormatOneError::EccPoint),
            _ => Err(Error::local_error(WrapperErrorKind::InvalidParam)),
        }
    }
}

} // verus!
