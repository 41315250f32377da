//! The response code of format one and its argument number.

pub mod argument_number;

pub use argument_number::{Argument, ArgumentNumber};

use crate::constants::TpmFormatOneError;
use crate::error::{Error, Result, WrapperErrorKind};
use vstd::prelude::*;
use vstd::std_specs::convert::{FromSpecImpl, TryFromSpecImpl};
use vstd::string::StringExecFns;

verus! {

/// A TPM response code of format one: an error together with the argument
/// number that says which parameter, session or handle it is about.
///
/// In the sixteen bits of its encoding, bits 0 to 5 hold the error number and
/// bits 6 to 11 the argument number. Bits 12 to 15 are not part of it.
#[derive(Copy, Clone, Debug, PartialEq, Eq, Hash, Structural)]
pub struct TpmFormatOneResponseCode {
    error_number: TpmFormatOneError,
    argument_number: ArgumentNumber,
}

impl TpmFormatOneResponseCode {
    /// The response code with the given error and argument number.
    pub closed spec fn spec_new(
        error_number: TpmFormatOneError,
        argument_number: ArgumentNumber,
    ) -> TpmFormatOneResponseCode {
        TpmFormatOneResponseCode { error_number, argument_number }
    }

    /// The error of the response code.
    pub closed spec fn spec_error_number(&self) -> TpmFormatOneError {
        self.error_number
    }

    /// The argument number of the response code.
    pub closed spec fn spec_argument_number(&self) -> ArgumentNumber {
        self.argument_number
    }

    /// Whether the argument number is one of six bits: true of every
    /// response code that a program holds.
    pub open spec fn is_valid(self) -> bool {
        self.argument_number().is_valid()
    }

    /// Bits 0 to 5 of `value`: the field of the error number.
    pub open spec fn error_field(value: u16) -> u8 {
        (value % 64) as u8
    }

    /// Bits 6 to 11 of `value`: the field of the argument number.
    pub open spec fn argument_field(value: u16) -> u8 {
        (value / 64 % 64) as u8
    }

    /// What decoding `value` gives: the error whose number stands in bits 0
    /// to 5, with the argument number in bits 6 to 11 whatever it is, and
    /// `InvalidParam` where no error has that number. Bits 12 to 15 are not
    /// looked at.
    pub open spec fn decode(value: u16) -> Result<TpmFormatOneResponseCode> {
        match TpmFormatOneError::decode(Self::error_field(value)) {
            Ok(error_number) => Ok(
                Self::new(error_number, ArgumentNumber::with_bits(Self::argument_field(value))),
            ),
            Err(error) => Err(error),
        }
    }

    /// The encoding of the response code: the error number in bits 0 to 5,
    /// the argument number in bits 6 to 11, and bits 12 to 15 zero.
    pub open spec fn encode(self) -> u16 {
        (self.argument_number().bits() * 64 + self.error_number().number()) as u16
    }

    /// The sentence for an error, without the argument that it is about.
    pub open spec fn sentence(error_number: TpmFormatOneError) -> Seq<char> {
        match error_number {
            TpmFormatOneError::Asymmetric => "asymmetric algorithm not supported or not correct"@,
            TpmFormatOneError::Attributes => "inconsistent attributes"@,
            TpmFormatOneError::Hash => "hash algorithm not supported or not appropriate"@,
            TpmFormatOneError::Value => "value is out of range or is not correct for the context"@,
            TpmFormatOneError::Hierarchy => "hierarchy is not enabled or is not correct for the use"@,
            TpmFormatOneError::KeySize => "key size is not supported"@,
            TpmFormatOneError::Mgf => "mask generation function not supported"@,
            TpmFormatOneError::Mode => "mode of operation not supported"@,
            TpmFormatOneError::Type => "the type of the value is not appropriate for the use"@,
            TpmFormatOneError::Handle => "the handle is not correct for the use"@,
            TpmFormatOneError::Kdf => "unsupported key derivation function or function not appropriate for use"@,
            TpmFormatOneError::Range => "value was out of allowed range"@,
            TpmFormatOneError::AuthFail => "the authorization HMAC check failed and DA counter incremented"@,
            TpmFormatOneError::Nonce => "invalid nonce size or nonce value mismatch"@,
            TpmFormatOneError::Pp => "authorization requires assertion of PP"@,
            TpmFormatOneError::Scheme => "unsupported or incompatible scheme"@,
            TpmFormatOneError::Size => "structure is the wrong size"@,
            TpmFormatOneError::Symmetric => "unsupported symmetric algorithm or key size, or not appropriate for instance"@,
            TpmFormatOneError::Tag => "incorrect structure tag"@,
            TpmFormatOneError::Selector => "union selector is incorrect"@,
            TpmFormatOneError::Insufficient => "the TPM was unable to unmarshal a value because there were not enough octets in the input buffer"@,
            TpmFormatOneError::Signature => "the signature is not valid"@,
            TpmFormatOneError::Key => "key fields are not compatible with the selected use"@,
            TpmFormatOneError::PolicyFail => "a policy check failed"@,
            TpmFormatOneError::Integrity => "integrity check failed"@,
            TpmFormatOneError::Ticket => "invalid ticket"@,
            TpmFormatOneError::ReservedBits => "reserved bits not set to zero as required"@,
            TpmFormatOneError::BadAuth => "authorization failure without DA implications"@,
            TpmFormatOneError::Expired => "the policy has expired"@,
            TpmFormatOneError::PolicyCc => "the command Code in the policy is not the command Code of the command or the command code in a policy command references a command that is not implemented"@,
            TpmFormatOneError::Binding => "public and sensitive portions of an object are not cryptographically bound"@,
            TpmFormatOneError::Curve => "curve not supported"@,
            TpmFormatOneError::EccPoint => "point is not on the required curve"@,
        }
    }

    /// The text of the response code: the sentence for its error, a space,
    /// and between round brackets the phrase for its argument number.
    pub open spec fn text(self) -> Seq<char> {
        Self::sentence(self.error_number()) + " ("@ + self.argument_number().text() + ")"@
    }

    /// A response code is its error and its argument number, and nothing
    /// more.
    pub proof fn lemma_fields_determine(a: TpmFormatOneResponseCode, b: TpmFormatOneResponseCode)
        requires
            a.error_number() == b.error_number(),
            a.argument_number() == b.argument_number(),
        ensures
            a == b,
    {
    }

    /// The getters give what `new` was given.
    pub proof fn lemma_getters_of_new(
        error_number: TpmFormatOneError,
        argument_number: ArgumentNumber,
    )
        ensures
            Self::new(error_number, argument_number).error_number() == error_number,
            Self::new(error_number, argument_number).argument_number() == argument_number,
    {
    }

    /// `new` of what the getters give is the response code itself.
    pub proof fn lemma_new_of_getters(code: TpmFormatOneResponseCode)
        ensures
            Self::new(code.error_number(), code.argument_number()) == code,
    {
    }

    /// The encoding leaves bits 12 to 15 zero, and holds the two fields where
    /// decoding looks for them.
    pub proof fn lemma_encode_fields(code: TpmFormatOneResponseCode)
        requires
            code.is_valid(),
        ensures
            code.encode() < 4096,
            Self::error_field(code.encode()) == code.error_number().number(),
            Self::argument_field(code.encode()) == code.argument_number().bits(),
    {
    }

    /// Decoding succeeds exactly where bits 0 to 5 hold the number of an
    /// error, whatever the other bits hold, and gives that error with the
    /// argument number in bits 6 to 11.
    pub proof fn lemma_decode_fields(value: u16)
        ensures
            Self::decode(value) is Ok <==> TpmFormatOneError::is_number(Self::error_field(value)),
            Self::decode(value) matches Ok(code) ==> {
                &&& code.error_number().number() == Self::error_field(value)
                &&& code.argument_number().bits() == Self::argument_field(value)
                &&& code.is_valid()
            },
            Self::decode(value) matches Err(error) ==> error == Error::WrapperError(
                WrapperErrorKind::InvalidParam,
            ),
    {
        ArgumentNumber::lemma_bits_of_with_bits(Self::argument_field(value));
    }

    /// Decoding undoes encoding: for every error and every one of the 64
    /// argument numbers.
    pub proof fn lemma_decode_inverts_encode(code: TpmFormatOneResponseCode)
        requires
            code.is_valid(),
        ensures
            Self::decode(code.encode()) == Ok::<TpmFormatOneResponseCode, Error>(code),
    {
        ArgumentNumber::lemma_with_bits_of_bits(code.argument_number());
    }

    /// Encoding undoes decoding, but for bits 12 to 15, which decoding does
    /// not look at and encoding leaves zero.
    pub proof fn lemma_encode_inverts_decode(value: u16)
        ensures
            Self::decode(value) matches Ok(code) ==> code.encode() == value % 4096,
    {
        Self::lemma_decode_fields(value);
    }

    /// A value whose bits 0 to 5 hold no error number is refused.
    pub proof fn lemma_decode_refuses_unknown_errors(value: u16)
        requires
            !TpmFormatOneError::is_number(Self::error_field(value)),
        ensures
            Self::decode(value) == Err::<TpmFormatOneResponseCode, Error>(
                Error::WrapperError(WrapperErrorKind::InvalidParam),
            ),
    {
    }

    /// The text starts with the sentence for the error, and holds the phrase
    /// for the argument number between its brackets.
    pub proof fn lemma_text_holds_sentence_and_phrase(code: TpmFormatOneResponseCode)
        ensures
            ({
                let sentence = Self::sentence(code.error_number());
                let phrase = code.argument_number().text();
                let text = code.text();
                let start: int = sentence.len() as int;
                let end: int = start + 2 + phrase.len();
                &&& text.len() == end + 1
                &&& text.subrange(0, start) == sentence
                &&& text[start] == ' '
                &&& text[start + 1] == '('
                &&& text.subrange(start + 2, end) == phrase
                &&& text[end] == ')'
            }),
    {
        reveal_strlit(" (");
        reveal_strlit(")");
    }

    /// Creates the response code with the given error and argument number.
    #[verifier::when_used_as_spec(spec_new)]
    pub fn new(error_number: TpmFormatOneError, argument_number: ArgumentNumber) -> (code: Self)
        ensures
            code == Self::spec_new(error_number, argument_number),
            code.error_number() == error_number,
            code.argument_number() == argument_number,
    {
        TpmFormatOneResponseCode { error_number, argument_number }
    }

    /// The error of the response code.
    #[verifier::when_used_as_spec(spec_error_number)]
    pub fn error_number(&self) -> (error_number: TpmFormatOneError)
        ensures
            error_number == self.spec_error_number(),
    {
        self.error_number
    }

    /// The argument number of the response code.
    #[verifier::when_used_as_spec(spec_argument_number)]
    pub fn argument_number(&self) -> (argument_number: ArgumentNumber)
        ensures
            argument_number == self.spec_argument_number(),
            argument_number.is_valid(),
    {
        proof {
            use_type_invariant(&self.argument_number);
        }
        self.argument_number
    }

    /// The words for an error.
    fn description(error_number: TpmFormatOneError) -> (words: &'static str)
        ensures
            words@ == Self::sentence(error_number),
    {
        match error_number {
            TpmFormatOneError::Asymmetric => "asymmetric algorithm not supported or not correct",
            TpmFormatOneError::Attributes => "inconsistent attributes",
            TpmFormatOneError::Hash => "hash algorithm not supported or not appropriate",
            TpmFormatOneError::Value => "value is out of range or is not correct for the context",
            TpmFormatOneError::Hierarchy => "hierarchy is not enabled or is not correct for the use",
            TpmFormatOneError::KeySize => "key size is not supported",
            TpmFormatOneError::Mgf => "mask generation function not supported",
            TpmFormatOneError::Mode => "mode of operation not supported",
            TpmFormatOneError::Type => "the type of the value is not appropriate for the use",
            TpmFormatOneError::Handle => "the handle is not correct for the use",
            TpmFormatOneError::Kdf => "unsupported key derivation function or function not appropriate for use",
            TpmFormatOneError::Range => "value was out of allowed range",
            TpmFormatOneError::AuthFail => "the authorization HMAC check failed and DA counter incremented",
            TpmFormatOneError::Nonce => "invalid nonce size or nonce value mismatch",
            TpmFormatOneError::Pp => "authorization requires assertion of PP",
            TpmFormatOneError::Scheme => "unsupported or incompatible scheme",
            TpmFormatOneError::Size => "structure is the wrong size",
            TpmFormatOneError::Symmetric => "unsupported symmetric algorithm or key size, or not appropriate for instance",
            TpmFormatOneError::Tag => "incorrect structure tag",
            TpmFormatOneError::Selector => "union selector is incorrect",
            TpmFormatOneError::Insufficient => "the TPM was unable to unmarshal a value because there were not enough octets in the input buffer",
            TpmFormatOneError::Signature => "the signature is not valid",
            TpmFormatOneError::Key => "key fields are not compatible with the selected use",
            TpmFormatOneError::PolicyFail => "a policy check failed",
            TpmFormatOneError::Integrity => "integrity check failed",
            TpmFormatOneError::Ticket => "invalid ticket",
            TpmFormatOneError::ReservedBits => "reserved bits not set to zero as required",
            TpmFormatOneError::BadAuth => "authorization failure without DA implications",
            TpmFormatOneError::Expired => "the policy has expired",
            TpmFormatOneError::PolicyCc => "the command Code in the policy is not the command Code of the command or the command code in a policy command references a command that is not implemented",
            TpmFormatOneError::Binding => "public and sensitive portions of an object are not cryptographically bound",
            TpmFormatOneError::Curve => "curve not supported",
            TpmFormatOneError::EccPoint => "point is not on the required curve",
        }
    }

    /// Renders the response code: the sentence for its error, a space, and
    /// between round brackets the phrase for its argument number.
    pub fn to_string(&self) -> (text: String)
        ensures
            text@ == self.text(),
    {
        let mut text = String::from_str(Self::description(self.error_number));
        text.append(" (");
        let argument = self.argument_number.to_string();
        text.append(argument.as_str());
        text.append(")");
        text
    }
}

impl TryFromSpecImpl<u16> for TpmFormatOneResponseCode {
    open spec fn obeys_try_from_spec() -> bool {
        true
    }

    open spec fn try_from_spec(value: u16) -> Result<TpmFormatOneResponseCode> {
        TpmFormatOneResponseCode::decode(value)
    }
}

impl TryFrom<u16> for TpmFormatOneResponseCode {
    type Error = Error;

    /// Decodes a response code of format one: succeeds exactly where bits 0
    /// to 5 of `value` hold the number of an error, and then gives that error
    /// with the argument number in bits 6 to 11.
    fn try_from(value: u16) -> (decoded: Result<TpmFormatOneResponseCode>)
        ensures
            decoded == TpmFormatOneResponseCode::decode(value),
            decoded is Ok <==> TpmFormatOneError::is_number(
                TpmFormatOneResponseCode::error_field(value),
            ),
            decoded matches Ok(code) ==> {
                &&& code.error_number().number() == value % 64
                &&& code.argument_number().bits() == value / 64 % 64
                &&& code.encode() == value % 4096
            },
            decoded matches Err(error) ==> error == Error::WrapperError(
                WrapperErrorKind::InvalidParam,
            ),
    {
        let error_field: u8 = (value & 0x3f) as u8;
        let argument_field: u8 = ((value >> 6) & 0x3f) as u8;
        proof {
            assert(value & 0x3f == value % 64) by (bit_vector);
            assert((value >> 6) & 0x3f == value / 64 % 64) by (bit_vector);
        }
        match TpmFormatOneError::try_from(error_field) {
            Ok(error_number) => Ok(
                TpmFormatOneResponseCode::new(error_number, ArgumentNumber::from(argument_field)),
            ),
            Err(error) => Err(error),
        }
    }
}

impl FromSpecImpl<TpmFormatOneResponseCode> for u16 {
    open spec fn obeys_from_spec() -> bool {
        true
    }

    open spec fn from_spec(code: TpmFormatOneResponseCode) -> u16 {
        code.encode()
    }
}

impl From<TpmFormatOneResponseCode> for u16 {
    /// Encodes the response code: the error number in bits 0 to 5, the
    /// argument number in bits 6 to 11, and bits 12 to 15 zero.
    fn from(code: TpmFormatOneResponseCode) -> (value: u16)
        ensures
            value == code.encode(),
            value < 4096,
            TpmFormatOneResponseCode::decode(value) == Ok::<TpmFormatOneResponseCode, Error>(
                code,
            ),
    {
        let error_field: u8 = code.error_number().into();
        let argument_field: u8 = code.argument_number().into();
        let low: u16 = error_field as u16;
        let high: u16 = argument_field as u16;
        proof {
            assert((high << 6) | low == high * 64 + low) by (bit_vector)
                requires
                    high < 64,
                    low < 64,
            ;
            TpmFormatOneResponseCode::lemma_decode_inverts_encode(code);
        }
        (high << 6) | low
    }
}

} // verus!
