use bitfield::{BitRange, BitRangeMut};
use tss_esapi::constants::TpmFormatOneError;
use tss_esapi::error::return_code::tpm::{Argument, ArgumentNumber, TpmFormatOneResponseCode};
use tss_esapi::{Error, WrapperErrorKind};

const UNKNOWN_ERROR: Error = Error::WrapperError(WrapperErrorKind::InvalidParam);

const ERRORS: [(TpmFormatOneError, u8, &str); 33] = [
    (TpmFormatOneError::Asymmetric, 0x01, "asymmetric algorithm not supported or not correct"),
    (TpmFormatOneError::Attributes, 0x02, "inconsistent attributes"),
    (TpmFormatOneError::Hash, 0x03, "hash algorithm not supported or not appropriate"),
    (TpmFormatOneError::Value, 0x04, "value is out of range or is not correct for the context"),
    (TpmFormatOneError::Hierarchy, 0x05, "hierarchy is not enabled or is not correct for the use"),
    (TpmFormatOneError::KeySize, 0x07, "key size is not supported"),
    (TpmFormatOneError::Mgf, 0x08, "mask generation function not supported"),
    (TpmFormatOneError::Mode, 0x09, "mode of operation not supported"),
    (TpmFormatOneError::Type, 0x0A, "the type of the value is not appropriate for the use"),
    (TpmFormatOneError::Handle, 0x0B, "the handle is not correct for the use"),
    (TpmFormatOneError::Kdf, 0x0C, "unsupported key derivation function or function not appropriate for use"),
    (TpmFormatOneError::Range, 0x0D, "value was out of allowed range"),
    (TpmFormatOneError::AuthFail, 0x0E, "the authorization HMAC check failed and DA counter incremented"),
    (TpmFormatOneError::Nonce, 0x0F, "invalid nonce size or nonce value mismatch"),
    (TpmFormatOneError::Pp, 0x10, "authorization requires assertion of PP"),
    (TpmFormatOneError::Scheme, 0x12, "unsupported or incompatible scheme"),
    (TpmFormatOneError::Size, 0x15, "structure is the wrong size"),
    (TpmFormatOneError::Symmetric, 0x16, "unsupported symmetric algorithm or key size, or not appropriate for instance"),
    (TpmFormatOneError::Tag, 0x17, "incorrect structure tag"),
    (TpmFormatOneError::Selector, 0x18, "union selector is incorrect"),
    (TpmFormatOneError::Insufficient, 0x1A, "the TPM was unable to unmarshal a value because there were not enough octets in the input buffer"),
    (TpmFormatOneError::Signature, 0x1B, "the signature is not valid"),
    (TpmFormatOneError::Key, 0x1C, "key fields are not compatible with the selected use"),
    (TpmFormatOneError::PolicyFail, 0x1D, "a policy check failed"),
    (TpmFormatOneError::Integrity, 0x1F, "integrity check failed"),
    (TpmFormatOneError::Ticket, 0x20, "invalid ticket"),
    (TpmFormatOneError::ReservedBits, 0x21, "reserved bits not set to zero as required"),
    (TpmFormatOneError::BadAuth, 0x22, "authorization failure without DA implications"),
    (TpmFormatOneError::Expired, 0x23, "the policy has expired"),
    (TpmFormatOneError::PolicyCc, 0x24, "the command Code in the policy is not the command Code of the command or the command code in a policy command references a command that is not implemented"),
    (TpmFormatOneError::Binding, 0x25, "public and sensitive portions of an object are not cryptographically bound"),
    (TpmFormatOneError::Curve, 0x26, "curve not supported"),
    (TpmFormatOneError::EccPoint, 0x27, "point is not on the required curve"),
];

fn error_with_number(number: u8) -> Option<TpmFormatOneError> {
    ERRORS
        .iter()
        .find(|(_, listed, _)| *listed == number)
        .map(|(error, _, _)| *error)
}

#[test]
fn format_one_error_numbers_are_those_of_the_list() {
    for (error, number, _) in ERRORS {
        assert_eq!(u8::from(error), number);
        assert_eq!(TpmFormatOneError::try_from(number), Ok(error));
    }
}

#[test]
fn format_one_error_decodes_exactly_the_listed_numbers() {
    for value in 0..=u8::MAX {
        match error_with_number(value) {
            Some(error) => assert_eq!(TpmFormatOneError::try_from(value), Ok(error)),
            None => assert_eq!(TpmFormatOneError::try_from(value), Err(UNKNOWN_ERROR)),
        }
    }
}

#[test]
fn format_one_error_numbers_leave_six_gaps() {
    for gap in [0x00u8, 0x06, 0x11, 0x13, 0x14, 0x19, 0x1E, 0x28, 0x3F, 0x40, 0x8E, 0xFF] {
        assert_eq!(TpmFormatOneError::try_from(gap), Err(UNKNOWN_ERROR));
    }
}

#[test]
fn format_one_error_numbers_fit_in_six_bits() {
    for (error, _, _) in ERRORS {
        let number = u8::from(error);
        assert!(0 < number && number < 64);
    }
}

#[test]
fn format_one_round_trips_for_every_error_and_argument_number() {
    for (error, number, _) in ERRORS {
        for bits in 0..64u8 {
            let code = TpmFormatOneResponseCode::new(error, ArgumentNumber::from(bits));
            let value = u16::from(code);
            assert_eq!(value, u16::from(bits) << 6 | u16::from(number));
            assert_eq!(TpmFormatOneResponseCode::try_from(value), Ok(code));
        }
    }
}

#[test]
fn format_one_decodes_by_the_low_six_bits_alone() {
    for value in 0..=u16::MAX {
        let decoded = TpmFormatOneResponseCode::try_from(value);
        match error_with_number((value & 0x3f) as u8) {
            Some(error) => {
                let code = decoded.expect("a listed error number");
                assert_eq!(code.error_number(), error);
                assert_eq!(u8::from(code.argument_number()), ((value >> 6) & 0x3f) as u8);
                assert_eq!(u16::from(code), value & 0x0fff);
            }
            None => assert_eq!(decoded, Err(UNKNOWN_ERROR)),
        }
    }
}

#[test]
fn format_one_refuses_unknown_error_numbers_whatever_the_other_bits() {
    for gap in [0x00u16, 0x06, 0x11, 0x13, 0x14, 0x19, 0x1E, 0x28, 0x3F] {
        for high in 0..1024u16 {
            assert_eq!(
                TpmFormatOneResponseCode::try_from(high << 6 | gap),
                Err(UNKNOWN_ERROR)
            );
        }
    }
}

#[test]
fn format_one_ignores_bits_twelve_to_fifteen() {
    let plain = TpmFormatOneResponseCode::try_from(0x098Eu16).expect("known");
    for high in 0..16u16 {
        let decoded = TpmFormatOneResponseCode::try_from(high << 12 | 0x098E).expect("known");
        assert_eq!(decoded, plain);
        assert_eq!(u16::from(decoded), 0x098E);
    }
}

#[test]
fn format_one_fields_are_where_a_bit_field_puts_them() {
    for (error, number, _) in ERRORS {
        for bits in 0..64u8 {
            let mut expected = 0u16;
            expected.set_bit_range(5, 0, number);
            expected.set_bit_range(11, 6, bits);
            let code = TpmFormatOneResponseCode::new(error, ArgumentNumber::from(bits));
            assert_eq!(u16::from(code), expected);
        }
    }
    for value in 0..=u16::MAX {
        let error_field: u8 = value.bit_range(5, 0);
        let argument_field: u8 = value.bit_range(11, 6);
        match TpmFormatOneResponseCode::try_from(value) {
            Ok(code) => {
                assert_eq!(u8::from(code.error_number()), error_field);
                assert_eq!(u8::from(code.argument_number()), argument_field);
            }
            Err(error) => {
                assert_eq!(error, UNKNOWN_ERROR);
                assert_eq!(error_with_number(error_field), None);
            }
        }
    }
}

#[test]
fn format_one_authorization_failure_of_session_one() {
    let code = TpmFormatOneResponseCode::try_from(0x098Eu16).expect("known");
    assert_eq!(code.error_number(), TpmFormatOneError::AuthFail);
    assert_eq!(code.argument_number().argument(), Argument::Session(1));
    let text = code.to_string();
    assert!(text.contains("the authorization HMAC check failed and DA counter incremented"));
    assert!(text.contains("session 1"));
    assert_eq!(
        text,
        "the authorization HMAC check failed and DA counter incremented (session 1)"
    );
}

#[test]
fn format_one_tells_the_two_authorization_failures_apart() {
    let counted = TpmFormatOneResponseCode::try_from(0x098Eu16).expect("known");
    let uncounted = TpmFormatOneResponseCode::try_from(0x09A2u16).expect("known");
    assert_eq!(counted.error_number(), TpmFormatOneError::AuthFail);
    assert_eq!(uncounted.error_number(), TpmFormatOneError::BadAuth);
    assert_ne!(counted, uncounted);
    assert_eq!(
        uncounted.to_string(),
        "authorization failure without DA implications (session 1)"
    );
}

#[test]
fn format_one_renders_every_sentence() {
    let parameter_two = ArgumentNumber::from(0b0010_11u8);
    for (error, _, sentence) in ERRORS {
        let code = TpmFormatOneResponseCode::new(error, parameter_two);
        assert_eq!(code.to_string(), format!("{} (parameter 2)", sentence));
    }
}

#[test]
fn format_one_renders_each_kind_of_argument() {
    let size = TpmFormatOneError::Size;
    let text = |bits: u8| TpmFormatOneResponseCode::new(size, ArgumentNumber::from(bits)).to_string();
    assert_eq!(text(0b0001_11), "structure is the wrong size (parameter 1)");
    assert_eq!(text(0b1111_11), "structure is the wrong size (parameter 15)");
    assert_eq!(text(0b0011_10), "structure is the wrong size (handle 3)");
    assert_eq!(text(0b1010_10), "structure is the wrong size (session 2)");
    assert_eq!(text(0b0000_10), "structure is the wrong size ()");
    assert_eq!(text(0b1000_10), "structure is the wrong size ()");
}

#[test]
fn format_one_getters_give_what_new_was_given() {
    let argument_number = ArgumentNumber::from(0x17u8);
    let code = TpmFormatOneResponseCode::new(TpmFormatOneError::Curve, argument_number);
    assert_eq!(code.error_number(), TpmFormatOneError::Curve);
    assert_eq!(code.argument_number(), argument_number);
    assert_eq!(u16::from(code), 0x17 << 6 | 0x26);
}

#[test]
fn format_one_codes_compare_by_both_fields() {
    let a = TpmFormatOneResponseCode::new(TpmFormatOneError::Hash, ArgumentNumber::from(6u8));
    let b = TpmFormatOneResponseCode::new(TpmFormatOneError::Hash, ArgumentNumber::from(6u8));
    let c = TpmFormatOneResponseCode::new(TpmFormatOneError::Hash, ArgumentNumber::from(7u8));
    let d = TpmFormatOneResponseCode::new(TpmFormatOneError::Value, ArgumentNumber::from(6u8));
    assert_eq!(a, b);
    assert_ne!(a, c);
    assert_ne!(a, d);
}
