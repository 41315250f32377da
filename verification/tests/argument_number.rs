use tss_esapi::error::return_code::tpm::{Argument, ArgumentNumber};

fn expected_argument(bits: u8) -> Argument {
    let parameter = bits & 1 == 1;
    let number = bits >> 2;
    match (parameter, number) {
        (_, 0) => Argument::Unspecified,
        (true, n) => Argument::Parameter(n),
        (false, 8) => Argument::Unspecified,
        (false, n) if n < 8 => Argument::Handle(n),
        (false, n) => Argument::Session(n - 8),
    }
}

#[test]
fn argument_number_keeps_all_sixty_four_values_apart() {
    for bits in 0..64u8 {
        let argument_number = ArgumentNumber::from(bits);
        assert_eq!(u8::from(argument_number), bits);
        for other in 0..64u8 {
            assert_eq!(argument_number == ArgumentNumber::from(other), bits == other);
        }
    }
}

#[test]
fn argument_number_is_the_low_six_bits() {
    for value in 0..=u8::MAX {
        assert_eq!(u8::from(ArgumentNumber::from(value)), value & 0x3f);
        assert_eq!(ArgumentNumber::from(value), ArgumentNumber::from(value & 0x3f));
    }
}

#[test]
fn argument_number_points_by_parameter_bit_and_number() {
    for bits in 0..64u8 {
        assert_eq!(ArgumentNumber::from(bits).argument(), expected_argument(bits));
    }
}

#[test]
fn argument_number_does_not_look_at_the_format_bit() {
    for bits in 0..64u8 {
        assert_eq!(
            ArgumentNumber::from(bits).argument(),
            ArgumentNumber::from(bits ^ 0b10).argument()
        );
        assert_eq!(
            ArgumentNumber::from(bits).to_string(),
            ArgumentNumber::from(bits ^ 0b10).to_string()
        );
    }
}

#[test]
fn argument_number_names_parameters_from_one_to_fifteen() {
    for number in 1..=15u8 {
        let argument_number = ArgumentNumber::from(number << 2 | 0b11);
        assert_eq!(argument_number.argument(), Argument::Parameter(number));
        assert_eq!(argument_number.to_string(), format!("parameter {}", number));
    }
}

#[test]
fn argument_number_names_handles_from_one_to_seven() {
    for number in 1..=7u8 {
        let argument_number = ArgumentNumber::from(number << 2 | 0b10);
        assert_eq!(argument_number.argument(), Argument::Handle(number));
        assert_eq!(argument_number.to_string(), format!("handle {}", number));
    }
}

#[test]
fn argument_number_names_sessions_from_one_to_seven() {
    for number in 1..=7u8 {
        let argument_number = ArgumentNumber::from((8 + number) << 2 | 0b10);
        assert_eq!(argument_number.argument(), Argument::Session(number));
        assert_eq!(argument_number.to_string(), format!("session {}", number));
    }
}

#[test]
fn argument_number_without_a_number_points_at_nothing() {
    for bits in [0b0000_00u8, 0b0000_01, 0b0000_10, 0b0000_11, 0b1000_00, 0b1000_10] {
        let argument_number = ArgumentNumber::from(bits);
        assert_eq!(argument_number.argument(), Argument::Unspecified);
        assert_eq!(argument_number.to_string(), "");
    }
}

#[test]
fn argument_number_eight_is_a_parameter_with_the_parameter_bit() {
    let argument_number = ArgumentNumber::from(0b1000_11u8);
    assert_eq!(argument_number.argument(), Argument::Parameter(8));
    assert_eq!(argument_number.to_string(), "parameter 8");
}

#[test]
fn argument_number_renders_the_phrases_of_the_three_kinds() {
    assert_eq!(ArgumentNumber::from(0b0010_11u8).to_string(), "parameter 2");
    assert_eq!(ArgumentNumber::from(0b1001_10u8).to_string(), "session 1");
    assert_eq!(ArgumentNumber::from(0b0011_10u8).to_string(), "handle 3");
    assert_eq!(ArgumentNumber::from(0b0000_10u8).to_string(), "");
}

#[test]
fn argument_number_renders_two_digits() {
    assert_eq!(ArgumentNumber::from(0b1010_11u8).to_string(), "parameter 10");
    assert_eq!(ArgumentNumber::from(0b1111_01u8).to_string(), "parameter 15");
    assert_eq!(ArgumentNumber::from(0b1001_01u8).to_string(), "parameter 9");
}
