use vstd::prelude::*;
use vstd::std_specs::convert::FromSpecImpl;
use vstd::string::StringExecFns;

verus! {

/// The part of a command that an argument number points at.
#[derive(Copy, Clone, Debug, PartialEq, Eq, Hash, Structural)]
pub enum Argument {
    /// No particular parameter, session or handle.
    Unspecified,
    /// The parameter with this number, counted from 1.
    Parameter(u8),
    /// The session with this number, counted from 1.
    Session(u8),
    /// The handle with this number, counted from 1.
    Handle(u8),
}

/// The argument number of a format-one response code: the six bits that say
/// which parameter, session or handle of the command the error is about.
///
/// From the lowest bit up: one bit that is set for a parameter, the bit that
/// marks the response code as one of format one, and four bits of number.
/// With the parameter bit set, the number counts parameters. With it clear,
/// the numbers 1 to 7 count handles and the numbers 9 to 15 count sessions,
/// from 1 again. The number 0 and, with the parameter bit clear, the number 8
/// point at nothing in particular.
#[derive(Copy, Clone, Debug, PartialEq, Eq, Hash, Structural)]
pub struct ArgumentNumber {
    bits: u8,
}

/// The decimal digit for `digit`.
pub open spec fn decimal_digit(digit: nat) -> char
    recommends
        digit < 10,
{
    if digit == 0 {
        '0'
    } else if digit == 1 {
        '1'
    } else if digit == 2 {
        '2'
    } else if digit == 3 {
        '3'
    } else if digit == 4 {
        '4'
    } else if digit == 5 {
        '5'
    } else if digit == 6 {
        '6'
    } else if digit == 7 {
        '7'
    } else if digit == 8 {
        '8'
    } else {
        '9'
    }
}

/// `number` written in decimal, without leading zeros.
pub open spec fn decimal(number: nat) -> Seq<char>
    decreases number,
{
    if number < 10 {
        seq![decimal_digit(number)]
    } else {
        decimal(number / 10).push(decimal_digit(number % 10))
    }
}

fn digit_str(digit: u8) -> (text: &'static str)
    requires
        digit < 10,
    ensures
        text@ == seq![decimal_digit(digit as nat)],
{
    proof {
        reveal_strlit("0");
        reveal_strlit("1");
        reveal_strlit("2");
        reveal_strlit("3");
        reveal_strlit("4");
        reveal_strlit("5");
        reveal_strlit("6");
        reveal_strlit("7");
        reveal_strlit("8");
        reveal_strlit("9");
    }
    let text = match digit {
        0 => "0",
        1 => "1",
        2 => "2",
        3 => "3",
        4 => "4",
        5 => "5",
        6 => "6",
        7 => "7",
        8 => "8",
        _ => "9",
    };
    text
}

fn append_decimal(text: &mut String, number: u8)
    ensures
        final(text)@ == old(text)@ + decimal(number as nat),
{
    reveal_with_fuel(decimal, 3);
    if number >= 100 {
        text.append(digit_str(number / 100));
    }
    if number >= 10 {
        text.append(digit_str((number / 10) % 10));
    }
    text.append(digit_str(number % 10));
}

impl ArgumentNumber {
    /// The six bits, as a number below 64.
    pub closed spec fn bits(self) -> u8 {
        self.bits
    }

    /// The argument number with the given six bits.
    pub closed spec fn with_bits(bits: u8) -> ArgumentNumber {
        ArgumentNumber { bits }
    }

    /// Whether the bits are six: true of every argument number that a program
    /// holds.
    #[verifier::type_invariant]
    pub open spec fn is_valid(self) -> bool {
        self.bits() < 64
    }

    /// Whether the parameter bit is set.
    pub open spec fn is_parameter(self) -> bool {
        self.bits() % 2 == 1
    }

    /// The four bits of number.
    pub open spec fn number(self) -> u8 {
        (self.bits() / 4 % 16) as u8
    }

    /// What the argument number points at.
    pub open spec fn spec_argument(&self) -> Argument {
        let number: u8 = self.number();
        if self.is_parameter() {
            if number == 0 {
                Argument::Unspecified
            } else {
                Argument::Parameter(number)
            }
        } else if number % 8 == 0 {
            Argument::Unspecified
        } else if number < 8 {
            Argument::Handle(number)
        } else {
            Argument::Session((number - 8) as u8)
        }
    }

    /// The phrase that names what the argument number points at: `parameter`,
    /// `session` or `handle`, a space and the number in decimal; nothing
    /// where it points at nothing in particular.
    pub open spec fn text(self) -> Seq<char> {
        match self.spec_argument() {
            Argument::Unspecified => Seq::empty(),
            Argument::Parameter(number) => "parameter "@ + decimal(number as nat),
            Argument::Session(number) => "session "@ + decimal(number as nat),
            Argument::Handle(number) => "handle "@ + decimal(number as nat),
        }
    }

    /// An argument number is its six bits and nothing more.
    pub proof fn lemma_bits_determine(a: ArgumentNumber, b: ArgumentNumber)
        requires
            a.bits() == b.bits(),
        ensures
            a == b,
    {
    }

    /// The bits of the argument number with the given bits are those bits.
    pub proof fn lemma_bits_of_with_bits(bits: u8)
        ensures
            Self::with_bits(bits).bits() == bits,
    {
    }

    /// The argument number with the bits of an argument number is that
    /// argument number.
    pub proof fn lemma_with_bits_of_bits(argument_number: ArgumentNumber)
        ensures
            Self::with_bits(argument_number.bits()) == argument_number,
    {
    }

    /// A parameter has a number from 1 to 15, a handle or a session one from
    /// 1 to 7.
    pub proof fn lemma_argument_ranges(argument_number: ArgumentNumber)
        ensures
            match argument_number.spec_argument() {
                Argument::Unspecified => true,
                Argument::Parameter(number) => 1 <= number <= 15,
                Argument::Session(number) => 1 <= number <= 7,
                Argument::Handle(number) => 1 <= number <= 7,
            },
    {
    }

    /// What the argument number points at.
    #[verifier::when_used_as_spec(spec_argument)]
    pub fn argument(&self) -> (argument: Argument)
        ensures
            argument == self.spec_argument(),
    {
        proof {
            use_type_invariant(self);
        }
        let bits: u8 = self.bits;
        let number: u8 = bits >> 2;
        assert(bits >> 2 == bits / 4) by (bit_vector);
        assert(bits & 1 == bits % 2) by (bit_vector);
        if bits & 1 == 1 {
            if number == 0 {
                Argument::Unspecified
            } else {
                Argument::Parameter(number)
            }
        } else if number == 0 || number == 8 {
            Argument::Unspecified
        } else if number < 8 {
            Argument::Handle(number)
        } else {
            Argument::Session(number - 8)
        }
    }

    /// Renders the argument number as the phrase that names what it points
    /// at.
    pub fn to_string(&self) -> (text: String)
        ensures
            text@ == self.text(),
    {
        let mut text = String::new();
        match self.argument() {
            Argument::Unspecified => {},
            Argument::Parameter(number) => {
                text.append("parameter ");
                append_decimal(&mut text, number);
            },
            Argument::Session(number) => {
                text.append("session ");
                append_decimal(&mut text, number);
            },
            Argument::Handle(number) => {
                text.append("handle ");
                append_decimal(&mut text, number);
            },
        }
        text
    }
}

impl FromSpecImpl<u8> for ArgumentNumber {
    open spec fn obeys_from_spec() -> bool {
        true
    }

    open spec fn from_spec(value: u8) -> ArgumentNumber {
        ArgumentNumber::with_bits(value % 64)
    }
}

impl From<u8> for ArgumentNumber {
    /// The argument number made of the low six bits of `value`.
    fn from(value: u8) -> (argument_number: ArgumentNumber)
        ensures
            argument_number == ArgumentNumber::with_bits(value % 64),
            argument_number.bits() == value % 64,
    {
        assert(value & 0x3f == value % 64) by (bit_vector);
        ArgumentNumber { bits: value & 0x3f }
    }
}

impl FromSpecImpl<ArgumentNumber> for u8 {
    open spec fn obeys_from_spec() -> bool {
        true
    }

    open spec fn from_spec(argument_number: ArgumentNumber) -> u8 {
        argument_number.bits()
    }
}

impl From<ArgumentNumber> for u8 {
    /// The six bits of the argument number.
    fn from(argument_number: ArgumentNumber) -> (bits: u8)
        ensures
            bits == argument_number.bits(),
            bits < 64,
    {
        proof {
            use_type_invariant(argument_number);
        }
        argument_number.bits
    }
}

} // verus!
