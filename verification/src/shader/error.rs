//! Failures of the shader stage.

use vstd::prelude::*;
use vstd::string::StringExecFns;

verus! {

/// Why a shader or a program could not be built.
#[derive(Clone, Debug, PartialEq, Eq)]
pub enum ShaderError {
    /// The backend refused to compile a shader; the text is its log.
    CompilationError(String),
    /// The backend refused to link a program; the text is its log.
    LinkingError(String),
    /// A text meant for the backend holds a zero byte at this position, so it
    /// cannot be passed as a zero-terminated string.
    CStringConversion(usize),
}

/// The character that writes the digit `digit`.
pub open spec fn spec_digit(digit: nat) -> char {
    if digit == 0 {
        '0'
    } else if digit == 1 {
        '1'
    } else if digit == 2 {
        '2'
    } else if digit == 3 {
        '3'
    } else if digit == 4 {
        '4'
    } else if digit == 5 {
        '5'
    } else if digit == 6 {
        '6'
    } else if digit == 7 {
        '7'
    } else if digit == 8 {
        '8'
    } else {
        '9'
    }
}

/// The decimal numeral of `value`, without leading zeros.
pub open spec fn spec_decimal(value: nat) -> Seq<char>
    decreases value,
{
    if value < 10 {
        seq![spec_digit(value)]
    } else {
        spec_decimal(value / 10).push(spec_digit(value % 10))
    }
}

/// The one-character text that writes the digit `digit`.
fn digit_text(digit: usize) -> (text: &'static str)
    requires
        digit < 10,
    ensures
        text@ == seq![spec_digit(digit as nat)],
{
    proof {
        reveal_strlit("0");
        reveal_strlit("1");
        reveal_strlit("2");
        reveal_strlit("3");
        reveal_strlit("4");
        reveal_strlit("5");
        reveal_strlit("6");
        reveal_strlit("7");
        reveal_strlit("8");
        reveal_strlit("9");
    }
    let text = if digit == 0 {
        "0"
    } else if digit == 1 {
        "1"
    } else if digit == 2 {
        "2"
    } else if digit == 3 {
        "3"
    } else if digit == 4 {
        "4"
    } else if digit == 5 {
        "5"
    } else if digit == 6 {
        "6"
    } else if digit == 7 {
        "7"
    } else if digit == 8 {
        "8"
    } else {
        "9"
    };
    assert(text@ =~= seq![spec_digit(digit as nat)]);
    text
}

/// Appends the decimal numeral of `value` to `text`.
fn append_decimal(text: &mut String, value: usize)
    ensures
        final(text)@ == old(text)@ + spec_decimal(value as nat),
    decreases value,
{
    if value >= 10 {
        append_decimal(text, value / 10);
    }
    text.append(digit_text(value % 10));
    assert(text@ =~= old(text)@ + spec_decimal(value as nat));
}

impl ShaderError {
    /// What [`ShaderError::message`] says of this error.
    pub open spec fn spec_message(&self) -> Seq<char> {
        match self {
            ShaderError::CompilationError(log) => "Cannot compile the shader: "@ + log@,
            ShaderError::LinkingError(log) => "Cannot link the shaders: "@ + log@,
            ShaderError::CStringConversion(position) => "Cannot convert string to a C pointer: "@
                + "nul byte found in provided data at position: "@ + spec_decimal(
                *position as nat,
            ),
        }
    }

    /// A sentence that says what went wrong, with the backend's log or the
    /// position of the zero byte.
    pub fn message(&self) -> (message: String)
        ensures
            message@ == self.spec_message(),
    {
        match self {
            ShaderError::CompilationError(log) => {
                String::from_str("Cannot compile the shader: ").concat(log.as_str())
            },
            ShaderError::LinkingError(log) => {
                String::from_str("Cannot link the shaders: ").concat(log.as_str())
            },
            ShaderError::CStringConversion(position) => {
                let mut message = String::from_str("Cannot convert string to a C pointer: ");
                message.append("nul byte found in provided data at position: ");
                append_decimal(&mut message, *position);
                message
            },
        }
    }
}

} // verus!
