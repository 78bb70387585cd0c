//! Diagnostics: error kinds, positioned errors, and the ordered,
//! append-only collection that one compilation pass owns.

use vstd::prelude::*;
use vstd::string::StringExecFns;

verus! {

/// The closed set of error kinds the lexer, parser and evaluator report.
#[derive(PartialEq, Eq, Structural, Clone, Copy, Debug)]
pub enum ErrorType {
    DivideByZero,
    InvalidOperands,
    NotImplemented,
    UnknownToken,
    MissingToken,
    InvalidTokenValue,
    UnexpectedToken,
}

impl ErrorType {
    /// The display name of each kind.
    pub open spec fn error_name(self) -> Seq<char> {
        match self {
            ErrorType::DivideByZero => "Divide by Zero"@,
            ErrorType::InvalidOperands => "Invalid Operands"@,
            ErrorType::NotImplemented => "Not Implemented"@,
            ErrorType::UnknownToken => "Unknown Token"@,
            ErrorType::MissingToken => "Missing Token"@,
            ErrorType::InvalidTokenValue => "Invalid Token Value"@,
            ErrorType::UnexpectedToken => "Unexpected Token"@,
        }
    }

    /// Renders the kind under its display name.
    pub fn get_type(&self) -> (r: String)
        ensures
            r@ == self.error_name(),
    {
        match self {
            ErrorType::DivideByZero => String::from_str("Divide by Zero"),
            ErrorType::InvalidOperands => String::from_str("Invalid Operands"),
            ErrorType::NotImplemented => String::from_str("Not Implemented"),
            ErrorType::UnknownToken => String::from_str("Unknown Token"),
            ErrorType::MissingToken => String::from_str("Missing Token"),
            ErrorType::InvalidTokenValue => String::from_str("Invalid Token Value"),
            ErrorType::UnexpectedToken => String::from_str("Unexpected Token"),
        }
    }
}

/// A recorded, non-fatal error observation: its kind, the line it was seen
/// on (counted from zero) and the byte offset it was seen at.
#[derive(PartialEq, Eq, Structural, Clone, Copy, Debug)]
pub struct Error {
    pub error_type: ErrorType,
    pub line: usize,
    pub position: usize,
}

impl Error {
    pub fn new(error_type: ErrorType, line: usize, position: usize) -> (r: Self)
        ensures
            r == (Error { error_type, line, position }),
    {
        Error { error_type, line, position }
    }

    /// The rendering of an error: its kind's name, then `[line:position]`.
    pub open spec fn display(self) -> Seq<char> {
        self.error_type.error_name() + "["@ + dec_str(self.line as nat) + ":"@ + dec_str(
            self.position as nat,
        ) + "]"@
    }

    /// Renders the error as its kind's name followed by `[line:position]`.
    pub fn to_string(&self) -> (r: String)
        ensures
            r@ == self.display(),
    {
        let mut s = self.error_type.get_type();
        s.append("[");
        let line_digits = dec_string(self.line);
        s.append(line_digits.as_str());
        s.append(":");
        let pos_digits = dec_string(self.position);
        s.append(pos_digits.as_str());
        s.append("]");
        s
    }
}

/// The decimal digits of a number, most significant first.
pub open spec fn dec_str(n: nat) -> Seq<char>
    decreases n,
{
    if n < 10 {
        seq![dec_digit(n)]
    } else {
        dec_str(n / 10) + seq![dec_digit(n % 10)]
    }
}

/// The character for one decimal digit.
pub open spec fn dec_digit(n: nat) -> char {
    if n == 0 {
        '0'
    } else if n == 1 {
        '1'
    } else if n == 2 {
        '2'
    } else if n == 3 {
        '3'
    } else if n == 4 {
        '4'
    } else if n == 5 {
        '5'
    } else if n == 6 {
        '6'
    } else if n == 7 {
        '7'
    } else if n == 8 {
        '8'
    } else {
        '9'
    }
}

/// Renders a number in decimal.
pub fn dec_string(n: usize) -> (s: String)
    ensures
        s@ == dec_str(n as nat),
    decreases n,
{
    if n < 10 {
        let s = dec_digit_string(n);
        proof {
            assert(s@ =~= dec_str(n as nat));
        }
        s
    } else {
        let mut s = dec_string(n / 10);
        let digit = dec_digit_string(n % 10);
        s.append(digit.as_str());
        proof {
            assert(s@ =~= dec_str(n as nat));
        }
        s
    }
}

/// Renders one decimal digit.
fn dec_digit_string(n: usize) -> (s: String)
    requires
        n < 10,
    ensures
        s@ == seq![dec_digit(n as nat)],
{
    let s = if n == 0 {
        String::from_str("0")
    } else if n == 1 {
        String::from_str("1")
    } else if n == 2 {
        String::from_str("2")
    } else if n == 3 {
        String::from_str("3")
    } else if n == 4 {
        String::from_str("4")
    } else if n == 5 {
        String::from_str("5")
    } else if n == 6 {
        String::from_str("6")
    } else if n == 7 {
        String::from_str("7")
    } else if n == 8 {
        String::from_str("8")
    } else {
        String::from_str("9")
    };
    proof {
        reveal_strlit("0");
        reveal_strlit("1");
        reveal_strlit("2");
        reveal_strlit("3");
        reveal_strlit("4");
        reveal_strlit("5");
        reveal_strlit("6");
        reveal_strlit("7");
        reveal_strlit("8");
        reveal_strlit("9");
        assert(s@ =~= seq![dec_digit(n as nat)]);
    }
    s
}

/// An ordered, append-only collection of diagnostics, owned by one
/// compilation pass; its model is the sequence of errors reported so far,
/// in insertion order.
pub struct ErrorHandler {
    errors: Vec<Error>,
}

impl View for ErrorHandler {
    type V = Seq<Error>;

    closed spec fn view(&self) -> Seq<Error> {
        self.errors@
    }
}

impl ErrorHandler {
    /// A fresh, empty collection.
    pub fn new() -> (r: Self)
        ensures
            r@ == Seq::<Error>::empty(),
    {
        let r = ErrorHandler { errors: Vec::new() };
        proof {
            assert(r@ =~= Seq::<Error>::empty());
        }
        r
    }

    /// Appends one error; earlier reports keep their places.
    pub fn report(&mut self, error: Error)
        ensures
            final(self)@ == old(self)@.push(error),
    {
        self.errors.push(error);
    }

    /// Whether anything has been reported.
    pub fn has_errors(&self) -> (r: bool)
        ensures
            r == (self@.len() > 0),
    {
        self.errors.len() > 0
    }

    /// The reported errors, in insertion order.
    pub fn errors(&self) -> (r: &Vec<Error>)
        ensures
            r@ == self@,
    {
        &self.errors
    }
}

} // verus!
