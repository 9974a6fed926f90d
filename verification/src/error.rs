//! Why an operation can fail.

use vstd::prelude::*;
use vstd::string::StringExecFns;
use crate::text::push_char;

verus! {

/// A failed operation. Only the CSV operation fails.
#[derive(Debug)]
pub enum OpError {
    /// The CSV text holds no header record.
    MissingHeader,
    /// The CSV text ends inside a quoted field.
    OpenQuote,
    /// The CSV parser rejected a record; `message` is the parser's own text.
    Csv { message: String },
    /// A data row whose number of fields differs from the header's.
    RaggedRow { expected: usize, found: usize },
}

/// What an `OpError` says, in mathematical terms.
pub enum Failure {
    MissingHeader,
    OpenQuote,
    Csv { message: Seq<char> },
    RaggedRow { expected: nat, found: nat },
}

impl View for OpError {
    type V = Failure;

    open spec fn view(&self) -> Failure {
        match self {
            OpError::MissingHeader => Failure::MissingHeader,
            OpError::OpenQuote => Failure::OpenQuote,
            OpError::Csv { message } => Failure::Csv { message: message@ },
            OpError::RaggedRow { expected, found } => Failure::RaggedRow {
                expected: *expected as nat,
                found: *found as nat,
            },
        }
    }
}

/// The decimal digits of `n`.
pub open spec fn decimal_of(n: nat) -> Seq<char>
    decreases n,
{
    if n < 10 {
        seq![digit_of(n)]
    } else {
        decimal_of(n / 10).push(digit_of(n % 10))
    }
}

/// The character for a digit below ten.
pub open spec fn digit_of(d: nat) -> char {
    if d == 0 {
        '0'
    } else if d == 1 {
        '1'
    } else if d == 2 {
        '2'
    } else if d == 3 {
        '3'
    } else if d == 4 {
        '4'
    } else if d == 5 {
        '5'
    } else if d == 6 {
        '6'
    } else if d == 7 {
        '7'
    } else if d == 8 {
        '8'
    } else {
        '9'
    }
}

/// The message of a failure, as it is shown to the user.
pub open spec fn message_of(e: Failure) -> Seq<char> {
    match e {
        Failure::MissingHeader => "CSV error: the input has no header record"@,
        Failure::OpenQuote => "CSV error: a quoted field is still open at the end of the input"@,
        Failure::Csv { message } => message,
        Failure::RaggedRow { expected, found } => "CSV error: found row with "@ + decimal_of(found)
            + " fields, but the header has "@ + decimal_of(expected) + " fields"@,
    }
}

/// The character for a digit below ten.
fn digit(d: usize) -> (c: char)
    requires
        d < 10,
    ensures
        c == digit_of(d as nat),
{
    if d == 0 {
        '0'
    } else if d == 1 {
        '1'
    } else if d == 2 {
        '2'
    } else if d == 3 {
        '3'
    } else if d == 4 {
        '4'
    } else if d == 5 {
        '5'
    } else if d == 6 {
        '6'
    } else if d == 7 {
        '7'
    } else if d == 8 {
        '8'
    } else {
        '9'
    }
}

/// Writes `n` in decimal digits.
pub fn decimal(n: usize) -> (s: String)
    ensures
        s@ == decimal_of(n as nat),
    decreases n,
{
    if n < 10 {
        let mut s = String::new();
        push_char(&mut s, digit(n));
        assert(s@ =~= seq![digit_of(n as nat)]);
        s
    } else {
        let mut s = decimal(n / 10);
        push_char(&mut s, digit(n % 10));
        s
    }
}

impl OpError {
    /// The message of the failure, as it is shown to the user.
    pub fn message(&self) -> (text: String)
        ensures
            text@ == message_of(self@),
    {
        match self {
            OpError::MissingHeader => String::from_str("CSV error: the input has no header record"),
            OpError::OpenQuote => String::from_str(
                "CSV error: a quoted field is still open at the end of the input",
            ),
            OpError::Csv { message } => message.clone(),
            OpError::RaggedRow { expected, found } => {
                let mut text = String::from_str("CSV error: found row with ");
                text.append(decimal(*found).as_str());
                text.append(" fields, but the header has ");
                text.append(decimal(*expected).as_str());
                text.append(" fields");
                text
            },
        }
    }
}

/// The view of an operation's result: the text it produced, or why it failed.
pub open spec fn outcome(r: Result<String, OpError>) -> Result<Seq<char>, Failure> {
    match r {
        Ok(text) => Ok(text@),
        Err(e) => Err(e@),
    }
}

} // verus!
