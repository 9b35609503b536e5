use vstd::prelude::*;
use vstd::string::StringExecFns;
use crate::decimal::{decimal_nat, padded, render_padded};

verus! {

/// Why a token sequence is no expression.
#[derive(Clone, Copy, Debug, PartialEq, Eq, Structural)]
pub enum KrParseError {
    UnexpectedRParen,
    UnexpectedEOF,
    MissingRParen,
    IncompleteParse,
    UnexpectedRBracket,
    MissingRBracket,
    UnexpectedSemiColon,
}

/// Why an expression has no value.
#[derive(Clone, Copy, Debug, PartialEq, Eq, Structural)]
pub enum KrEvalError {
    Type,
    NotAVerb,
    Rank,
    Length,
    Assign,
    NotDefined,
}

/// Either family of failure.
#[derive(Clone, Copy, Debug, PartialEq, Eq, Structural)]
pub enum KrError {
    Parse(KrParseError),
    Eval(KrEvalError),
}

/// The line shown for an error: the marker `'E`, the code in four digits, a
/// colon and a space, then the message.
pub open spec fn error_line(code: nat, message: Seq<char>) -> Seq<char> {
    "'E"@ + padded(decimal_nat(code), 4, '0') + ": "@ + message
}

fn render_error(code: usize, message: &str) -> (r: String)
    ensures
        r@ == error_line(code as nat, message@),
{
    let mut out = String::from_str("'E");
    let digits = render_padded(code as u64, 4);
    out.append(digits.as_str());
    out.append(": ");
    out.append(message);
    out
}

impl KrParseError {
    /// The message of each parse error.
    pub open spec fn message(self) -> Seq<char> {
        match self {
            KrParseError::IncompleteParse => "finished parse unexpectedly"@,
            KrParseError::MissingRParen => "missing )"@,
            KrParseError::UnexpectedEOF => "unexpected eof"@,
            KrParseError::UnexpectedRParen => "unexpected )"@,
            KrParseError::UnexpectedRBracket => "unexpected ]"@,
            KrParseError::MissingRBracket => "missing ]"@,
            KrParseError::UnexpectedSemiColon => "unexpected ;"@,
        }
    }

    /// The code of each parse error; all lie in 101..=107.
    pub open spec fn number(self) -> nat {
        match self {
            KrParseError::IncompleteParse => 101,
            KrParseError::MissingRParen => 102,
            KrParseError::UnexpectedEOF => 103,
            KrParseError::UnexpectedRParen => 104,
            KrParseError::UnexpectedRBracket => 105,
            KrParseError::MissingRBracket => 106,
            KrParseError::UnexpectedSemiColon => 107,
        }
    }

    /// What went wrong, in words.
    pub fn msg(&self) -> (r: &'static str)
        ensures
            r@ == self.message(),
    {
        match self {
            KrParseError::IncompleteParse => "finished parse unexpectedly",
            KrParseError::MissingRParen => "missing )",
            KrParseError::UnexpectedEOF => "unexpected eof",
            KrParseError::UnexpectedRParen => "unexpected )",
            KrParseError::UnexpectedRBracket => "unexpected ]",
            KrParseError::MissingRBracket => "missing ]",
            KrParseError::UnexpectedSemiColon => "unexpected ;",
        }
    }

    /// The stable code of the error.
    pub fn code(&self) -> (r: usize)
        ensures
            r == self.number(),
    {
        match self {
            KrParseError::IncompleteParse => 101,
            KrParseError::MissingRParen => 102,
            KrParseError::UnexpectedEOF => 103,
            KrParseError::UnexpectedRParen => 104,
            KrParseError::UnexpectedRBracket => 105,
            KrParseError::MissingRBracket => 106,
            KrParseError::UnexpectedSemiColon => 107,
        }
    }

    /// The line shown for the error.
    pub fn display(&self) -> (r: String)
        ensures
            r@ == error_line(self.number(), self.message()),
    {
        render_error(self.code(), self.msg())
    }
}

impl KrEvalError {
    /// The message of each evaluation error.
    pub open spec fn message(self) -> Seq<char> {
        match self {
            KrEvalError::Type => "type"@,
            KrEvalError::NotAVerb => "not a verb"@,
            KrEvalError::Rank => "rank"@,
            KrEvalError::Length => "length"@,
            KrEvalError::Assign => "assign"@,
            KrEvalError::NotDefined => "not defined"@,
        }
    }

    /// The code of each evaluation error; all lie in 201..=206.
    pub open spec fn number(self) -> nat {
        match self {
            KrEvalError::Type => 201,
            KrEvalError::NotAVerb => 202,
            KrEvalError::Rank => 203,
            KrEvalError::Length => 204,
            KrEvalError::Assign => 205,
            KrEvalError::NotDefined => 206,
        }
    }

    /// What went wrong, in words.
    pub fn msg(&self) -> (r: &'static str)
        ensures
            r@ == self.message(),
    {
        match self {
            KrEvalError::Type => "type",
            KrEvalError::NotAVerb => "not a verb",
            KrEvalError::Rank => "rank",
            KrEvalError::Length => "length",
            KrEvalError::Assign => "assign",
            KrEvalError::NotDefined => "not defined",
        }
    }

    /// The stable code of the error.
    pub fn code(&self) -> (r: usize)
        ensures
            r == self.number(),
    {
        match self {
            KrEvalError::Type => 201,
            KrEvalError::NotAVerb => 202,
            KrEvalError::Rank => 203,
            KrEvalError::Length => 204,
            KrEvalError::Assign => 205,
            KrEvalError::NotDefined => 206,
        }
    }

    /// The line shown for the error.
    pub fn display(&self) -> (r: String)
        ensures
            r@ == error_line(self.number(), self.message()),
    {
        render_error(self.code(), self.msg())
    }
}

impl KrError {
    /// The line shown for the error.
    pub open spec fn line(self) -> Seq<char> {
        match self {
            KrError::Parse(e) => error_line(e.number(), e.message()),
            KrError::Eval(e) => error_line(e.number(), e.message()),
        }
    }

    /// The line to print for the error; printing it is left to the caller.
    pub fn print(&self) -> (r: String)
        ensures
            r@ == self.line(),
    {
        match self {
            KrError::Parse(e) => e.display(),
            KrError::Eval(e) => e.display(),
        }
    }
}

/// The two families keep to bands of codes that do not meet.
pub proof fn lemma_code_bands(p: KrParseError, e: KrEvalError)
    ensures
        101 <= p.number() <= 107,
        201 <= e.number() <= 206,
{
}

} // verus!
