//! Diagnostics: what went wrong, in words, and where.

use vstd::prelude::*;

verus! {

/// The three kinds of failure.
#[derive(Clone, Copy, Debug, PartialEq, Eq, Structural)]
pub enum ErrorKind {
    /// The input does not follow the grammar.
    Syntax,
    /// The input follows the grammar but means nothing: an empty list of keys.
    Validation,
    /// The number of event bodies is not the one that the configuration asks for.
    ConfigurationMismatch,
}

/// A diagnostic as a mathematical value.
pub struct Diagnostic {
    pub kind: ErrorKind,
    pub message: Seq<char>,
    /// The number of tokens of the input before the place of the error;
    /// `None` stands for the call site as a whole.
    pub position: Option<nat>,
}

/// A diagnostic: kind, message and position.
#[derive(Debug)]
pub struct MacroError {
    pub kind: ErrorKind,
    pub message: String,
    /// The number of tokens of the input before the place of the error;
    /// `None` stands for the call site as a whole.
    pub position: Option<usize>,
}

impl View for MacroError {
    type V = Diagnostic;

    open spec fn view(&self) -> Diagnostic {
        Diagnostic {
            kind: self.kind,
            message: self.message@,
            position: match self.position {
                Some(at) => Some(at as nat),
                None => None,
            },
        }
    }
}

/// A failure of the reader as a mathematical value: the message, and the
/// number of tokens that were still unread.
pub struct Failure {
    pub message: Seq<char>,
    pub remaining: nat,
}

/// A failure of the reader.
pub struct ParseFailure {
    pub message: String,
    pub remaining: usize,
}

impl View for ParseFailure {
    type V = Failure;

    open spec fn view(&self) -> Failure {
        Failure { message: self.message@, remaining: self.remaining as nat }
    }
}

/// The place of a failure, counted from the start of an input of `total` tokens.
pub open spec fn position_of(total: nat, remaining: nat) -> nat {
    if remaining <= total {
        (total - remaining) as nat
    } else {
        0
    }
}

/// The syntax error that a failure of the reader becomes, for an input of
/// `total` tokens.
pub open spec fn syntax_error(total: nat, failure: Failure) -> Diagnostic {
    Diagnostic {
        kind: ErrorKind::Syntax,
        message: failure.message,
        position: Some(position_of(total, failure.remaining)),
    }
}

impl MacroError {
    /// Turns a failure of the reader into a syntax error with its position
    /// counted from the start of the input.
    pub fn syntax(total: usize, failure: ParseFailure) -> (error: MacroError)
        ensures
            error@ == syntax_error(total as nat, failure@),
    {
        let at: usize = if failure.remaining <= total {
            total - failure.remaining
        } else {
            0
        };
        MacroError { kind: ErrorKind::Syntax, message: failure.message, position: Some(at) }
    }

    /// The message, as the diagnostic prints.
    pub fn to_string(&self) -> (text: String)
        ensures
            text@ == self.message@,
    {
        self.message.clone()
    }
}

} // verus!
