//! The plain form: `path, state, keydown, keyup` and, where the configuration
//! enables it, `keypress`, each an expression that is carried through as it is.

use crate::error::{syntax_error, Diagnostic, ErrorKind, Failure, MacroError, ParseFailure};
use crate::events::{configured_event_count, event_count};
use crate::emit::streams_view;
use crate::handler_expr::{emit_key_handler_new, key_handler_new};
use crate::key_handlers::count_mismatch;
use crate::reader::{
    at_end, expect_punct, expr_step, is_at_end, path_step, punct_step, read_expr, read_path,
};
use crate::syntax::{Leading, Parsed};
use crate::reader::value_view;
use crate::tokens::{stream_len, stream_view, Tok};
use proc_macro2::TokenStream;
use vstd::prelude::*;
use vstd::string::*;

verus! {

/// The arguments of the plain form as a mathematical value.
pub struct PlainDescriptor {
    /// The path that names the key.
    pub path: Seq<Tok>,
    /// The expression that gives the initial state.
    pub state: Seq<Tok>,
    /// The expressions that give the event handlers, in the order `keydown`,
    /// `keyup`, `keypress`.
    pub fs: Seq<Seq<Tok>>,
}

/// The arguments of the plain form.
pub struct Args {
    /// The path that names the key.
    pub path: TokenStream,
    /// The expression that gives the initial state.
    pub state: TokenStream,
    /// The expressions that give the event handlers.
    pub fs: Vec<TokenStream>,
}

impl View for Args {
    type V = PlainDescriptor;

    open spec fn view(&self) -> PlainDescriptor {
        PlainDescriptor {
            path: stream_view(self.path),
            state: stream_view(self.state),
            fs: streams_view(self.fs@),
        }
    }
}

/// Reads `, <expr>`.
pub open spec fn argument_step(input: Seq<Tok>) -> Result<Leading, Failure> {
    match punct_step(input, ',', ","@) {
        Err(failure) => Err(failure),
        Ok(after_comma) => expr_step(after_comma),
    }
}

/// Reads the whole plain form: the path, the state, the `keydown` handler, the
/// `keyup` handler and, if tokens are left, the `keypress` handler; nothing
/// that can be seen may follow.
pub open spec fn plain_syntax(input: Seq<Tok>) -> Result<PlainDescriptor, Failure> {
    match path_step(input) {
        Err(failure) => Err(failure),
        Ok(path) => match argument_step(path.rest) {
            Err(failure) => Err(failure),
            Ok(state) => match argument_step(state.rest) {
                Err(failure) => Err(failure),
                Ok(down) => match argument_step(down.rest) {
                    Err(failure) => Err(failure),
                    Ok(up) => if at_end(up.rest) {
                        Ok(PlainDescriptor { path: path.value, state: state.value, fs: seq![down.value, up.value] })
                    } else {
                        match argument_step(up.rest) {
                            Err(failure) => Err(failure),
                            Ok(press) => if at_end(press.rest) {
                                Ok(
                                    PlainDescriptor {
                                        path: path.value,
                                        state: state.value,
                                        fs: seq![down.value, up.value, press.value],
                                    },
                                )
                            } else {
                                Err(Failure { message: "unexpected token"@, remaining: press.rest.len() })
                            },
                        }
                    },
                },
            },
        },
    }
}

/// The arguments that an input in the plain form stands for under a
/// configuration, or the diagnostic: a syntax error from the reader, or a
/// mismatch of the number of event handlers.
pub open spec fn plain_descriptor(input: Seq<Tok>, keypress: bool) -> Result<PlainDescriptor, Diagnostic> {
    match plain_syntax(input) {
        Err(failure) => Err(syntax_error(input.len(), failure)),
        Ok(descriptor) => if descriptor.fs.len() == event_count(keypress) {
            Ok(descriptor)
        } else {
            Err(
                Diagnostic {
                    kind: ErrorKind::ConfigurationMismatch,
                    message: count_mismatch(keypress),
                    position: None,
                },
            )
        },
    }
}

/// The code of the plain form: the key handler is built from the state and the
/// handlers as they were written.
pub open spec fn plain_expansion(descriptor: PlainDescriptor) -> Seq<Tok> {
    key_handler_new(descriptor.path, descriptor.state, descriptor.fs)
}

/// The view of the arguments or of the failure to read them.
pub open spec fn plain_syntax_view(outcome: Result<Args, ParseFailure>) -> Result<PlainDescriptor, Failure> {
    match outcome {
        Ok(args) => Ok(args@),
        Err(failure) => Err(failure@),
    }
}

/// The view of the arguments or of the diagnostic.
pub open spec fn plain_view(outcome: Result<Args, MacroError>) -> Result<PlainDescriptor, Diagnostic> {
    match outcome {
        Ok(args) => Ok(args@),
        Err(error) => Err(error@),
    }
}

/// Reads `, <expr>`.
pub fn read_argument(input: &TokenStream) -> (outcome: Result<Parsed, ParseFailure>)
    ensures
        value_view(outcome) == argument_step(stream_view(*input)),
{
    let after_comma = expect_punct(input, ',', ",")?;
    read_expr(&after_comma)
}

impl Args {
    /// Reads the plain form.
    pub fn parse(input: &TokenStream) -> (outcome: Result<Args, ParseFailure>)
        ensures
            plain_syntax_view(outcome) == plain_syntax(stream_view(*input)),
    {
        let path = read_path(input)?;
        let state = read_argument(&path.rest)?;
        let down = read_argument(&state.rest)?;
        let up = read_argument(&down.rest)?;
        let ghost first = stream_view(down.value);
        let ghost second = stream_view(up.value);
        let mut fs: Vec<TokenStream> = Vec::new();
        fs.push(down.value);
        fs.push(up.value);
        if is_at_end(&up.rest) {
            assert(streams_view(fs@) =~= seq![first, second]);
            return Ok(Args { path: path.value, state: state.value, fs });
        }
        let press = read_argument(&up.rest)?;
        if !is_at_end(&press.rest) {
            return Err(
                ParseFailure {
                    message: String::from_str("unexpected token"),
                    remaining: stream_len(&press.rest),
                },
            );
        }
        let ghost third = stream_view(press.value);
        fs.push(press.value);
        assert(streams_view(fs@) =~= seq![first, second, third]);
        Ok(Args { path: path.value, state: state.value, fs })
    }

    /// Reads the plain form and holds the number of event handlers against
    /// the configuration.
    pub fn read(input: &TokenStream, keypress: bool) -> (outcome: Result<Args, MacroError>)
        ensures
            plain_view(outcome) == plain_descriptor(stream_view(*input), keypress),
    {
        match Args::parse(input) {
            Err(failure) => Err(MacroError::syntax(stream_len(input), failure)),
            Ok(args) => if args.fs.len() == configured_event_count(keypress) {
                Ok(args)
            } else {
                let message = if keypress {
                    String::from_str("expected 3 event handlers: `keydown`, `keyup` and `keypress`")
                } else {
                    String::from_str("expected 2 event handlers: `keydown` and `keyup`")
                };
                Err(MacroError { kind: ErrorKind::ConfigurationMismatch, message, position: None })
            },
        }
    }

    /// Writes the code of the plain form.
    pub fn extend_with_key_handler_expr(&self, ts: &mut TokenStream)
        ensures
            stream_view(*final(ts)) == stream_view(*old(ts)) + plain_expansion(self@),
    {
        emit_key_handler_new(ts, &self.path, &self.state, &self.fs);
    }
}

} // verus!
