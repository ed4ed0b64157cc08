//! The single-handler form: `path, state = <expr>, keydown = <block>,
//! keyup = <block>` and, where the configuration enables it, `keypress = <block>`.

use crate::emit::{emit_group, emit_stream, group, streams_view};
use crate::error::{Diagnostic, ErrorKind, Failure, MacroError, ParseFailure};
use crate::events::{event_count, EventKind};
use crate::handler_expr::{emit_key_handler_new, key_handler_new};
use crate::reader::{
    at_end, expect_group, expect_keyword, expect_punct, expr_step, group_step, is_at_end,
    keyword_step, path_step, punct_step, read_expr, read_path, read_statements, statements_step,
};
use crate::syntax::{statements_view, Statement, Stmt};
use crate::tokens::{empty_stream, stream_len, stream_view, Delim, Tok};
use proc_macro2::TokenStream;
use vstd::prelude::*;
use vstd::string::*;

verus! {

/// The body of one event as a mathematical value.
pub struct EventBody {
    /// The statements that run once, when the handler is built.
    pub prelude: Seq<Tok>,
    /// The closure that runs at each event.
    pub tail: Seq<Tok>,
}

/// The body of one event: the statements before the closure, and the closure.
pub struct KeyEventHandler {
    pub prelude: TokenStream,
    pub closure: TokenStream,
}

impl View for KeyEventHandler {
    type V = EventBody;

    open spec fn view(&self) -> EventBody {
        EventBody { prelude: stream_view(self.prelude), tail: stream_view(self.closure) }
    }
}

/// The tokens of statements, one after the other.
pub open spec fn joined(stmts: Seq<Stmt>) -> Seq<Tok>
    decreases stmts.len(),
{
    if stmts.len() == 0 {
        Seq::empty()
    } else {
        joined(stmts.drop_last()) + stmts.last().tokens
    }
}

/// The message for a block without statements.
pub open spec fn handler_expected(event: Seq<char>) -> Seq<char> {
    "expected `"@ + event + "` event handler"@
}

/// The message for a block that does not end in a closure.
pub open spec fn closure_expected(event: Seq<char>) -> Seq<char> {
    "last statement of `"@ + event + "` event handler is expected to be a closure"@
}

/// The body that the statements of a block make: the last statement has to be
/// a closure, and the statements before it are the prelude. `remaining` is the
/// number of tokens after the block.
pub open spec fn event_body(event: EventKind, stmts: Seq<Stmt>, remaining: nat) -> Result<EventBody, Failure> {
    if stmts.len() == 0 {
        Err(Failure { message: handler_expected(event.keyword()), remaining })
    } else if !stmts.last().is_closure {
        Err(Failure { message: closure_expected(event.keyword()), remaining })
    } else {
        Ok(EventBody { prelude: joined(stmts.drop_last()), tail: stmts.last().tokens })
    }
}

/// The view of a body or of the failure to make one.
pub open spec fn body_view(outcome: Result<KeyEventHandler, ParseFailure>) -> Result<EventBody, Failure> {
    match outcome {
        Ok(body) => Ok(body@),
        Err(failure) => Err(failure@),
    }
}

impl KeyEventHandler {
    /// Makes the body of `event` from the statements of its block. A block
    /// without statements and a block whose last statement is no closure are
    /// refused, each with a message that names the event.
    pub fn from_statements(event: EventKind, statements: Vec<Statement>, remaining: usize) -> (outcome: Result<KeyEventHandler, ParseFailure>)
        ensures
            body_view(outcome) == event_body(event, statements_view(statements@), remaining as nat),
    {
        let ghost all = statements_view(statements@);
        let mut statements = statements;
        match statements.pop() {
            None => {
                let mut message = String::from_str("expected `");
                message.append(event.name());
                message.append("` event handler");
                Err(ParseFailure { message, remaining })
            },
            Some(last) => {
                assert(all.last() == last@);
                assert(statements_view(statements@) =~= all.drop_last());
                if !last.is_closure {
                    let mut message = String::from_str("last statement of `");
                    message.append(event.name());
                    message.append("` event handler is expected to be a closure");
                    Err(ParseFailure { message, remaining })
                } else {
                    let mut prelude = empty_stream();
                    let mut i: usize = 0;
                    assert(all.drop_last().take(0) =~= Seq::<Stmt>::empty());
                    while i < statements.len()
                        invariant
                            i <= statements.len(),
                            statements_view(statements@) == all.drop_last(),
                            stream_view(prelude) == joined(all.drop_last().take(i as int)),
                        decreases statements.len() - i,
                    {
                        emit_stream(&mut prelude, &statements[i].tokens);
                        proof {
                            let before = all.drop_last().take(i as int);
                            let after = all.drop_last().take(i + 1);
                            assert(after.drop_last() =~= before);
                            assert(after.last() == statements@[i as int]@);
                        }
                        i += 1;
                    }
                    assert(all.drop_last().take(i as int) =~= all.drop_last());
                    Ok(KeyEventHandler { prelude, closure: last.tokens })
                }
            },
        }
    }
}

/// The description of one key handler as a mathematical value.
pub struct HandlerDescriptor {
    /// The path that names the key.
    pub path: Seq<Tok>,
    /// The expression that gives the initial state.
    pub state: Seq<Tok>,
    /// The event bodies, in the order `keydown`, `keyup`, `keypress`.
    pub bodies: Seq<EventBody>,
}

/// The description of one key handler.
pub struct Args {
    /// The path that names the key, such as `KeyboardEventCode::KeyA`.
    pub path: TokenStream,
    /// The expression that gives the initial state.
    pub state: TokenStream,
    /// The event bodies, in the order `keydown`, `keyup`, `keypress`.
    pub key_event_handlers: Vec<KeyEventHandler>,
}

/// The views of event bodies, in order.
pub open spec fn bodies_view(handlers: Seq<KeyEventHandler>) -> Seq<EventBody> {
    Seq::new(handlers.len(), |i: int| handlers[i]@)
}

impl View for Args {
    type V = HandlerDescriptor;

    open spec fn view(&self) -> HandlerDescriptor {
        HandlerDescriptor {
            path: stream_view(self.path),
            state: stream_view(self.state),
            bodies: bodies_view(self.key_event_handlers@),
        }
    }
}

/// What stands before the event bodies, and the tokens after it.
pub struct Head {
    pub path: Seq<Tok>,
    pub state: Seq<Tok>,
    pub rest: Seq<Tok>,
}

/// One event body, and the tokens after it.
pub struct BodyRead {
    pub body: EventBody,
    pub rest: Seq<Tok>,
}

/// Reads `path, state = <expr>`.
pub open spec fn head_step(input: Seq<Tok>) -> Result<Head, Failure> {
    match path_step(input) {
        Err(failure) => Err(failure),
        Ok(path) => match punct_step(path.rest, ',', ","@) {
            Err(failure) => Err(failure),
            Ok(after_comma) => match keyword_step(after_comma, "state"@) {
                Err(failure) => Err(failure),
                Ok(after_word) => match punct_step(after_word, '=', "="@) {
                    Err(failure) => Err(failure),
                    Ok(after_eq) => match expr_step(after_eq) {
                        Err(failure) => Err(failure),
                        Ok(state) => Ok(Head { path: path.value, state: state.value, rest: state.rest }),
                    },
                },
            },
        },
    }
}

/// Reads `, <keyword> = <block>` for the event kind `event`. What is refused
/// inside the block is reported at the block.
pub open spec fn body_step(input: Seq<Tok>, event: EventKind) -> Result<BodyRead, Failure> {
    match punct_step(input, ',', ","@) {
        Err(failure) => Err(failure),
        Ok(after_comma) => match keyword_step(after_comma, event.keyword()) {
            Err(failure) => Err(failure),
            Ok(after_word) => match punct_step(after_word, '=', "="@) {
                Err(failure) => Err(failure),
                Ok(after_eq) => match group_step(after_eq, Delim::Brace, "expected curly braces"@) {
                    Err(failure) => Err(failure),
                    Ok(block) => match statements_step(block.inner, after_eq.len()) {
                        Err(failure) => Err(failure),
                        Ok(stmts) => match event_body(event, stmts, block.rest.len()) {
                            Err(failure) => Err(failure),
                            Ok(body) => Ok(BodyRead { body, rest: block.rest }),
                        },
                    },
                },
            },
        },
    }
}

/// Reads the whole single-handler form: the head, the `keydown` body, the
/// `keyup` body and, if tokens are left, the `keypress` body; nothing that
/// can be seen may follow.
pub open spec fn handler_syntax(input: Seq<Tok>) -> Result<HandlerDescriptor, Failure> {
    match head_step(input) {
        Err(failure) => Err(failure),
        Ok(head) => match body_step(head.rest, EventKind::Asserted) {
            Err(failure) => Err(failure),
            Ok(down) => match body_step(down.rest, EventKind::Released) {
                Err(failure) => Err(failure),
                Ok(up) => if at_end(up.rest) {
                    Ok(HandlerDescriptor { path: head.path, state: head.state, bodies: seq![down.body, up.body] })
                } else {
                    match body_step(up.rest, EventKind::Sustained) {
                        Err(failure) => Err(failure),
                        Ok(press) => if at_end(press.rest) {
                            Ok(
                                HandlerDescriptor {
                                    path: head.path,
                                    state: head.state,
                                    bodies: seq![down.body, up.body, press.body],
                                },
                            )
                        } else {
                            Err(Failure { message: "unexpected token"@, remaining: press.rest.len() })
                        },
                    }
                },
            },
        },
    }
}

/// The message for a number of event bodies that the configuration does not ask for.
pub open spec fn count_mismatch(keypress: bool) -> Seq<char> {
    if keypress {
        "expected 3 event handlers: `keydown`, `keyup` and `keypress`"@
    } else {
        "expected 2 event handlers: `keydown` and `keyup`"@
    }
}

/// A description is valid under a configuration when it holds one body for
/// each event kind of the configuration.
pub open spec fn validated(descriptor: HandlerDescriptor, keypress: bool) -> Result<HandlerDescriptor, Diagnostic> {
    if descriptor.bodies.len() == event_count(keypress) {
        Ok(descriptor)
    } else {
        Err(Diagnostic { kind: ErrorKind::ConfigurationMismatch, message: count_mismatch(keypress), position: None })
    }
}

/// The valid description that an input stands for under a configuration, or
/// the diagnostic: a syntax error from the reader, or a mismatch of the number
/// of event bodies.
pub open spec fn handler_descriptor(input: Seq<Tok>, keypress: bool) -> Result<HandlerDescriptor, Diagnostic> {
    match handler_syntax(input) {
        Err(failure) => Err(crate::error::syntax_error(input.len(), failure)),
        Ok(descriptor) => validated(descriptor, keypress),
    }
}

/// What stands before the event bodies, and the stream after it.
pub struct HeadParts {
    pub path: TokenStream,
    pub state: TokenStream,
    pub rest: TokenStream,
}

impl View for HeadParts {
    type V = Head;

    open spec fn view(&self) -> Head {
        Head { path: stream_view(self.path), state: stream_view(self.state), rest: stream_view(self.rest) }
    }
}

/// One event body, and the stream after it.
pub struct BodyParts {
    pub body: KeyEventHandler,
    pub rest: TokenStream,
}

impl View for BodyParts {
    type V = BodyRead;

    open spec fn view(&self) -> BodyRead {
        BodyRead { body: self.body@, rest: stream_view(self.rest) }
    }
}

/// The view of a head or of the failure to read one.
pub open spec fn head_view(outcome: Result<HeadParts, ParseFailure>) -> Result<Head, Failure> {
    match outcome {
        Ok(head) => Ok(head@),
        Err(failure) => Err(failure@),
    }
}

/// The view of a body with its rest, or of the failure to read one.
pub open spec fn body_read_view(outcome: Result<BodyParts, ParseFailure>) -> Result<BodyRead, Failure> {
    match outcome {
        Ok(parts) => Ok(parts@),
        Err(failure) => Err(failure@),
    }
}

/// The view of a description or of the failure to read one.
pub open spec fn syntax_view(outcome: Result<Args, ParseFailure>) -> Result<HandlerDescriptor, Failure> {
    match outcome {
        Ok(args) => Ok(args@),
        Err(failure) => Err(failure@),
    }
}

/// The view of a description or of the diagnostic.
pub open spec fn descriptor_view(outcome: Result<Args, MacroError>) -> Result<HandlerDescriptor, Diagnostic> {
    match outcome {
        Ok(args) => Ok(args@),
        Err(error) => Err(error@),
    }
}

/// Reads `path, state = <expr>`.
pub fn read_head(input: &TokenStream) -> (outcome: Result<HeadParts, ParseFailure>)
    ensures
        head_view(outcome) == head_step(stream_view(*input)),
{
    let path = read_path(input)?;
    let after_comma = expect_punct(&path.rest, ',', ",")?;
    let after_word = expect_keyword(&after_comma, "state")?;
    let after_eq = expect_punct(&after_word, '=', "=")?;
    let state = read_expr(&after_eq)?;
    Ok(HeadParts { path: path.value, state: state.value, rest: state.rest })
}

/// Reads `, <keyword> = <block>` for the event kind `event`.
pub fn read_body(input: &TokenStream, event: EventKind) -> (outcome: Result<BodyParts, ParseFailure>)
    ensures
        body_read_view(outcome) == body_step(stream_view(*input), event),
{
    let after_comma = expect_punct(input, ',', ",")?;
    let after_word = expect_keyword(&after_comma, event.name())?;
    let after_eq = expect_punct(&after_word, '=', "=")?;
    let block = expect_group(&after_eq, Delim::Brace, "expected curly braces")?;
    let statements = read_statements(&block.inner, stream_len(&after_eq))?;
    let body = KeyEventHandler::from_statements(event, statements, stream_len(&block.rest))?;
    Ok(BodyParts { body, rest: block.rest })
}

impl Args {
    /// Reads the single-handler form.
    pub fn parse(input: &TokenStream) -> (outcome: Result<Args, ParseFailure>)
        ensures
            syntax_view(outcome) == handler_syntax(stream_view(*input)),
    {
        let head = read_head(input)?;
        let down = read_body(&head.rest, EventKind::Asserted)?;
        let up = read_body(&down.rest, EventKind::Released)?;
        let mut key_event_handlers: Vec<KeyEventHandler> = Vec::new();
        key_event_handlers.push(down.body);
        key_event_handlers.push(up.body);
        if is_at_end(&up.rest) {
            assert(bodies_view(key_event_handlers@) =~= seq![down.body@, up.body@]);
            return Ok(Args { path: head.path, state: head.state, key_event_handlers });
        }
        let press = read_body(&up.rest, EventKind::Sustained)?;
        if !is_at_end(&press.rest) {
            return Err(
                ParseFailure {
                    message: String::from_str("unexpected token"),
                    remaining: stream_len(&press.rest),
                },
            );
        }
        key_event_handlers.push(press.body);
        assert(bodies_view(key_event_handlers@) =~= seq![down.body@, up.body@, press.body@]);
        Ok(Args { path: head.path, state: head.state, key_event_handlers })
    }

    /// Holds the number of event bodies against the configuration.
    pub fn validate(self, keypress: bool) -> (outcome: Result<Args, MacroError>)
        ensures
            descriptor_view(outcome) == validated(self@, keypress),
    {
        if self.key_event_handlers.len() == crate::events::configured_event_count(keypress) {
            Ok(self)
        } else {
            let message = if keypress {
                String::from_str("expected 3 event handlers: `keydown`, `keyup` and `keypress`")
            } else {
                String::from_str("expected 2 event handlers: `keydown` and `keyup`")
            };
            Err(MacroError { kind: ErrorKind::ConfigurationMismatch, message, position: None })
        }
    }

    /// Reads the single-handler form and validates it under the configuration.
    pub fn read(input: &TokenStream, keypress: bool) -> (outcome: Result<Args, MacroError>)
        ensures
            descriptor_view(outcome) == handler_descriptor(stream_view(*input), keypress),
    {
        match Args::parse(input) {
            Err(failure) => Err(MacroError::syntax(stream_len(input), failure)),
            Ok(args) => args.validate(keypress),
        }
    }
}

/// `{ prelude closure }`: an event body as it was written.
pub open spec fn body_block(body: EventBody) -> Seq<Tok> {
    group(Delim::Brace, body.prelude + body.tail)
}

/// The event bodies as they were written.
pub open spec fn body_blocks(bodies: Seq<EventBody>) -> Seq<Seq<Tok>> {
    Seq::new(bodies.len(), |i: int| body_block(bodies[i]))
}

/// The code of a primitive key handler: the handler is built from the state
/// and the event bodies as they were written.
pub open spec fn primitive_expansion(descriptor: HandlerDescriptor) -> Seq<Tok> {
    key_handler_new(descriptor.path, descriptor.state, body_blocks(descriptor.bodies))
}

impl KeyEventHandler {
    /// Writes the body as it was written: `{ prelude closure }`.
    pub fn to_tokens(&self, tokens: &mut TokenStream)
        ensures
            stream_view(*final(tokens)) == stream_view(*old(tokens)) + body_block(self@),
    {
        let mut inner = empty_stream();
        emit_stream(&mut inner, &self.prelude);
        emit_stream(&mut inner, &self.closure);
        assert(stream_view(inner) =~= self@.prelude + self@.tail);
        emit_group(tokens, Delim::Brace, &inner);
    }
}

impl Args {
    /// Writes the code of a primitive key handler.
    pub fn extend_with_primitive_key_handler_expr(&self, ts: &mut TokenStream)
        ensures
            stream_view(*final(ts)) == stream_view(*old(ts)) + primitive_expansion(self@),
    {
        let mut handlers: Vec<TokenStream> = Vec::new();
        let mut i: usize = 0;
        while i < self.key_event_handlers.len()
            invariant
                i <= self.key_event_handlers.len(),
                handlers@.len() == i,
                forall|j: int| 0 <= j < i ==> stream_view(#[trigger] handlers@[j]) == body_block(self.key_event_handlers@[j]@),
            decreases self.key_event_handlers.len() - i,
        {
            let mut block = empty_stream();
            self.key_event_handlers[i].to_tokens(&mut block);
            assert(stream_view(block) =~= body_block(self.key_event_handlers@[i as int]@));
            handlers.push(block);
            i += 1;
        }
        assert(streams_view(handlers@) =~= body_blocks(self@.bodies));
        emit_key_handler_new(ts, &self.path, &self.state, &handlers);
    }
}

} // verus!
