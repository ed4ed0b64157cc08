//! The code of a simplified key handler: the state gains a flag that says
//! whether the key is held, and the closure of each event is wrapped in one
//! that keeps the flag.

use crate::emit::{
    emit_group, emit_ident, emit_member, emit_punct, emit_segment, emit_stream, group, ident,
    member, punct, segment, streams_view,
};
use crate::events::{EventKind, KEYDOWN_ID, KEYUP_ID};
use crate::handler_expr::{emit_key_handler_new, key_handler_new};
use crate::key_handlers::{Args, EventBody, HandlerDescriptor, KeyEventHandler};
use crate::tokens::{
    empty_stream, split_stream, stream_len, stream_view, token_at, Delim, Tok, Token,
};
use proc_macro2::TokenStream;
use vstd::prelude::*;
use vstd::string::*;

verus! {

/// Whether a token is the `|` that opens the parameters of a closure.
pub open spec fn is_bar(token: Tok) -> bool {
    token is Punct && token->Punct_0 == '|'
}

/// Whether none of the first `count` tokens is a `|`.
pub open spec fn bar_free(tokens: Seq<Tok>, count: int) -> bool {
    forall|j: int| 0 <= j < count ==> !is_bar(#[trigger] tokens[j])
}

/// Whether the token at `index` is the `move` that stands directly before the
/// first `|` of a closure.
pub open spec fn captures_at(closure: Seq<Tok>, index: int) -> bool {
    &&& 0 <= index
    &&& index + 1 < closure.len()
    &&& closure[index] == Tok::Ident("move"@)
    &&& is_bar(closure[index + 1])
    &&& bar_free(closure, index)
}

/// The closure without the `move` before its parameters, so that it takes what
/// it uses by reference; a closure without that `move` stays as it is.
pub open spec fn by_reference(closure: Seq<Tok>) -> Seq<Tok> {
    if exists|index: int| captures_at(closure, index) {
        closure.remove(choose|index: int| captures_at(closure, index))
    } else {
        closure
    }
}

/// At most one token of a closure is the `move` before its parameters.
pub proof fn lemma_capture_is_unique(closure: Seq<Tok>, first: int, second: int)
    requires
        captures_at(closure, first),
        captures_at(closure, second),
    ensures
        first == second,
{
    if first < second {
        assert(is_bar(closure[first + 1]));
        if first + 1 < second {
            assert(!is_bar(closure[first + 1]));
        }
    } else if second < first {
        assert(is_bar(closure[second + 1]));
        if second + 1 < first {
            assert(!is_bar(closure[second + 1]));
        }
    }
}

/// The closure without the `move` before its parameters.
pub fn closure_by_reference(closure: &TokenStream) -> (rewritten: TokenStream)
    ensures
        stream_view(rewritten) == by_reference(stream_view(*closure)),
{
    let ghost tokens = stream_view(*closure);
    let count = stream_len(closure);
    let mut bar: usize = 0;
    let mut found = false;
    while bar < count && !found
        invariant
            bar <= count,
            count == tokens.len(),
            tokens == stream_view(*closure),
            bar_free(tokens, bar as int),
            found ==> bar < count && is_bar(tokens[bar as int]),
        decreases count - bar + (if found { 0int } else { 1int }),
    {
        let here = match token_at(closure, bar) {
            Some(Token::Punct(ch, _)) => ch == '|',
            _ => false,
        };
        if here {
            found = true;
        } else {
            bar += 1;
        }
    }
    let moves = if found && bar > 0 {
        match token_at(closure, bar - 1) {
            Some(Token::Ident(name)) => name == String::from_str("move"),
            _ => false,
        }
    } else {
        false
    };
    if moves {
        let parts = split_stream(closure, bar - 1);
        let tail = split_stream(&parts.1, 1);
        let mut rewritten = parts.0;
        emit_stream(&mut rewritten, &tail.1);
        proof {
            let at = bar - 1;
            assert(captures_at(tokens, at));
            let chosen = choose|index: int| captures_at(tokens, index);
            lemma_capture_is_unique(tokens, at, chosen);
            assert(stream_view(rewritten) =~= tokens.remove(at));
        }
        rewritten
    } else {
        proof {
            if exists|index: int| captures_at(tokens, index) {
                let chosen = choose|index: int| captures_at(tokens, index);
                assert(is_bar(tokens[chosen + 1]));
                if found {
                    if chosen + 1 < bar {
                        assert(!is_bar(tokens[chosen + 1]));
                    } else if chosen + 1 > bar {
                        assert(!is_bar(tokens[bar as int]));
                    }
                    assert(chosen == bar - 1);
                    assert(false);
                } else {
                    assert(!is_bar(tokens[chosen + 1]));
                }
            }
        }
        let parts = split_stream(closure, 0);
        assert(stream_view(parts.1) =~= tokens);
        parts.1
    }
}

/// `(::std::cell::Cell::new(false), state)`: the state with the flag that says
/// whether the key is held; the key starts released.
pub open spec fn pressed_state(state: Seq<Tok>) -> Seq<Tok> {
    group(
        Delim::Parenthesis,
        segment("std"@) + segment("cell"@) + segment("Cell"@) + segment("new"@) + group(
            Delim::Parenthesis,
            ident("false"@),
        ) + punct(',') + state,
    )
}

/// `let handler = closure;`
pub open spec fn bind_handler(closure: Seq<Tok>) -> Seq<Tok> {
    ident("let"@) + ident("handler"@) + punct('=') + closure + punct(';')
}

/// `handler(state);`
pub open spec fn call_handler() -> Seq<Tok> {
    ident("handler"@) + group(Delim::Parenthesis, ident("state"@)) + punct(';')
}

/// `is_pressed.set(value);`
pub open spec fn set_pressed(value: Seq<char>) -> Seq<Tok> {
    ident("is_pressed"@) + member("set"@) + group(Delim::Parenthesis, ident(value)) + punct(';')
}

/// What the wrapped closure of an event kind does with the flag and with the
/// closure that was written:
/// `keydown` calls it only if the key was released, and marks the key held;
/// `keyup` marks the key released and calls it;
/// `keypress` calls it and then marks the key released, so that the next
/// `keydown` calls its closure although no `keyup` came in between.
pub open spec fn guarded_body(event: EventKind, closure: Seq<Tok>) -> Seq<Tok> {
    match event {
        EventKind::Asserted => bind_handler(closure) + ident("if"@) + punct('!') + ident("is_pressed"@)
            + member("get"@) + group(Delim::Parenthesis, Seq::empty()) + group(
            Delim::Brace,
            set_pressed("true"@) + call_handler(),
        ),
        EventKind::Released => bind_handler(closure) + set_pressed("false"@) + call_handler(),
        EventKind::Sustained => bind_handler(closure) + call_handler() + set_pressed("false"@),
    }
}

/// `move |(ref is_pressed, ref state)| { .. }`: the closure that takes the flag
/// and the state.
pub open spec fn guarded_closure(event: EventKind, closure: Seq<Tok>) -> Seq<Tok> {
    ident("move"@) + punct('|') + group(
        Delim::Parenthesis,
        ident("ref"@) + ident("is_pressed"@) + punct(',') + ident("ref"@) + ident("state"@),
    ) + punct('|') + group(Delim::Brace, guarded_body(event, closure))
}

/// `{ prelude wrapped-closure }`: an event body with its closure wrapped; the
/// closure that was written takes what it uses by reference.
pub open spec fn guarded_block(event: EventKind, body: EventBody) -> Seq<Tok> {
    group(Delim::Brace, body.prelude + guarded_closure(event, by_reference(body.tail)))
}

/// The event kind whose body stands at `index`.
pub open spec fn event_at(index: int) -> EventKind {
    if index == 0 {
        EventKind::Asserted
    } else if index == 1 {
        EventKind::Released
    } else {
        EventKind::Sustained
    }
}

/// The event bodies with their closures wrapped.
pub open spec fn guarded_blocks(bodies: Seq<EventBody>) -> Seq<Seq<Tok>> {
    Seq::new(bodies.len(), |i: int| guarded_block(event_at(i), bodies[i]))
}

/// The code of a simplified key handler: the state gains the flag, and each
/// event body has its closure wrapped.
pub open spec fn simplified_expansion(descriptor: HandlerDescriptor) -> Seq<Tok> {
    key_handler_new(descriptor.path, pressed_state(descriptor.state), guarded_blocks(descriptor.bodies))
}

/// Writes `handler(state);`.
fn emit_call_handler(out: &mut TokenStream)
    ensures
        stream_view(*final(out)) == stream_view(*old(out)) + call_handler(),
{
    proof {
        reveal_strlit("handler");
        reveal_strlit("state");
    }
    let mut argument = empty_stream();
    emit_ident(&mut argument, "state");
    assert(stream_view(argument) =~= ident("state"@));
    emit_ident(out, "handler");
    emit_group(out, Delim::Parenthesis, &argument);
    emit_punct(out, ';');
    assert(stream_view(*out) =~= stream_view(*old(out)) + call_handler());
}

/// Writes `is_pressed.set(value);`.
fn emit_set_pressed(out: &mut TokenStream, value: bool)
    ensures
        stream_view(*final(out)) == stream_view(*old(out)) + set_pressed(if value { "true"@ } else { "false"@ }),
{
    proof {
        reveal_strlit("is_pressed");
        reveal_strlit("set");
        reveal_strlit("true");
        reveal_strlit("false");
    }
    let word = if value { "true" } else { "false" };
    let mut argument = empty_stream();
    emit_ident(&mut argument, word);
    assert(stream_view(argument) =~= ident(word@));
    emit_ident(out, "is_pressed");
    emit_member(out, "set");
    emit_group(out, Delim::Parenthesis, &argument);
    emit_punct(out, ';');
    assert(stream_view(*out) =~= stream_view(*old(out)) + set_pressed(word@));
}

/// Writes `let handler = closure;`.
fn emit_bind_handler(out: &mut TokenStream, closure: &TokenStream)
    ensures
        stream_view(*final(out)) == stream_view(*old(out)) + bind_handler(stream_view(*closure)),
{
    proof {
        reveal_strlit("let");
        reveal_strlit("handler");
    }
    emit_ident(out, "let");
    emit_ident(out, "handler");
    emit_punct(out, '=');
    emit_stream(out, closure);
    emit_punct(out, ';');
    assert(stream_view(*out) =~= stream_view(*old(out)) + bind_handler(stream_view(*closure)));
}

/// The body of the wrapped closure of an event kind.
fn guarded_body_tokens(event: EventKind, closure: &TokenStream) -> (body: TokenStream)
    ensures
        stream_view(body) == guarded_body(event, stream_view(*closure)),
{
    let mut body = empty_stream();
    emit_bind_handler(&mut body, closure);
    match event {
        EventKind::Asserted => {
            proof {
                reveal_strlit("if");
                reveal_strlit("is_pressed");
                reveal_strlit("get");
            }
            let mut guarded = empty_stream();
            emit_set_pressed(&mut guarded, true);
            emit_call_handler(&mut guarded);
            assert(stream_view(guarded) =~= set_pressed("true"@) + call_handler());
            let nothing = empty_stream();
            emit_ident(&mut body, "if");
            emit_punct(&mut body, '!');
            emit_ident(&mut body, "is_pressed");
            emit_member(&mut body, "get");
            emit_group(&mut body, Delim::Parenthesis, &nothing);
            emit_group(&mut body, Delim::Brace, &guarded);
        },
        EventKind::Released => {
            emit_set_pressed(&mut body, false);
            emit_call_handler(&mut body);
        },
        EventKind::Sustained => {
            emit_call_handler(&mut body);
            emit_set_pressed(&mut body, false);
        },
    }
    assert(stream_view(body) =~= guarded_body(event, stream_view(*closure)));
    body
}

/// The wrapped body of an event kind, in its braces.
pub fn guarded_block_tokens(event: EventKind, handler: &KeyEventHandler) -> (block: TokenStream)
    ensures
        stream_view(block) == guarded_block(event, handler@),
{
    proof {
        reveal_strlit("move");
        reveal_strlit("ref");
        reveal_strlit("is_pressed");
        reveal_strlit("state");
    }
    let closure = closure_by_reference(&handler.closure);
    let body = guarded_body_tokens(event, &closure);
    let mut parameters = empty_stream();
    emit_ident(&mut parameters, "ref");
    emit_ident(&mut parameters, "is_pressed");
    emit_punct(&mut parameters, ',');
    emit_ident(&mut parameters, "ref");
    emit_ident(&mut parameters, "state");
    assert(stream_view(parameters) =~= ident("ref"@) + ident("is_pressed"@) + punct(',') + ident("ref"@)
        + ident("state"@));
    let mut inner = empty_stream();
    emit_stream(&mut inner, &handler.prelude);
    emit_ident(&mut inner, "move");
    emit_punct(&mut inner, '|');
    emit_group(&mut inner, Delim::Parenthesis, &parameters);
    emit_punct(&mut inner, '|');
    emit_group(&mut inner, Delim::Brace, &body);
    assert(stream_view(inner) =~= handler@.prelude + guarded_closure(event, by_reference(handler@.tail)));
    let mut block = empty_stream();
    emit_group(&mut block, Delim::Brace, &inner);
    assert(stream_view(block) =~= guarded_block(event, handler@));
    block
}

/// The state with the flag that says whether the key is held.
pub fn pressed_state_tokens(state: &TokenStream) -> (tokens: TokenStream)
    ensures
        stream_view(tokens) == pressed_state(stream_view(*state)),
{
    proof {
        reveal_strlit("std");
        reveal_strlit("cell");
        reveal_strlit("Cell");
        reveal_strlit("new");
        reveal_strlit("false");
    }
    let mut initial = empty_stream();
    emit_ident(&mut initial, "false");
    assert(stream_view(initial) =~= ident("false"@));
    let mut inner = empty_stream();
    emit_segment(&mut inner, "std");
    emit_segment(&mut inner, "cell");
    emit_segment(&mut inner, "Cell");
    emit_segment(&mut inner, "new");
    emit_group(&mut inner, Delim::Parenthesis, &initial);
    emit_punct(&mut inner, ',');
    emit_stream(&mut inner, state);
    assert(stream_view(inner) =~= segment("std"@) + segment("cell"@) + segment("Cell"@) + segment("new"@)
        + group(Delim::Parenthesis, ident("false"@)) + punct(',') + stream_view(*state));
    let mut tokens = empty_stream();
    emit_group(&mut tokens, Delim::Parenthesis, &inner);
    assert(stream_view(tokens) =~= pressed_state(stream_view(*state)));
    tokens
}

/// The event kind whose body stands at `index`.
pub fn event_kind_at(index: usize) -> (event: EventKind)
    ensures
        event == event_at(index as int),
{
    if index == KEYDOWN_ID {
        EventKind::Asserted
    } else if index == KEYUP_ID {
        EventKind::Released
    } else {
        EventKind::Sustained
    }
}

impl Args {
    /// Writes the code of a simplified key handler.
    pub fn extend_with_simplified_key_handler_expr(self, ts: &mut TokenStream)
        requires
            self@.bodies.len() <= 3,
        ensures
            stream_view(*final(ts)) == stream_view(*old(ts)) + simplified_expansion(self@),
    {
        let state = pressed_state_tokens(&self.state);
        let mut handlers: Vec<TokenStream> = Vec::new();
        let mut i: usize = 0;
        while i < self.key_event_handlers.len()
            invariant
                i <= self.key_event_handlers.len(),
                handlers@.len() == i,
                forall|j: int| 0 <= j < i ==> stream_view(#[trigger] handlers@[j]) == guarded_block(event_at(j), self.key_event_handlers@[j]@),
            decreases self.key_event_handlers.len() - i,
        {
            let block = guarded_block_tokens(event_kind_at(i), &self.key_event_handlers[i]);
            handlers.push(block);
            i += 1;
        }
        assert(streams_view(handlers@) =~= guarded_blocks(self@.bodies));
        emit_key_handler_new(ts, &self.path, &state, &handlers);
    }
}

} // verus!
