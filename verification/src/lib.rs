//! A compiler for a small keyboard-handling language.
//!
//! Three forms are read from token streams, validated and turned into code:
//! a key handler with the event bodies as they are written
//! ([`new_primitive_key_handler`]), a key handler that runs its `keydown`
//! closure once for each press ([`new_simplified_key_handler`]), and a table
//! that routes the events of each key to its handler and puts the listeners on
//! a target ([`start_keywise_keyboard_handler`]).
//!
//! Whether the `keypress` event exists is a matter of configuration; each
//! function takes it as `keypress`.
//!
//! No function here panics: what cannot be read is returned as a
//! [`error::MacroError`]. That holds also of a literal of a kind that `syn`
//! cannot interpret, such as a C string, wherever it stands in the input.

pub mod decl_keyboard_handler;
pub mod dispatch;
pub mod edge_trigger;
pub mod emit;
pub mod error;
pub mod events;
pub mod handler_expr;
pub mod key_handlers;
pub mod laws;
pub mod new_key_handler;
pub mod reader;
pub mod simplified;
pub mod start_keyboard_handler;
pub mod syntax;
pub mod tokens;

use crate::error::{Diagnostic, MacroError};
use crate::key_handlers::{handler_descriptor, primitive_expansion};
use crate::simplified::simplified_expansion;
use crate::decl_keyboard_handler::table_descriptor;
use crate::new_key_handler::{plain_descriptor, plain_expansion};
use crate::start_keyboard_handler::{items, startup_code, startup_descriptor};
use crate::tokens::{empty_stream, stream_view, Tok};
use proc_macro2::TokenStream;
use vstd::prelude::*;

verus! {

/// The view of the code that was made, or of the diagnostic.
pub open spec fn expansion_view(outcome: Result<TokenStream, MacroError>) -> Result<Seq<Tok>, Diagnostic> {
    match outcome {
        Ok(code) => Ok(stream_view(code)),
        Err(error) => Err(error@),
    }
}

/// What the startup form stands for: the code of the table that the input
/// describes, or the diagnostic.
pub open spec fn keywise_keyboard_handler(input: Seq<Tok>, keypress: bool) -> Result<Seq<Tok>, Diagnostic> {
    match startup_descriptor(input) {
        Ok(table) => Ok(startup_code(table, keypress)),
        Err(error) => Err(error),
    }
}

/// What the single-handler form stands for as a primitive key handler.
pub open spec fn primitive_key_handler(input: Seq<Tok>, keypress: bool) -> Result<Seq<Tok>, Diagnostic> {
    match handler_descriptor(input, keypress) {
        Ok(descriptor) => Ok(primitive_expansion(descriptor)),
        Err(error) => Err(error),
    }
}

/// What the single-handler form stands for as a simplified key handler.
pub open spec fn simplified_key_handler(input: Seq<Tok>, keypress: bool) -> Result<Seq<Tok>, Diagnostic> {
    match handler_descriptor(input, keypress) {
        Ok(descriptor) => Ok(simplified_expansion(descriptor)),
        Err(error) => Err(error),
    }
}

/// What the dispatch-table form stands for: the type of the table that the
/// input describes and its routing methods, or the diagnostic.
pub open spec fn declared_keyboard_handler(input: Seq<Tok>, keypress: bool) -> Result<Seq<Tok>, Diagnostic> {
    match table_descriptor(input) {
        Ok(table) => Ok(items(table.ty_name, table.bindings, keypress)),
        Err(error) => Err(error),
    }
}

/// What the plain form stands for.
pub open spec fn plain_key_handler(input: Seq<Tok>, keypress: bool) -> Result<Seq<Tok>, Diagnostic> {
    match plain_descriptor(input, keypress) {
        Ok(descriptor) => Ok(plain_expansion(descriptor)),
        Err(error) => Err(error),
    }
}

/// Makes the code of a keywise keyboard handler from
/// `instance: Type, target, [path => handler, ..]`: the type of the table with
/// one slot for each binding, its routing methods, the shared instance, and
/// one listener on the target for each event kind. The list may not be empty.
/// No code is made for an input that is refused.
pub fn start_keywise_keyboard_handler(input: TokenStream, keypress: bool) -> (outcome: Result<TokenStream, MacroError>)
    ensures
        expansion_view(outcome) == keywise_keyboard_handler(stream_view(input), keypress),
{
    let args = crate::start_keyboard_handler::Args::parse(&input)?;
    let mut ts = empty_stream();
    args.extend_with_startup_code(&mut ts, keypress);
    assert(stream_view(ts) =~= startup_code(args@, keypress));
    Ok(ts)
}

/// Makes the code of a primitive key handler from
/// `path, state = <expr>, keydown = <block>, keyup = <block>` and, where the
/// configuration enables it, `keypress = <block>`. The handler takes every
/// event as it comes. The last statement of each block has to be a closure.
pub fn new_primitive_key_handler(input: TokenStream, keypress: bool) -> (outcome: Result<TokenStream, MacroError>)
    ensures
        expansion_view(outcome) == primitive_key_handler(stream_view(input), keypress),
{
    let args = crate::key_handlers::Args::read(&input, keypress)?;
    let mut ts = empty_stream();
    args.extend_with_primitive_key_handler_expr(&mut ts);
    assert(stream_view(ts) =~= primitive_expansion(args@));
    Ok(ts)
}

/// Makes the code of a simplified key handler from the same form. The handler
/// keeps a flag beside the state and runs the `keydown` closure only when the
/// key goes from released to held; `keyup` and `keypress` release the key.
pub fn new_simplified_key_handler(input: TokenStream, keypress: bool) -> (outcome: Result<TokenStream, MacroError>)
    ensures
        expansion_view(outcome) == simplified_key_handler(stream_view(input), keypress),
{
    let args = crate::key_handlers::Args::read(&input, keypress)?;
    let ghost descriptor = args@;
    let mut ts = empty_stream();
    args.extend_with_simplified_key_handler_expr(&mut ts);
    assert(stream_view(ts) =~= simplified_expansion(descriptor));
    Ok(ts)
}

/// Makes the type of a dispatch table and its routing methods from
/// `instance: Type, [path => handler, ..]`. The list may not be empty. Neither
/// an instance nor a listener is made.
pub fn decl_keyboard_handler(input: TokenStream, keypress: bool) -> (outcome: Result<TokenStream, MacroError>)
    ensures
        expansion_view(outcome) == declared_keyboard_handler(stream_view(input), keypress),
{
    let table = crate::decl_keyboard_handler::KeyHandlers::parse(&input)?;
    let mut ts = empty_stream();
    crate::start_keyboard_handler::emit_items(&mut ts, &table.ty_name, &table.key_handlers, keypress);
    assert(stream_view(ts) =~= items(table@.ty_name, table@.bindings, keypress));
    Ok(ts)
}

/// Makes the code of a key handler from `path, state, keydown, keyup` and,
/// where the configuration enables it, `keypress`, each an expression that is
/// carried through as it is.
pub fn new_key_handler(input: TokenStream, keypress: bool) -> (outcome: Result<TokenStream, MacroError>)
    ensures
        expansion_view(outcome) == plain_key_handler(stream_view(input), keypress),
{
    let args = crate::new_key_handler::Args::read(&input, keypress)?;
    let mut ts = empty_stream();
    args.extend_with_key_handler_expr(&mut ts);
    assert(stream_view(ts) =~= plain_expansion(args@));
    Ok(ts)
}

} // verus!
