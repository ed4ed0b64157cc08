//! The expression that builds a key handler from its key, its state and its
//! event handlers.

use crate::emit::{
    comma_separated, emit_comma_separated, emit_group, emit_ident, emit_punct, emit_punct2,
    emit_segment, emit_stream, group, ident, punct, punct2, segment, streams_view,
};
use crate::tokens::{empty_stream, stream_view, Delim, Tok};
use proc_macro2::TokenStream;
use vstd::prelude::*;

verus! {

/// `{ ::core::convert::identity::<::wasm_keyboard::uievents_code::KeyboardEventCode>(path) as u8 }`:
/// the number of the key that `path` names.
pub open spec fn key_code(path: Seq<Tok>) -> Seq<Tok> {
    group(
        Delim::Brace,
        segment("core"@) + segment("convert"@) + segment("identity"@) + punct2(':', ':') + punct('<')
            + segment("wasm_keyboard"@) + segment("uievents_code"@) + segment("KeyboardEventCode"@)
            + punct('>') + group(Delim::Parenthesis, path) + ident("as"@) + ident("u8"@),
    )
}

/// `_, _, _`: one inferred type for the state and one for each of `handlers` event bodies.
pub open spec fn inferred(handlers: nat) -> Seq<Tok>
    decreases handlers,
{
    if handlers == 0 {
        ident("_"@)
    } else {
        inferred((handlers - 1) as nat) + punct(',') + ident("_"@)
    }
}

/// `::wasm_keyboard::implementors::KeyHandler::<{ code }, _, ..>::new(state, handlers)`:
/// the expression that builds a key handler.
pub open spec fn key_handler_new(path: Seq<Tok>, state: Seq<Tok>, handlers: Seq<Seq<Tok>>) -> Seq<Tok> {
    segment("wasm_keyboard"@) + segment("implementors"@) + segment("KeyHandler"@) + punct2(':', ':')
        + punct('<') + key_code(path) + punct(',') + inferred(handlers.len()) + punct('>')
        + segment("new"@) + group(Delim::Parenthesis, state + punct(',') + comma_separated(handlers))
}

/// Writes the number of the key that `path` names.
pub fn emit_key_code(out: &mut TokenStream, path: &TokenStream)
    ensures
        stream_view(*final(out)) == stream_view(*old(out)) + key_code(stream_view(*path)),
{
    proof {
        reveal_strlit("core");
        reveal_strlit("convert");
        reveal_strlit("identity");
        reveal_strlit("wasm_keyboard");
        reveal_strlit("uievents_code");
        reveal_strlit("KeyboardEventCode");
        reveal_strlit("as");
        reveal_strlit("u8");
    }
    let mut inner = empty_stream();
    emit_segment(&mut inner, "core");
    emit_segment(&mut inner, "convert");
    emit_segment(&mut inner, "identity");
    emit_punct2(&mut inner, ':', ':');
    emit_punct(&mut inner, '<');
    emit_segment(&mut inner, "wasm_keyboard");
    emit_segment(&mut inner, "uievents_code");
    emit_segment(&mut inner, "KeyboardEventCode");
    emit_punct(&mut inner, '>');
    emit_group(&mut inner, Delim::Parenthesis, path);
    emit_ident(&mut inner, "as");
    emit_ident(&mut inner, "u8");
    assert(stream_view(inner) =~= segment("core"@) + segment("convert"@) + segment("identity"@) + punct2(
        ':',
        ':',
    ) + punct('<') + segment("wasm_keyboard"@) + segment("uievents_code"@) + segment("KeyboardEventCode"@)
        + punct('>') + group(Delim::Parenthesis, stream_view(*path)) + ident("as"@) + ident("u8"@));
    emit_group(out, Delim::Brace, &inner);
}

/// Writes one inferred type for the state and one for each of `handlers` event bodies.
pub fn emit_inferred(out: &mut TokenStream, handlers: usize)
    ensures
        stream_view(*final(out)) == stream_view(*old(out)) + inferred(handlers as nat),
{
    proof {
        reveal_strlit("_");
    }
    emit_ident(out, "_");
    let mut i: usize = 0;
    while i < handlers
        invariant
            i <= handlers,
            crate::tokens::is_word("_"@),
            stream_view(*out) == stream_view(*old(out)) + inferred(i as nat),
        decreases handlers - i,
    {
        emit_punct(out, ',');
        emit_ident(out, "_");
        assert(stream_view(*out) =~= stream_view(*old(out)) + inferred((i + 1) as nat));
        i += 1;
    }
}

/// Writes the expression that builds a key handler.
pub fn emit_key_handler_new(out: &mut TokenStream, path: &TokenStream, state: &TokenStream, handlers: &Vec<TokenStream>)
    ensures
        stream_view(*final(out)) == stream_view(*old(out)) + key_handler_new(
            stream_view(*path),
            stream_view(*state),
            streams_view(handlers@),
        ),
{
    proof {
        reveal_strlit("wasm_keyboard");
        reveal_strlit("implementors");
        reveal_strlit("KeyHandler");
        reveal_strlit("new");
    }
    let ghost base = stream_view(*out);
    emit_segment(out, "wasm_keyboard");
    emit_segment(out, "implementors");
    emit_segment(out, "KeyHandler");
    emit_punct2(out, ':', ':');
    emit_punct(out, '<');
    emit_key_code(out, path);
    emit_punct(out, ',');
    emit_inferred(out, handlers.len());
    emit_punct(out, '>');
    emit_segment(out, "new");
    let mut arguments = empty_stream();
    emit_stream(&mut arguments, state);
    emit_punct(&mut arguments, ',');
    emit_comma_separated(&mut arguments, handlers);
    assert(stream_view(arguments) =~= stream_view(*state) + punct(',') + comma_separated(streams_view(handlers@)));
    emit_group(out, Delim::Parenthesis, &arguments);
    assert(stream_view(*out) =~= base + key_handler_new(
        stream_view(*path),
        stream_view(*state),
        streams_view(handlers@),
    ));
}

} // verus!
