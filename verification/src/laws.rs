//! What holds of the library as a whole: of every input, of every state.

use crate::decl_keyboard_handler::{
    no_key_handlers, table_descriptor, table_step, DispatchTableDescriptor, KeyBinding, TableRead,
};
use crate::dispatch::{routed, Binding, Invocation, KeyHandler};
use crate::edge_trigger::{fired, next_state, PressState};
use crate::emit::{group, ident, member, punct, punct2};
use crate::error::{syntax_error, Diagnostic, ErrorKind, Failure};
use crate::events::{event_count, events, EventKind};
use crate::simplified::event_at;
use crate::key_handlers::{
    body_step, closure_expected, event_body, handler_descriptor, handler_syntax, head_step,
    BodyRead, EventBody, HandlerDescriptor,
};
use crate::reader::{
    at_end, expected, group_step, ident_step, is_word_read, keyword_check, keyword_step,
    punct_step, Inside,
};
use crate::start_keyboard_handler::{
    arms, bounds, field, slot_values, slots, startup_descriptor, startup_step, type_parameters,
};
use crate::syntax::{readable, syn_stmts, Stmt};
use crate::tokens::{Delim, Tok};
use crate::{keywise_keyboard_handler, primitive_key_handler, simplified_key_handler};
use vstd::prelude::*;

verus! {

/// A dispatch table needs bindings: an input in the startup form whose list is
/// empty is refused with a validation error, and one whose list holds a
/// binding, and which nothing that can be seen follows, is compiled.
pub proof fn law_table_needs_bindings(input: Seq<Tok>, keypress: bool, read: TableRead)
    requires
        startup_step(input) == Ok::<TableRead, Failure>(read),
    ensures
        read.table.bindings.len() == 0 ==> keywise_keyboard_handler(input, keypress) == Err::<
            Seq<Tok>,
            Diagnostic,
        >(no_key_handlers()),
        read.table.bindings.len() > 0 && at_end(read.rest) ==> keywise_keyboard_handler(input, keypress) is Ok,
        no_key_handlers().kind == ErrorKind::Validation,
{
}

/// The same holds of the dispatch-table form, which has no target.
pub proof fn law_declared_table_needs_bindings(input: Seq<Tok>, read: TableRead)
    requires
        table_step(input) == Ok::<TableRead, Failure>(read),
    ensures
        read.table.bindings.len() == 0 ==> table_descriptor(input) == Err::<
            DispatchTableDescriptor,
            Diagnostic,
        >(no_key_handlers()),
        read.table.bindings.len() > 0 && at_end(read.rest) ==> table_descriptor(input) is Ok,
{
}

/// A table that is valid holds at least one binding.
pub proof fn law_valid_table_is_not_empty(input: Seq<Tok>)
    ensures
        startup_descriptor(input) is Ok
            ==> startup_descriptor(input)->Ok_0.bindings.len() > 0,
        table_descriptor(input) is Ok ==> table_descriptor(input)->Ok_0.bindings.len() > 0,
{
}

/// A description that is valid under a configuration holds one body for each
/// event kind of the configuration, and what is not valid for want of that is
/// a mismatch with the configuration.
pub proof fn law_valid_descriptor_follows_the_configuration(input: Seq<Tok>, keypress: bool)
    ensures
        handler_descriptor(input, keypress) is Ok ==> handler_descriptor(input, keypress)->Ok_0.bodies.len()
            == event_count(keypress),
        handler_syntax(input) is Ok ==> {
            ||| handler_descriptor(input, keypress) == Ok::<HandlerDescriptor, Diagnostic>(
                handler_syntax(input)->Ok_0,
            )
            ||| handler_descriptor(input, !keypress) == Ok::<HandlerDescriptor, Diagnostic>(
                handler_syntax(input)->Ok_0,
            )
        },
        handler_descriptor(input, keypress) is Err && handler_syntax(input) is Ok
            ==> handler_descriptor(input, keypress)->Err_0.kind == ErrorKind::ConfigurationMismatch,
{
}

/// Each event kind has its place among the event bodies: the kind whose body
/// stands at the place of an event kind is that kind, and the kinds of a
/// configuration stand at their places.
pub proof fn law_event_kinds_keep_their_places(event: EventKind, keypress: bool, place: int)
    requires
        0 <= place < events(keypress).len(),
    ensures
        event_at(event.index() as int) == event,
        events(keypress)[place].index() == place,
        event_at(place) == events(keypress)[place],
        events(keypress).len() == event_count(keypress),
{
}

/// The event keywords come in a fixed order: where the head of the
/// single-handler form is followed by a comma and an identifier, and what was
/// read as the identifier is not the word `keydown`, the input is refused with
/// a syntax error that names `keydown`, whatever the configuration and
/// whatever follows.
pub proof fn law_first_keyword_is_keydown(input: Seq<Tok>, keypress: bool)
    requires
        head_step(input) is Ok,
        punct_step(head_step(input)->Ok_0.rest, ',', ","@) is Ok,
        ident_step(punct_step(head_step(input)->Ok_0.rest, ',', ","@)->Ok_0) is Ok,
        !is_word_read(
            ident_step(punct_step(head_step(input)->Ok_0.rest, ',', ","@)->Ok_0)->Ok_0,
            "keydown"@,
        ),
    ensures
        handler_descriptor(input, keypress) is Err,
        handler_descriptor(input, keypress)->Err_0.kind == ErrorKind::Syntax,
        handler_descriptor(input, keypress)->Err_0.message == expected("keydown"@),
        primitive_key_handler(input, keypress) == Err::<Seq<Tok>, Diagnostic>(handler_descriptor(input, keypress)->Err_0),
        simplified_key_handler(input, keypress) == Err::<Seq<Tok>, Diagnostic>(
            handler_descriptor(input, keypress)->Err_0,
        ),
{
    let after_comma = punct_step(head_step(input)->Ok_0.rest, ',', ","@)->Ok_0;
    let leading = ident_step(after_comma)->Ok_0;
    assert(keyword_check(leading, "keydown"@) is Err);
    assert(keyword_step(after_comma, "keydown"@) is Err);
    assert(body_step(head_step(input)->Ok_0.rest, EventKind::Asserted) is Err);
}

/// So `keyup` written where `keydown` belongs is refused with a syntax error
/// that names `keydown`.
pub proof fn law_swapped_keywords_are_refused(input: Seq<Tok>, keypress: bool)
    requires
        head_step(input) is Ok,
        punct_step(head_step(input)->Ok_0.rest, ',', ","@) is Ok,
        ident_step(punct_step(head_step(input)->Ok_0.rest, ',', ","@)->Ok_0) is Ok,
        is_word_read(ident_step(punct_step(head_step(input)->Ok_0.rest, ',', ","@)->Ok_0)->Ok_0, "keyup"@),
    ensures
        handler_descriptor(input, keypress) is Err,
        handler_descriptor(input, keypress)->Err_0.kind == ErrorKind::Syntax,
        handler_descriptor(input, keypress)->Err_0.message == expected("keydown"@),
{
    reveal_strlit("keyup");
    reveal_strlit("keydown");
    assert("keyup"@.len() != "keydown"@.len());
    law_first_keyword_is_keydown(input, keypress);
}

/// The body of an event has to end in a closure: statements whose last one is
/// no closure are refused with a message that names the event kind.
pub proof fn law_trailing_closure_is_required(event: EventKind, stmts: Seq<Stmt>, remaining: nat)
    requires
        stmts.len() > 0,
        !stmts.last().is_closure,
    ensures
        event_body(event, stmts, remaining) == Err::<EventBody, Failure>(
            Failure { message: closure_expected(event.keyword()), remaining },
        ),
        closure_expected(event.keyword()) == "last statement of `"@ + event.keyword()
            + "` event handler is expected to be a closure"@,
{
}

/// So a block that `syn` reads as statements whose last one is no closure
/// makes the reading of its event body fail with that message, and the
/// failure is a syntax error. `block` is the block that follows the keyword
/// of the event and the equals sign, and `stmts` are its statements.
pub proof fn law_block_without_closure_is_a_syntax_error(
    input: Seq<Tok>,
    event: EventKind,
    block: Inside,
    stmts: Seq<Stmt>,
    total: nat,
)
    requires
        punct_step(input, ',', ","@) is Ok,
        keyword_step(punct_step(input, ',', ","@)->Ok_0, event.keyword()) is Ok,
        punct_step(keyword_step(punct_step(input, ',', ","@)->Ok_0, event.keyword())->Ok_0, '=', "="@) is Ok,
        group_step(
            punct_step(keyword_step(punct_step(input, ',', ","@)->Ok_0, event.keyword())->Ok_0, '=', "="@)->Ok_0,
            Delim::Brace,
            "expected curly braces"@,
        ) == Ok::<Inside, Failure>(block),
        readable(block.inner),
        syn_stmts(block.inner) == Ok::<Seq<Stmt>, Seq<char>>(stmts),
        stmts.len() > 0,
        !stmts.last().is_closure,
    ensures
        body_step(input, event) == Err::<BodyRead, Failure>(
            Failure { message: closure_expected(event.keyword()), remaining: block.rest.len() },
        ),
        syntax_error(total, body_step(input, event)->Err_0).kind == ErrorKind::Syntax,
{
}

/// The table has one type parameter, one bound, one slot, one value and, in
/// the routing method of each event kind, one arm for each binding, in the
/// order of the bindings.
pub proof fn law_one_slot_for_each_binding(bindings: Seq<KeyBinding>, event: EventKind, index: int)
    requires
        0 <= index < bindings.len(),
    ensures
        type_parameters(bindings.len()).len() == bindings.len(),
        bounds(bindings.len()).len() == bindings.len(),
        slots(bindings.len()).len() == bindings.len(),
        slot_values(bindings).len() == bindings.len(),
        arms(bindings, event).len() == bindings.len(),
        arms(bindings, event)[index] == bindings[index].code + punct2('=', '>') + ident("self"@) + member(
            field(index as nat),
        ) + member(event.handle_method()) + group(Delim::Parenthesis, Seq::empty()),
        slot_values(bindings)[index] == ident(field(index as nat)) + punct(':') + bindings[index].handler,
{
}

/// With no code bound twice, the slot that takes the events of a bound code is
/// the slot of its binding and no other.
pub proof fn law_routing_is_exact<H: KeyHandler>(bindings: Seq<Binding<H>>, binding: int, slot: int)
    requires
        forall|i: int, j: int| 0 <= i < j < bindings.len() ==> bindings[i].code != bindings[j].code,
        0 <= binding < bindings.len(),
        0 <= slot < bindings.len(),
        bindings[slot].code == bindings[binding].code,
    ensures
        slot == binding,
{
    if slot < binding {
        assert(bindings[slot].code != bindings[binding].code);
    } else if binding < slot {
        assert(bindings[binding].code != bindings[slot].code);
    }
}

/// An event that is routed touches one binding: those before and after the
/// slot that took it are what they were, and no binding changes its code.
pub proof fn law_routing_touches_one_slot<H: KeyHandler>(
    before: Seq<Binding<H>>,
    after: Seq<Binding<H>>,
    slot: int,
    event: EventKind,
    invoke: Option<Invocation>,
    other: int,
)
    requires
        routed(before, after, slot, event, invoke),
        0 <= other < before.len(),
    ensures
        after.len() == before.len(),
        after[other].code == before[other].code,
        other != slot ==> after[other] == before[other],
        invoke is Some ==> invoke->Some_0.slot == slot as usize && invoke->Some_0.event == event,
{
}

/// While the key is held, `keydown` runs no closure: after one `keydown` the
/// next one is suppressed, whatever the state was before.
pub proof fn law_repeated_keydown_is_suppressed(keypress: bool, state: PressState)
    ensures
        fired(keypress, next_state(state, EventKind::Asserted), seq![EventKind::Asserted]) == Seq::<
            EventKind,
        >::empty(),
{
    let events = seq![EventKind::Asserted];
    assert(events.skip(1) =~= Seq::<EventKind>::empty());
    reveal_with_fuel(fired, 2);
}

/// After `keyup` the next `keydown` runs its closure.
pub proof fn law_keydown_after_keyup_runs(keypress: bool, state: PressState)
    ensures
        fired(keypress, next_state(state, EventKind::Released), seq![EventKind::Asserted]) == seq![
            EventKind::Asserted,
        ],
{
    let events = seq![EventKind::Asserted];
    assert(events.skip(1) =~= Seq::<EventKind>::empty());
    reveal_with_fuel(fired, 2);
    assert(seq![EventKind::Asserted] + Seq::<EventKind>::empty() =~= seq![EventKind::Asserted]);
}

/// `keypress` releases the key: where it is enabled, the `keydown` after it
/// runs its closure although no `keyup` came in between.
pub proof fn law_keypress_releases_the_key(state: PressState)
    ensures
        fired(true, state, seq![EventKind::Sustained, EventKind::Asserted]) == seq![
            EventKind::Sustained,
            EventKind::Asserted,
        ],
{
    let events = seq![EventKind::Sustained, EventKind::Asserted];
    let rest = events.skip(1);
    assert(rest =~= seq![EventKind::Asserted]);
    assert(rest.skip(1) =~= Seq::<EventKind>::empty());
    reveal_with_fuel(fired, 3);
    assert(fired(true, PressState::Released, rest) =~= seq![EventKind::Asserted]);
    assert(seq![EventKind::Sustained] + seq![EventKind::Asserted] =~= events);
}

} // verus!
