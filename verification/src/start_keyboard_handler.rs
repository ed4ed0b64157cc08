//! The startup form: `instance: Type, target, [path => handler, ..]`, and the
//! code of a dispatch table: its type, its routing methods, the shared
//! instance and the listeners on the target.

use crate::decl_keyboard_handler::{
    bindings_view, check_table, list_step, names_step, read_list, read_names, validated_table,
    DispatchTableDescriptor, KeyBinding, KeyHandler, TableRead,
};
use crate::emit::{
    comma_separated, emit_comma_separated, streams_view, emit_group, emit_ident, emit_member, emit_punct, emit_punct2, emit_segment, emit_stream,
    emit_string, group, ident, lemma_numbered_is_word, member, numbered, numbered_name, punct,
    punct2, segment, string,
};
use crate::error::{syntax_error, Diagnostic, Failure, MacroError};
use crate::events::EventKind;
use crate::reader::{expect_punct, expr_step, is_at_end, punct_step, read_expr};
use crate::tokens::{empty_stream, stream_len, stream_view, Delim, Tok};
use proc_macro2::TokenStream;
use vstd::prelude::*;
use vstd::string::*;

verus! {

/// Reads the startup form up to the end of its list.
pub open spec fn startup_step(input: Seq<Tok>) -> Result<TableRead, Failure> {
    match names_step(input) {
        Err(failure) => Err(failure),
        Ok(names) => match expr_step(names.rest) {
            Err(failure) => Err(failure),
            Ok(target) => match punct_step(target.rest, ',', ","@) {
                Err(failure) => Err(failure),
                Ok(after_comma) => match list_step(after_comma) {
                    Err(failure) => Err(failure),
                    Ok(list) => Ok(
                        TableRead {
                            table: DispatchTableDescriptor {
                                instance_name: names.instance_name,
                                ty_name: names.ty_name,
                                target: Some(target.value),
                                bindings: list.bindings,
                            },
                            rest: list.rest,
                        },
                    ),
                },
            },
        },
    }
}

/// The valid table that an input in the startup form stands for, or the diagnostic.
pub open spec fn startup_descriptor(input: Seq<Tok>) -> Result<DispatchTableDescriptor, Diagnostic> {
    match startup_step(input) {
        Err(failure) => Err(syntax_error(input.len(), failure)),
        Ok(read) => validated_table(input.len(), read),
    }
}

/// A dispatch table with the target on which its listeners are put.
pub struct Args {
    /// The identifier of the variable that holds the table.
    pub instance_name: TokenStream,
    /// The identifier of the type of the table.
    pub ty_name: TokenStream,
    /// The expression on which the listeners are put.
    pub target: TokenStream,
    /// The bindings, in the order in which they were written.
    pub key_handlers: Vec<KeyHandler>,
}

impl View for Args {
    type V = DispatchTableDescriptor;

    open spec fn view(&self) -> DispatchTableDescriptor {
        DispatchTableDescriptor {
            instance_name: stream_view(self.instance_name),
            ty_name: stream_view(self.ty_name),
            target: Some(stream_view(self.target)),
            bindings: bindings_view(self.key_handlers@),
        }
    }
}

/// The view of a table or of the diagnostic.
pub open spec fn args_view(outcome: Result<Args, MacroError>) -> Result<DispatchTableDescriptor, Diagnostic> {
    match outcome {
        Ok(args) => Ok(args@),
        Err(error) => Err(error@),
    }
}

impl Args {
    /// Reads the startup form and validates it: the list of bindings may not
    /// be empty, and nothing may follow it.
    pub fn parse(input: &TokenStream) -> (outcome: Result<Args, MacroError>)
        ensures
            args_view(outcome) == startup_descriptor(stream_view(*input)),
    {
        let total = stream_len(input);
        let names = match read_names(input) {
            Ok(names) => names,
            Err(failure) => {
                return Err(MacroError::syntax(total, failure));
            },
        };
        let target = match read_expr(&names.rest) {
            Ok(target) => target,
            Err(failure) => {
                return Err(MacroError::syntax(total, failure));
            },
        };
        let after_comma = match expect_punct(&target.rest, ',', ",") {
            Ok(rest) => rest,
            Err(failure) => {
                return Err(MacroError::syntax(total, failure));
            },
        };
        let list = match read_list(&after_comma) {
            Ok(list) => list,
            Err(failure) => {
                return Err(MacroError::syntax(total, failure));
            },
        };
        match check_table(total, list.key_handlers.len(), stream_len(&list.rest), is_at_end(&list.rest)) {
            Err(error) => Err(error),
            Ok(_) => Ok(
                Args {
                    instance_name: names.instance_name,
                    ty_name: names.ty_name,
                    target: target.value,
                    key_handlers: list.key_handlers,
                },
            ),
        }
    }
}

/// The name of the type parameter of the slot at `index`: `T0`, `T1`, and so on.
pub open spec fn type_parameter(index: nat) -> Seq<char> {
    numbered("T"@, index)
}

/// The name of the field of the slot at `index`: `key_handler0`, `key_handler1`, and so on.
pub open spec fn field(index: nat) -> Seq<char> {
    numbered("key_handler"@, index)
}

/// `::wasm_keyboard::KeyHandler`: what the type of a slot has to be able to do.
pub open spec fn key_handler_trait() -> Seq<Tok> {
    segment("wasm_keyboard"@) + segment("KeyHandler"@)
}

/// `T0`, `T1`, ..: one type parameter for each slot.
pub open spec fn type_parameters(count: nat) -> Seq<Seq<Tok>> {
    Seq::new(count, |i: int| ident(type_parameter(i as nat)))
}

/// `T0: ::wasm_keyboard::KeyHandler`, ..: the bound on each type parameter.
pub open spec fn bounds(count: nat) -> Seq<Seq<Tok>> {
    Seq::new(count, |i: int| ident(type_parameter(i as nat)) + punct(':') + key_handler_trait())
}

/// `key_handler0: T0`, ..: the slots of the table.
pub open spec fn slots(count: nat) -> Seq<Seq<Tok>> {
    Seq::new(count, |i: int| ident(field(i as nat)) + punct(':') + ident(type_parameter(i as nat)))
}

/// `path => self.key_handler0.handle_keydown()`, ..: for each binding, the
/// arm that hands an event of the key of the binding to the slot of the binding.
pub open spec fn arms(bindings: Seq<KeyBinding>, event: EventKind) -> Seq<Seq<Tok>> {
    Seq::new(
        bindings.len(),
        |i: int|
            bindings[i].code + punct2('=', '>') + ident("self"@) + member(field(i as nat)) + member(
                event.handle_method(),
            ) + group(Delim::Parenthesis, Seq::empty()),
    )
}

/// `<T0, T1, ..>`
pub open spec fn generics(count: nat) -> Seq<Tok> {
    punct('<') + comma_separated(type_parameters(count)) + punct('>')
}

/// `where T0: ::wasm_keyboard::KeyHandler, ..`
pub open spec fn where_clause(count: nat) -> Seq<Tok> {
    ident("where"@) + comma_separated(bounds(count))
}

/// The method that routes the events of one kind: it matches the code of the
/// event against the key of each binding, and a code that no binding names
/// does nothing.
pub open spec fn routing_method(bindings: Seq<KeyBinding>, event: EventKind) -> Seq<Tok> {
    ident("fn"@) + ident(event.dispatch_method()) + group(
        Delim::Parenthesis,
        punct('&') + ident("self"@) + punct(',') + ident("event"@) + punct(':') + punct('&') + segment(
            "web_sys"@,
        ) + segment("KeyboardEvent"@),
    ) + group(
        Delim::Brace,
        ident("match"@) + ident("event"@) + member("code"@) + group(Delim::Parenthesis, Seq::empty())
            + member("as_str"@) + group(Delim::Parenthesis, Seq::empty()) + group(
            Delim::Brace,
            comma_separated(arms(bindings, event)) + punct(',') + ident("_"@) + punct2('=', '>') + group(
                Delim::Parenthesis,
                Seq::empty(),
            ) + punct(','),
        ),
    )
}

/// One routing method for each event kind of the configuration.
pub open spec fn routing_methods(bindings: Seq<KeyBinding>, keypress: bool) -> Seq<Tok> {
    routing_method(bindings, EventKind::Asserted) + routing_method(bindings, EventKind::Released) + (
    if keypress {
        routing_method(bindings, EventKind::Sustained)
    } else {
        Seq::empty()
    })
}

/// The type of the table, with one slot for each binding, and its routing methods.
pub open spec fn items(ty_name: Seq<Tok>, bindings: Seq<KeyBinding>, keypress: bool) -> Seq<Tok> {
    ident("struct"@) + ty_name + generics(bindings.len()) + where_clause(bindings.len()) + group(
        Delim::Brace,
        comma_separated(slots(bindings.len())),
    ) + ident("impl"@) + generics(bindings.len()) + ty_name + generics(bindings.len()) + where_clause(
        bindings.len(),
    ) + group(Delim::Brace, routing_methods(bindings, keypress))
}

/// The name of the type parameter of the slot at `index`.
pub fn type_parameter_name(index: usize) -> (name: String)
    ensures
        name@ == type_parameter(index as nat),
        crate::tokens::is_word(name@),
{
    proof {
        reveal_strlit("T");
        lemma_numbered_is_word("T"@, index as nat);
    }
    numbered_name("T", index)
}

/// Writes `::wasm_keyboard::KeyHandler`.
fn emit_key_handler_trait(out: &mut TokenStream)
    ensures
        stream_view(*final(out)) == stream_view(*old(out)) + key_handler_trait(),
{
    proof {
        reveal_strlit("wasm_keyboard");
        reveal_strlit("KeyHandler");
    }
    emit_segment(out, "wasm_keyboard");
    emit_segment(out, "KeyHandler");
    assert(stream_view(*out) =~= stream_view(*old(out)) + key_handler_trait());
}

/// One type parameter for each slot.
fn type_parameter_list(count: usize) -> (list: Vec<TokenStream>)
    ensures
        streams_view(list@) == type_parameters(count as nat),
{
    let mut list: Vec<TokenStream> = Vec::new();
    let mut i: usize = 0;
    while i < count
        invariant
            i <= count,
            list@.len() == i,
            forall|j: int| 0 <= j < i ==> stream_view(#[trigger] list@[j]) == ident(type_parameter(j as nat)),
        decreases count - i,
    {
        let mut item = empty_stream();
        let name = type_parameter_name(i);
        emit_ident(&mut item, name.as_str());
        assert(stream_view(item) =~= ident(type_parameter(i as nat)));
        list.push(item);
        i += 1;
    }
    assert(streams_view(list@) =~= type_parameters(count as nat));
    list
}

/// The bound on each type parameter.
fn bound_list(count: usize) -> (list: Vec<TokenStream>)
    ensures
        streams_view(list@) == bounds(count as nat),
{
    let mut list: Vec<TokenStream> = Vec::new();
    let mut i: usize = 0;
    while i < count
        invariant
            i <= count,
            list@.len() == i,
            forall|j: int| 0 <= j < i ==> stream_view(#[trigger] list@[j]) == ident(type_parameter(j as nat)) + punct(':')
                + key_handler_trait(),
        decreases count - i,
    {
        let mut item = empty_stream();
        let name = type_parameter_name(i);
        emit_ident(&mut item, name.as_str());
        emit_punct(&mut item, ':');
        emit_key_handler_trait(&mut item);
        assert(stream_view(item) =~= ident(type_parameter(i as nat)) + punct(':') + key_handler_trait());
        list.push(item);
        i += 1;
    }
    assert(streams_view(list@) =~= bounds(count as nat));
    list
}

/// The slots of the table.
fn slot_list(count: usize) -> (list: Vec<TokenStream>)
    ensures
        streams_view(list@) == slots(count as nat),
{
    let mut list: Vec<TokenStream> = Vec::new();
    let mut i: usize = 0;
    while i < count
        invariant
            i <= count,
            list@.len() == i,
            forall|j: int| 0 <= j < i ==> stream_view(#[trigger] list@[j]) == ident(field(j as nat)) + punct(':') + ident(
                type_parameter(j as nat),
            ),
        decreases count - i,
    {
        let mut item = empty_stream();
        let name = Args::ith_field(i);
        let parameter = type_parameter_name(i);
        emit_ident(&mut item, name.as_str());
        emit_punct(&mut item, ':');
        emit_ident(&mut item, parameter.as_str());
        assert(stream_view(item) =~= ident(field(i as nat)) + punct(':') + ident(type_parameter(i as nat)));
        list.push(item);
        i += 1;
    }
    assert(streams_view(list@) =~= slots(count as nat));
    list
}

/// The arms of the routing method of an event kind.
fn arm_list(key_handlers: &Vec<KeyHandler>, event: EventKind) -> (list: Vec<TokenStream>)
    ensures
        streams_view(list@) == arms(bindings_view(key_handlers@), event),
{
    proof {
        reveal_strlit("self");
    }
    let ghost bindings = bindings_view(key_handlers@);
    let method = event.handle_method_name();
    let nothing = empty_stream();
    let mut list: Vec<TokenStream> = Vec::new();
    let mut i: usize = 0;
    while i < key_handlers.len()
        invariant
            i <= key_handlers.len(),
            list@.len() == i,
            bindings == bindings_view(key_handlers@),
            method@ == event.handle_method(),
            crate::tokens::is_word(method@),
            crate::tokens::is_word("self"@),
            stream_view(nothing) == Seq::<Tok>::empty(),
            forall|j: int| 0 <= j < i ==> stream_view(#[trigger] list@[j]) == arms(bindings, event)[j],
        decreases key_handlers.len() - i,
    {
        let mut item = empty_stream();
        let name = Args::ith_field(i);
        emit_stream(&mut item, &key_handlers[i].key_path);
        emit_punct2(&mut item, '=', '>');
        emit_ident(&mut item, "self");
        emit_member(&mut item, name.as_str());
        emit_member(&mut item, method.as_str());
        emit_group(&mut item, Delim::Parenthesis, &nothing);
        assert(stream_view(item) =~= arms(bindings, event)[i as int]);
        list.push(item);
        i += 1;
    }
    assert(streams_view(list@) =~= arms(bindings, event));
    list
}

/// Writes `<T0, T1, ..>`.
fn emit_generics(out: &mut TokenStream, count: usize)
    ensures
        stream_view(*final(out)) == stream_view(*old(out)) + generics(count as nat),
{
    let list = type_parameter_list(count);
    emit_punct(out, '<');
    emit_comma_separated(out, &list);
    emit_punct(out, '>');
    assert(stream_view(*out) =~= stream_view(*old(out)) + generics(count as nat));
}

/// Writes `where T0: ::wasm_keyboard::KeyHandler, ..`.
fn emit_where_clause(out: &mut TokenStream, count: usize)
    ensures
        stream_view(*final(out)) == stream_view(*old(out)) + where_clause(count as nat),
{
    proof {
        reveal_strlit("where");
    }
    let list = bound_list(count);
    emit_ident(out, "where");
    emit_comma_separated(out, &list);
    assert(stream_view(*out) =~= stream_view(*old(out)) + where_clause(count as nat));
}

/// Writes the method that routes the events of one kind.
fn emit_routing_method(out: &mut TokenStream, key_handlers: &Vec<KeyHandler>, event: EventKind)
    ensures
        stream_view(*final(out)) == stream_view(*old(out)) + routing_method(bindings_view(key_handlers@), event),
{
    proof {
        reveal_strlit("fn");
        reveal_strlit("self");
        reveal_strlit("event");
        reveal_strlit("web_sys");
        reveal_strlit("KeyboardEvent");
        reveal_strlit("match");
        reveal_strlit("code");
        reveal_strlit("as_str");
        reveal_strlit("_");
    }
    let ghost bindings = bindings_view(key_handlers@);
    let nothing = empty_stream();
    let list = arm_list(key_handlers, event);
    let mut table = empty_stream();
    emit_comma_separated(&mut table, &list);
    emit_punct(&mut table, ',');
    emit_ident(&mut table, "_");
    emit_punct2(&mut table, '=', '>');
    emit_group(&mut table, Delim::Parenthesis, &nothing);
    emit_punct(&mut table, ',');
    assert(stream_view(table) =~= comma_separated(arms(bindings, event)) + punct(',') + ident("_"@) + punct2(
        '=',
        '>',
    ) + group(Delim::Parenthesis, Seq::empty()) + punct(','));
    let mut body = empty_stream();
    emit_ident(&mut body, "match");
    emit_ident(&mut body, "event");
    emit_member(&mut body, "code");
    emit_group(&mut body, Delim::Parenthesis, &nothing);
    emit_member(&mut body, "as_str");
    emit_group(&mut body, Delim::Parenthesis, &nothing);
    emit_group(&mut body, Delim::Brace, &table);
    assert(stream_view(body) =~= ident("match"@) + ident("event"@) + member("code"@) + group(
        Delim::Parenthesis,
        Seq::empty(),
    ) + member("as_str"@) + group(Delim::Parenthesis, Seq::empty()) + group(
        Delim::Brace,
        stream_view(table),
    ));
    let mut parameters = empty_stream();
    emit_punct(&mut parameters, '&');
    emit_ident(&mut parameters, "self");
    emit_punct(&mut parameters, ',');
    emit_ident(&mut parameters, "event");
    emit_punct(&mut parameters, ':');
    emit_punct(&mut parameters, '&');
    emit_segment(&mut parameters, "web_sys");
    emit_segment(&mut parameters, "KeyboardEvent");
    assert(stream_view(parameters) =~= punct('&') + ident("self"@) + punct(',') + ident("event"@) + punct(':')
        + punct('&') + segment("web_sys"@) + segment("KeyboardEvent"@));
    let name = event.dispatch_method_name();
    emit_ident(out, "fn");
    emit_ident(out, name.as_str());
    emit_group(out, Delim::Parenthesis, &parameters);
    emit_group(out, Delim::Brace, &body);
    assert(stream_view(*out) =~= stream_view(*old(out)) + routing_method(bindings, event));
}

/// Writes one routing method for each event kind of the configuration.
fn emit_routing_methods(out: &mut TokenStream, key_handlers: &Vec<KeyHandler>, keypress: bool)
    ensures
        stream_view(*final(out)) == stream_view(*old(out)) + routing_methods(bindings_view(key_handlers@), keypress),
{
    emit_routing_method(out, key_handlers, EventKind::Asserted);
    emit_routing_method(out, key_handlers, EventKind::Released);
    if keypress {
        emit_routing_method(out, key_handlers, EventKind::Sustained);
    }
    assert(stream_view(*out) =~= stream_view(*old(out)) + routing_methods(bindings_view(key_handlers@), keypress));
}

/// Writes the type of a table, with one slot for each binding, and its routing methods.
pub fn emit_items(out: &mut TokenStream, ty_name: &TokenStream, key_handlers: &Vec<KeyHandler>, keypress: bool)
    ensures
        stream_view(*final(out)) == stream_view(*old(out)) + items(
            stream_view(*ty_name),
            bindings_view(key_handlers@),
            keypress,
        ),
{
    proof {
        reveal_strlit("struct");
        reveal_strlit("impl");
    }
    let count = key_handlers.len();
    let list = slot_list(count);
    let mut fields = empty_stream();
    emit_comma_separated(&mut fields, &list);
    assert(stream_view(fields) =~= comma_separated(slots(count as nat)));
    let mut methods = empty_stream();
    emit_routing_methods(&mut methods, key_handlers, keypress);
    assert(stream_view(methods) =~= routing_methods(bindings_view(key_handlers@), keypress));
    emit_ident(out, "struct");
    emit_stream(out, ty_name);
    emit_generics(out, count);
    emit_where_clause(out, count);
    emit_group(out, Delim::Brace, &fields);
    emit_ident(out, "impl");
    emit_generics(out, count);
    emit_stream(out, ty_name);
    emit_generics(out, count);
    emit_where_clause(out, count);
    emit_group(out, Delim::Brace, &methods);
    assert(stream_view(*out) =~= stream_view(*old(out)) + items(
        stream_view(*ty_name),
        bindings_view(key_handlers@),
        keypress,
    ));
}

/// `key_handler0: handler`, ..: each slot with the expression of its binding.
pub open spec fn slot_values(bindings: Seq<KeyBinding>) -> Seq<Seq<Tok>> {
    Seq::new(bindings.len(), |i: int| ident(field(i as nat)) + punct(':') + bindings[i].handler)
}

/// `let instance = ::std::rc::Rc::new(Type { key_handler0: handler, .. });`:
/// the shared, reference-counted instance of the table.
pub open spec fn var_binding(table: DispatchTableDescriptor) -> Seq<Tok> {
    ident("let"@) + table.instance_name + punct('=') + segment("std"@) + segment("rc"@) + segment("Rc"@)
        + segment("new"@) + group(
        Delim::Parenthesis,
        table.ty_name + group(Delim::Brace, comma_separated(slot_values(table.bindings))),
    ) + punct(';')
}

/// `::wasm_bindgen::closure::Closure`
pub open spec fn closure_type() -> Seq<Tok> {
    segment("wasm_bindgen"@) + segment("closure"@) + segment("Closure"@)
}

/// `let instance = instance.clone();`
pub open spec fn clone_instance(instance_name: Seq<Tok>) -> Seq<Tok> {
    ident("let"@) + instance_name + punct('=') + instance_name + member("clone"@) + group(
        Delim::Parenthesis,
        Seq::empty(),
    ) + punct(';')
}

/// `move |event: KeyboardEvent| instance.inner_handle_keydown(&event),`: the
/// closure that hands an event of the target to the routing method of its kind.
pub open spec fn forwarding_closure(instance_name: Seq<Tok>, event: EventKind) -> Seq<Tok> {
    ident("move"@) + punct('|') + ident("event"@) + punct(':') + ident("KeyboardEvent"@) + punct('|')
        + instance_name + member(event.dispatch_method()) + group(
        Delim::Parenthesis,
        punct('&') + ident("event"@),
    ) + punct(',')
}

/// `let __handler = ::wasm_bindgen::closure::Closure::<dyn ::core::ops::FnMut(_)>::new::<_>(..);`
pub open spec fn bind_listener(instance_name: Seq<Tok>, event: EventKind) -> Seq<Tok> {
    ident("let"@) + ident("__handler"@) + punct('=') + closure_type() + punct2(':', ':') + punct('<')
        + ident("dyn"@) + segment("core"@) + segment("ops"@) + segment("FnMut"@) + group(
        Delim::Parenthesis,
        ident("_"@),
    ) + punct('>') + segment("new"@) + punct2(':', ':') + punct('<') + ident("_"@) + punct('>') + group(
        Delim::Parenthesis,
        forwarding_closure(instance_name, event),
    ) + punct(';')
}

/// `target.add_event_listener_with_callback("keydown",
/// ::wasm_bindgen::JsCast::unchecked_ref(__handler.as_ref()),).unwrap();`
pub open spec fn add_listener(target: Seq<Tok>, event: EventKind) -> Seq<Tok> {
    target + member("add_event_listener_with_callback"@) + group(
        Delim::Parenthesis,
        string(event.keyword()) + punct(',') + segment("wasm_bindgen"@) + segment("JsCast"@) + segment(
            "unchecked_ref"@,
        ) + group(
            Delim::Parenthesis,
            ident("__handler"@) + member("as_ref"@) + group(Delim::Parenthesis, Seq::empty()),
        ) + punct(','),
    ) + member("unwrap"@) + group(Delim::Parenthesis, Seq::empty()) + punct(';')
}

/// `::wasm_bindgen::closure::Closure::forget(__handler);`: the listener stays
/// for as long as the program runs.
pub open spec fn forget_listener() -> Seq<Tok> {
    closure_type() + segment("forget"@) + group(Delim::Parenthesis, ident("__handler"@)) + punct(';')
}

/// The block that puts the listener for one event kind on the target.
pub open spec fn listener_block(instance_name: Seq<Tok>, target: Seq<Tok>, event: EventKind) -> Seq<Tok> {
    group(
        Delim::Brace,
        clone_instance(instance_name) + bind_listener(instance_name, event) + add_listener(target, event)
            + forget_listener(),
    )
}

/// One listener block for each event kind of the configuration.
pub open spec fn listeners(instance_name: Seq<Tok>, target: Seq<Tok>, keypress: bool) -> Seq<Tok> {
    listener_block(instance_name, target, EventKind::Asserted) + listener_block(
        instance_name,
        target,
        EventKind::Released,
    ) + (if keypress {
        listener_block(instance_name, target, EventKind::Sustained)
    } else {
        Seq::empty()
    })
}

/// The target of a table; a table without one has no tokens there.
pub open spec fn target_of(table: DispatchTableDescriptor) -> Seq<Tok> {
    match table.target {
        Some(target) => target,
        None => Seq::empty(),
    }
}

/// The code of the startup form: the type of the table and its routing
/// methods, the shared instance, and the listeners on the target.
pub open spec fn startup_code(table: DispatchTableDescriptor, keypress: bool) -> Seq<Tok> {
    items(table.ty_name, table.bindings, keypress) + var_binding(table) + listeners(
        table.instance_name,
        target_of(table),
        keypress,
    )
}

/// Each slot with the expression of its binding.
fn slot_value_list(key_handlers: &Vec<KeyHandler>) -> (list: Vec<TokenStream>)
    ensures
        streams_view(list@) == slot_values(bindings_view(key_handlers@)),
{
    let ghost bindings = bindings_view(key_handlers@);
    let mut list: Vec<TokenStream> = Vec::new();
    let mut i: usize = 0;
    while i < key_handlers.len()
        invariant
            i <= key_handlers.len(),
            list@.len() == i,
            bindings == bindings_view(key_handlers@),
            forall|j: int| 0 <= j < i ==> stream_view(#[trigger] list@[j]) == slot_values(bindings)[j],
        decreases key_handlers.len() - i,
    {
        let mut item = empty_stream();
        let name = Args::ith_field(i);
        emit_ident(&mut item, name.as_str());
        emit_punct(&mut item, ':');
        emit_stream(&mut item, &key_handlers[i].key_handler_expr);
        assert(stream_view(item) =~= slot_values(bindings)[i as int]);
        list.push(item);
        i += 1;
    }
    assert(streams_view(list@) =~= slot_values(bindings));
    list
}

/// Writes `::wasm_bindgen::closure::Closure`.
fn emit_closure_type(out: &mut TokenStream)
    ensures
        stream_view(*final(out)) == stream_view(*old(out)) + closure_type(),
{
    proof {
        reveal_strlit("wasm_bindgen");
        reveal_strlit("closure");
        reveal_strlit("Closure");
    }
    emit_segment(out, "wasm_bindgen");
    emit_segment(out, "closure");
    emit_segment(out, "Closure");
    assert(stream_view(*out) =~= stream_view(*old(out)) + closure_type());
}

/// Writes `let instance = instance.clone();`.
fn emit_clone_instance(out: &mut TokenStream, instance_name: &TokenStream)
    ensures
        stream_view(*final(out)) == stream_view(*old(out)) + clone_instance(stream_view(*instance_name)),
{
    proof {
        reveal_strlit("let");
        reveal_strlit("clone");
    }
    let nothing = empty_stream();
    emit_ident(out, "let");
    emit_stream(out, instance_name);
    emit_punct(out, '=');
    emit_stream(out, instance_name);
    emit_member(out, "clone");
    emit_group(out, Delim::Parenthesis, &nothing);
    emit_punct(out, ';');
    assert(stream_view(*out) =~= stream_view(*old(out)) + clone_instance(stream_view(*instance_name)));
}

/// The closure that hands an event of the target to the routing method of its kind.
fn forwarding_closure_tokens(instance_name: &TokenStream, event: EventKind) -> (tokens: TokenStream)
    ensures
        stream_view(tokens) == forwarding_closure(stream_view(*instance_name), event),
{
    proof {
        reveal_strlit("move");
        reveal_strlit("event");
        reveal_strlit("KeyboardEvent");
    }
    let name = event.dispatch_method_name();
    let mut argument = empty_stream();
    emit_punct(&mut argument, '&');
    emit_ident(&mut argument, "event");
    assert(stream_view(argument) =~= punct('&') + ident("event"@));
    let mut tokens = empty_stream();
    emit_ident(&mut tokens, "move");
    emit_punct(&mut tokens, '|');
    emit_ident(&mut tokens, "event");
    emit_punct(&mut tokens, ':');
    emit_ident(&mut tokens, "KeyboardEvent");
    emit_punct(&mut tokens, '|');
    emit_stream(&mut tokens, instance_name);
    emit_member(&mut tokens, name.as_str());
    emit_group(&mut tokens, Delim::Parenthesis, &argument);
    emit_punct(&mut tokens, ',');
    assert(stream_view(tokens) =~= forwarding_closure(stream_view(*instance_name), event));
    tokens
}

/// Writes the statement that makes the listener of one event kind.
fn emit_bind_listener(out: &mut TokenStream, instance_name: &TokenStream, event: EventKind)
    ensures
        stream_view(*final(out)) == stream_view(*old(out)) + bind_listener(stream_view(*instance_name), event),
{
    proof {
        reveal_strlit("let");
        reveal_strlit("__handler");
        reveal_strlit("dyn");
        reveal_strlit("core");
        reveal_strlit("ops");
        reveal_strlit("FnMut");
        reveal_strlit("_");
        reveal_strlit("new");
    }
    let forwarding = forwarding_closure_tokens(instance_name, event);
    let mut inferred = empty_stream();
    emit_ident(&mut inferred, "_");
    assert(stream_view(inferred) =~= ident("_"@));
    emit_ident(out, "let");
    emit_ident(out, "__handler");
    emit_punct(out, '=');
    emit_closure_type(out);
    emit_punct2(out, ':', ':');
    emit_punct(out, '<');
    emit_ident(out, "dyn");
    emit_segment(out, "core");
    emit_segment(out, "ops");
    emit_segment(out, "FnMut");
    emit_group(out, Delim::Parenthesis, &inferred);
    emit_punct(out, '>');
    emit_segment(out, "new");
    emit_punct2(out, ':', ':');
    emit_punct(out, '<');
    emit_ident(out, "_");
    emit_punct(out, '>');
    emit_group(out, Delim::Parenthesis, &forwarding);
    emit_punct(out, ';');
    assert(stream_view(*out) =~= stream_view(*old(out)) + bind_listener(stream_view(*instance_name), event));
}

/// Writes the statement that puts the listener of one event kind on the target.
fn emit_add_listener(out: &mut TokenStream, target: &TokenStream, event: EventKind)
    ensures
        stream_view(*final(out)) == stream_view(*old(out)) + add_listener(stream_view(*target), event),
{
    proof {
        reveal_strlit("add_event_listener_with_callback");
        reveal_strlit("wasm_bindgen");
        reveal_strlit("JsCast");
        reveal_strlit("unchecked_ref");
        reveal_strlit("__handler");
        reveal_strlit("as_ref");
        reveal_strlit("unwrap");
    }
    let nothing = empty_stream();
    let mut reference = empty_stream();
    emit_ident(&mut reference, "__handler");
    emit_member(&mut reference, "as_ref");
    emit_group(&mut reference, Delim::Parenthesis, &nothing);
    assert(stream_view(reference) =~= ident("__handler"@) + member("as_ref"@) + group(
        Delim::Parenthesis,
        Seq::empty(),
    ));
    let mut arguments = empty_stream();
    emit_string(&mut arguments, event.name());
    emit_punct(&mut arguments, ',');
    emit_segment(&mut arguments, "wasm_bindgen");
    emit_segment(&mut arguments, "JsCast");
    emit_segment(&mut arguments, "unchecked_ref");
    emit_group(&mut arguments, Delim::Parenthesis, &reference);
    emit_punct(&mut arguments, ',');
    assert(stream_view(arguments) =~= string(event.keyword()) + punct(',') + segment("wasm_bindgen"@) + segment(
        "JsCast"@,
    ) + segment("unchecked_ref"@) + group(Delim::Parenthesis, stream_view(reference)) + punct(','));
    emit_stream(out, target);
    emit_member(out, "add_event_listener_with_callback");
    emit_group(out, Delim::Parenthesis, &arguments);
    emit_member(out, "unwrap");
    emit_group(out, Delim::Parenthesis, &nothing);
    emit_punct(out, ';');
    assert(stream_view(*out) =~= stream_view(*old(out)) + add_listener(stream_view(*target), event));
}

/// Writes `::wasm_bindgen::closure::Closure::forget(__handler);`.
fn emit_forget_listener(out: &mut TokenStream)
    ensures
        stream_view(*final(out)) == stream_view(*old(out)) + forget_listener(),
{
    proof {
        reveal_strlit("forget");
        reveal_strlit("__handler");
    }
    let mut argument = empty_stream();
    emit_ident(&mut argument, "__handler");
    assert(stream_view(argument) =~= ident("__handler"@));
    emit_closure_type(out);
    emit_segment(out, "forget");
    emit_group(out, Delim::Parenthesis, &argument);
    emit_punct(out, ';');
    assert(stream_view(*out) =~= stream_view(*old(out)) + forget_listener());
}

/// Writes the block that puts the listener for one event kind on the target.
fn emit_listener_block(out: &mut TokenStream, instance_name: &TokenStream, target: &TokenStream, event: EventKind)
    ensures
        stream_view(*final(out)) == stream_view(*old(out)) + listener_block(
            stream_view(*instance_name),
            stream_view(*target),
            event,
        ),
{
    let mut inner = empty_stream();
    emit_clone_instance(&mut inner, instance_name);
    emit_bind_listener(&mut inner, instance_name, event);
    emit_add_listener(&mut inner, target, event);
    emit_forget_listener(&mut inner);
    assert(stream_view(inner) =~= clone_instance(stream_view(*instance_name)) + bind_listener(
        stream_view(*instance_name),
        event,
    ) + add_listener(stream_view(*target), event) + forget_listener());
    emit_group(out, Delim::Brace, &inner);
}

impl Args {
    /// The name of the field of the slot at `index`.
    pub fn ith_field(index: usize) -> (name: String)
        ensures
            name@ == field(index as nat),
            crate::tokens::is_word(name@),
    {
        proof {
            reveal_strlit("key_handler");
            lemma_numbered_is_word("key_handler"@, index as nat);
        }
        numbered_name("key_handler", index)
    }

    /// The names of the fields of the slots, in order.
    pub fn fields(&self) -> (names: Vec<String>)
        ensures
            names@.len() == self.key_handlers@.len(),
            forall|i: int| 0 <= i < names@.len() ==> (#[trigger] names@[i])@ == field(i as nat),
    {
        let mut names: Vec<String> = Vec::new();
        let mut i: usize = 0;
        while i < self.key_handlers.len()
            invariant
                i <= self.key_handlers.len(),
                names@.len() == i,
                forall|j: int| 0 <= j < i ==> (#[trigger] names@[j])@ == field(j as nat),
            decreases self.key_handlers.len() - i,
        {
            names.push(Args::ith_field(i));
            i += 1;
        }
        names
    }

    /// Writes the type of the table and its routing methods.
    pub fn extend_with_items(&self, ts: &mut TokenStream, keypress: bool)
        ensures
            stream_view(*final(ts)) == stream_view(*old(ts)) + items(self@.ty_name, self@.bindings, keypress),
    {
        emit_items(ts, &self.ty_name, &self.key_handlers, keypress);
    }

    /// Writes the statement that makes the shared instance of the table.
    pub fn extend_with_var_binding(&self, ts: &mut TokenStream)
        ensures
            stream_view(*final(ts)) == stream_view(*old(ts)) + var_binding(self@),
    {
        proof {
            reveal_strlit("let");
            reveal_strlit("std");
            reveal_strlit("rc");
            reveal_strlit("Rc");
            reveal_strlit("new");
        }
        let list = slot_value_list(&self.key_handlers);
        let mut values = empty_stream();
        emit_comma_separated(&mut values, &list);
        assert(stream_view(values) =~= comma_separated(slot_values(self@.bindings)));
        let mut literal = empty_stream();
        emit_stream(&mut literal, &self.ty_name);
        emit_group(&mut literal, Delim::Brace, &values);
        assert(stream_view(literal) =~= self@.ty_name + group(Delim::Brace, stream_view(values)));
        emit_ident(ts, "let");
        emit_stream(ts, &self.instance_name);
        emit_punct(ts, '=');
        emit_segment(ts, "std");
        emit_segment(ts, "rc");
        emit_segment(ts, "Rc");
        emit_segment(ts, "new");
        emit_group(ts, Delim::Parenthesis, &literal);
        emit_punct(ts, ';');
        assert(stream_view(*ts) =~= stream_view(*old(ts)) + var_binding(self@));
    }

    /// Writes one block for each event kind of the configuration; each block
    /// puts a listener on the target that hands the events to the table.
    pub fn extend_with_code_adding_listeners(&self, ts: &mut TokenStream, keypress: bool)
        ensures
            stream_view(*final(ts)) == stream_view(*old(ts)) + listeners(
                self@.instance_name,
                target_of(self@),
                keypress,
            ),
    {
        emit_listener_block(ts, &self.instance_name, &self.target, EventKind::Asserted);
        emit_listener_block(ts, &self.instance_name, &self.target, EventKind::Released);
        if keypress {
            emit_listener_block(ts, &self.instance_name, &self.target, EventKind::Sustained);
        }
        assert(stream_view(*ts) =~= stream_view(*old(ts)) + listeners(
            self@.instance_name,
            target_of(self@),
            keypress,
        ));
    }

    /// Writes the code of the startup form.
    pub fn extend_with_startup_code(&self, ts: &mut TokenStream, keypress: bool)
        ensures
            stream_view(*final(ts)) == stream_view(*old(ts)) + startup_code(self@, keypress),
    {
        self.extend_with_items(ts, keypress);
        self.extend_with_var_binding(ts);
        self.extend_with_code_adding_listeners(ts, keypress);
        assert(stream_view(*ts) =~= stream_view(*old(ts)) + startup_code(self@, keypress));
    }
}

} // verus!
