//! The dispatch-table form: `instance: Type, [path => handler, ..]`, and what it
//! shares with the startup form: the bindings and their validation.

use crate::error::{syntax_error, Diagnostic, ErrorKind, Failure, MacroError, ParseFailure};
use crate::reader::{
    at_end, expect_fat_arrow, expect_group, expect_punct, expr_step, fat_arrow_step, group_step,
    ident_step, is_at_end, path_step, punct_step, read_expr, read_ident, read_path,
};
use crate::tokens::{stream_len, stream_view, Delim, Tok};
use proc_macro2::TokenStream;
use strum::EnumCount;
use uievents_code::KeyboardEventCode;
use vstd::prelude::*;
use vstd::string::*;

verus! {

/// One binding of a key to a handler, as a mathematical value.
pub struct KeyBinding {
    /// The path that names the key.
    pub code: Seq<Tok>,
    /// The expression that gives the handler; it is carried through as it is.
    pub handler: Seq<Tok>,
}

/// One binding of a key to a handler: `path => handler`.
pub struct KeyHandler {
    pub key_path: TokenStream,
    pub key_handler_expr: TokenStream,
}

impl View for KeyHandler {
    type V = KeyBinding;

    open spec fn view(&self) -> KeyBinding {
        KeyBinding { code: stream_view(self.key_path), handler: stream_view(self.key_handler_expr) }
    }
}

/// The views of bindings, in order.
pub open spec fn bindings_view(handlers: Seq<KeyHandler>) -> Seq<KeyBinding> {
    Seq::new(handlers.len(), |i: int| handlers[i]@)
}

/// A dispatch table as a mathematical value.
pub struct DispatchTableDescriptor {
    /// The identifier of the variable that holds the table.
    pub instance_name: Seq<Tok>,
    /// The identifier of the type of the table.
    pub ty_name: Seq<Tok>,
    /// The expression on which the listeners are put; only the startup form has one.
    pub target: Option<Seq<Tok>>,
    /// The bindings, in the order in which they were written.
    pub bindings: Seq<KeyBinding>,
}

/// One binding, and the tokens after it.
pub struct BindingRead {
    pub binding: KeyBinding,
    pub rest: Seq<Tok>,
}

/// Reads `path => handler`.
pub open spec fn binding_step(input: Seq<Tok>) -> Result<BindingRead, Failure> {
    match path_step(input) {
        Err(failure) => Err(failure),
        Ok(path) => match fat_arrow_step(path.rest) {
            Err(failure) => Err(failure),
            Ok(after_arrow) => match expr_step(after_arrow) {
                Err(failure) => Err(failure),
                Ok(handler) => Ok(
                    BindingRead {
                        binding: KeyBinding { code: path.value, handler: handler.value },
                        rest: handler.rest,
                    },
                ),
            },
        },
    }
}

/// Reads bindings with a comma between each two of them, and one comma at the
/// end if it is there, up to the end of the input. A binding and its comma
/// that leave no fewer tokens than there were are refused, so that the
/// reading ends.
pub open spec fn bindings_step(input: Seq<Tok>) -> Result<Seq<KeyBinding>, Failure>
    decreases input.len(),
{
    if input.len() == 0 {
        Ok(Seq::empty())
    } else {
        match binding_step(input) {
            Err(failure) => Err(failure),
            Ok(first) => if first.rest.len() == 0 {
                Ok(seq![first.binding])
            } else {
                match punct_step(first.rest, ',', ","@) {
                    Err(failure) => Err(failure),
                    Ok(after_comma) => if after_comma.len() < input.len() {
                        match bindings_step(after_comma) {
                            Err(failure) => Err(failure),
                            Ok(more) => Ok(seq![first.binding] + more),
                        }
                    } else {
                        Err(Failure { message: "unexpected token"@, remaining: after_comma.len() })
                    },
                }
            },
        }
    }
}

/// The names of a table, and the tokens after them.
pub struct Names {
    pub instance_name: Seq<Tok>,
    pub ty_name: Seq<Tok>,
    pub rest: Seq<Tok>,
}

/// Reads `instance: Type,`.
pub open spec fn names_step(input: Seq<Tok>) -> Result<Names, Failure> {
    match ident_step(input) {
        Err(failure) => Err(failure),
        Ok(instance) => match punct_step(instance.rest, ':', ":"@) {
            Err(failure) => Err(failure),
            Ok(after_colon) => match ident_step(after_colon) {
                Err(failure) => Err(failure),
                Ok(ty_name) => match punct_step(ty_name.rest, ',', ","@) {
                    Err(failure) => Err(failure),
                    Ok(rest) => Ok(
                        Names { instance_name: instance.value, ty_name: ty_name.value, rest },
                    ),
                },
            },
        },
    }
}

/// A list of bindings, and the tokens after the list.
pub struct ListRead {
    pub bindings: Seq<KeyBinding>,
    pub rest: Seq<Tok>,
}

/// Reads `[path => handler, ..]`. What is wrong inside the brackets is
/// reported at the brackets.
pub open spec fn list_step(input: Seq<Tok>) -> Result<ListRead, Failure> {
    match group_step(input, Delim::Bracket, "expected square brackets"@) {
        Err(failure) => Err(failure),
        Ok(list) => match bindings_step(list.inner) {
            Err(failure) => Err(Failure { message: failure.message, remaining: input.len() }),
            Ok(bindings) => Ok(ListRead { bindings, rest: list.rest }),
        },
    }
}

/// A table that was read, and the tokens after it.
pub struct TableRead {
    pub table: DispatchTableDescriptor,
    pub rest: Seq<Tok>,
}

/// Reads the dispatch-table form up to the end of its list.
pub open spec fn table_step(input: Seq<Tok>) -> Result<TableRead, Failure> {
    match names_step(input) {
        Err(failure) => Err(failure),
        Ok(names) => match list_step(names.rest) {
            Err(failure) => Err(failure),
            Ok(list) => Ok(
                TableRead {
                    table: DispatchTableDescriptor {
                        instance_name: names.instance_name,
                        ty_name: names.ty_name,
                        target: None,
                        bindings: list.bindings,
                    },
                    rest: list.rest,
                },
            ),
        },
    }
}

/// The diagnostic for a table without bindings. It is reported at the call site.
pub open spec fn no_key_handlers() -> Diagnostic {
    Diagnostic { kind: ErrorKind::Validation, message: "No key handlers were provided."@, position: None }
}

/// The syntax error for tokens after the end of a form, for an input of
/// `total` tokens of which `remaining` are left.
pub open spec fn unexpected_token(total: nat, remaining: nat) -> Diagnostic {
    syntax_error(total, Failure { message: "unexpected token"@, remaining })
}

/// What a table that was read stands for: a table without bindings is not
/// valid, and nothing that can be seen may follow a valid one. `total` is the
/// number of tokens of the input.
pub open spec fn validated_table(total: nat, read: TableRead) -> Result<DispatchTableDescriptor, Diagnostic> {
    if read.table.bindings.len() == 0 {
        Err(no_key_handlers())
    } else if !at_end(read.rest) {
        Err(unexpected_token(total, read.rest.len()))
    } else {
        Ok(read.table)
    }
}

/// The valid table that an input in the dispatch-table form stands for, or the diagnostic.
pub open spec fn table_descriptor(input: Seq<Tok>) -> Result<DispatchTableDescriptor, Diagnostic> {
    match table_step(input) {
        Err(failure) => Err(syntax_error(input.len(), failure)),
        Ok(read) => validated_table(input.len(), read),
    }
}

/// The number of key codes that there are: `KeyboardEventCode::COUNT`, which
/// `strum::EnumCount` derives. It serves as the room that a list of bindings
/// starts with.
#[verifier::external_body]
pub(crate) fn key_code_count() -> usize {
    <KeyboardEventCode as EnumCount>::COUNT
}

/// One binding, and the stream after it.
pub struct BindingParts {
    pub binding: KeyHandler,
    pub rest: TokenStream,
}

impl View for BindingParts {
    type V = BindingRead;

    open spec fn view(&self) -> BindingRead {
        BindingRead { binding: self.binding@, rest: stream_view(self.rest) }
    }
}

/// The view of a binding with its rest, or of the failure to read one.
pub open spec fn binding_read_view(outcome: Result<BindingParts, ParseFailure>) -> Result<BindingRead, Failure> {
    match outcome {
        Ok(parts) => Ok(parts@),
        Err(failure) => Err(failure@),
    }
}

/// The view of a list of bindings, or of the failure to read one.
pub open spec fn bindings_read_view(outcome: Result<Vec<KeyHandler>, ParseFailure>) -> Result<Seq<KeyBinding>, Failure> {
    match outcome {
        Ok(handlers) => Ok(bindings_view(handlers@)),
        Err(failure) => Err(failure@),
    }
}

impl KeyHandler {
    /// Reads `path => handler`.
    pub fn parse(input: &TokenStream) -> (outcome: Result<BindingParts, ParseFailure>)
        ensures
            binding_read_view(outcome) == binding_step(stream_view(*input)),
    {
        let path = read_path(input)?;
        let after_arrow = expect_fat_arrow(&path.rest)?;
        let handler = read_expr(&after_arrow)?;
        Ok(
            BindingParts {
                binding: KeyHandler { key_path: path.value, key_handler_expr: handler.value },
                rest: handler.rest,
            },
        )
    }
}

/// Reads the bindings of `input` behind those of `read`.
fn read_more_bindings(input: TokenStream, read: Vec<KeyHandler>) -> (outcome: Result<Vec<KeyHandler>, ParseFailure>)
    ensures
        match bindings_step(stream_view(input)) {
            Ok(more) => outcome is Ok && bindings_view(outcome->Ok_0@) == bindings_view(read@) + more,
            Err(failure) => outcome is Err && outcome->Err_0@ == failure,
        },
    decreases stream_view(input).len(),
{
    let mut read = read;
    let ghost before = bindings_view(read@);
    let count = stream_len(&input);
    if count == 0 {
        assert(bindings_view(read@) =~= before + Seq::<KeyBinding>::empty());
        return Ok(read);
    }
    let first = KeyHandler::parse(&input)?;
    let ghost binding = first.binding@;
    read.push(first.binding);
    assert(bindings_view(read@) =~= before + seq![binding]);
    if stream_len(&first.rest) == 0 {
        return Ok(read);
    }
    let after_comma = expect_punct(&first.rest, ',', ",")?;
    let left = stream_len(&after_comma);
    if left < count {
        let outcome = read_more_bindings(after_comma, read);
        proof {
            if outcome is Ok {
                let more = bindings_step(stream_view(after_comma))->Ok_0;
                assert(bindings_view(outcome->Ok_0@) =~= before + (seq![binding] + more));
            }
        }
        outcome
    } else {
        Err(ParseFailure { message: String::from_str("unexpected token"), remaining: left })
    }
}

/// Reads bindings with a comma between each two of them, and one comma at the
/// end if it is there, up to the end of the input.
pub fn read_bindings(input: TokenStream) -> (outcome: Result<Vec<KeyHandler>, ParseFailure>)
    ensures
        bindings_read_view(outcome) == bindings_step(stream_view(input)),
{
    let read: Vec<KeyHandler> = Vec::with_capacity(key_code_count());
    assert(bindings_view(read@) =~= Seq::<KeyBinding>::empty());
    let outcome = read_more_bindings(input, read);
    proof {
        if let Ok(more) = bindings_step(stream_view(input)) {
            assert(Seq::<KeyBinding>::empty() + more =~= more);
        }
    }
    outcome
}

/// The names of a table, and the stream after them.
pub struct NamesParts {
    pub instance_name: TokenStream,
    pub ty_name: TokenStream,
    pub rest: TokenStream,
}

impl View for NamesParts {
    type V = Names;

    open spec fn view(&self) -> Names {
        Names {
            instance_name: stream_view(self.instance_name),
            ty_name: stream_view(self.ty_name),
            rest: stream_view(self.rest),
        }
    }
}

/// A list of bindings, and the stream after the list.
pub struct ListParts {
    pub key_handlers: Vec<KeyHandler>,
    pub rest: TokenStream,
}

impl View for ListParts {
    type V = ListRead;

    open spec fn view(&self) -> ListRead {
        ListRead { bindings: bindings_view(self.key_handlers@), rest: stream_view(self.rest) }
    }
}

/// The view of the names of a table, or of the failure to read them.
pub open spec fn names_view(outcome: Result<NamesParts, ParseFailure>) -> Result<Names, Failure> {
    match outcome {
        Ok(names) => Ok(names@),
        Err(failure) => Err(failure@),
    }
}

/// The view of a list with its rest, or of the failure to read one.
pub open spec fn list_view(outcome: Result<ListParts, ParseFailure>) -> Result<ListRead, Failure> {
    match outcome {
        Ok(list) => Ok(list@),
        Err(failure) => Err(failure@),
    }
}

/// Reads `instance: Type,`.
pub fn read_names(input: &TokenStream) -> (outcome: Result<NamesParts, ParseFailure>)
    ensures
        names_view(outcome) == names_step(stream_view(*input)),
{
    let instance = read_ident(input)?;
    let after_colon = expect_punct(&instance.rest, ':', ":")?;
    let ty_name = read_ident(&after_colon)?;
    let rest = expect_punct(&ty_name.rest, ',', ",")?;
    Ok(NamesParts { instance_name: instance.value, ty_name: ty_name.value, rest })
}

/// Reads `[path => handler, ..]`.
pub fn read_list(input: &TokenStream) -> (outcome: Result<ListParts, ParseFailure>)
    ensures
        list_view(outcome) == list_step(stream_view(*input)),
{
    let list = expect_group(input, Delim::Bracket, "expected square brackets")?;
    match read_bindings(list.inner) {
        Err(failure) => Err(ParseFailure { message: failure.message, remaining: stream_len(input) }),
        Ok(key_handlers) => Ok(ListParts { key_handlers, rest: list.rest }),
    }
}

/// Refuses a table without bindings, and tokens after a table: `bindings` is
/// the number of bindings, `remaining` the number of tokens after the list,
/// `ended` whether none of them can be seen, and `total` the number of tokens
/// of the input.
pub fn check_table(total: usize, bindings: usize, remaining: usize, ended: bool) -> (outcome: Result<(), MacroError>)
    ensures
        match outcome {
            Ok(_) => bindings != 0 && ended,
            Err(error) => if bindings == 0 {
                error@ == no_key_handlers()
            } else {
                !ended && error@ == unexpected_token(total as nat, remaining as nat)
            },
        },
{
    if bindings == 0 {
        Err(
            MacroError {
                kind: ErrorKind::Validation,
                message: String::from_str("No key handlers were provided."),
                position: None,
            },
        )
    } else if !ended {
        Err(
            MacroError::syntax(
                total,
                ParseFailure { message: String::from_str("unexpected token"), remaining },
            ),
        )
    } else {
        Ok(())
    }
}

/// A dispatch table: its names and its bindings.
pub struct KeyHandlers {
    /// The identifier of the variable that holds the table.
    pub instance_name: TokenStream,
    /// The identifier of the type of the table.
    pub ty_name: TokenStream,
    /// The bindings, in the order in which they were written.
    pub key_handlers: Vec<KeyHandler>,
}

impl View for KeyHandlers {
    type V = DispatchTableDescriptor;

    open spec fn view(&self) -> DispatchTableDescriptor {
        DispatchTableDescriptor {
            instance_name: stream_view(self.instance_name),
            ty_name: stream_view(self.ty_name),
            target: None,
            bindings: bindings_view(self.key_handlers@),
        }
    }
}

/// The view of a table or of the diagnostic.
pub open spec fn table_view(outcome: Result<KeyHandlers, MacroError>) -> Result<DispatchTableDescriptor, Diagnostic> {
    match outcome {
        Ok(table) => Ok(table@),
        Err(error) => Err(error@),
    }
}

impl KeyHandlers {
    /// Reads the dispatch-table form and validates it: the list of bindings
    /// may not be empty, and nothing may follow it.
    pub fn parse(input: &TokenStream) -> (outcome: Result<KeyHandlers, MacroError>)
        ensures
            table_view(outcome) == table_descriptor(stream_view(*input)),
    {
        let total = stream_len(input);
        let names = match read_names(input) {
            Ok(names) => names,
            Err(failure) => {
                return Err(MacroError::syntax(total, failure));
            },
        };
        let list = match read_list(&names.rest) {
            Ok(list) => list,
            Err(failure) => {
                return Err(MacroError::syntax(total, failure));
            },
        };
        match check_table(total, list.key_handlers.len(), stream_len(&list.rest), is_at_end(&list.rest)) {
            Err(error) => Err(error),
            Ok(_) => Ok(
                KeyHandlers {
                    instance_name: names.instance_name,
                    ty_name: names.ty_name,
                    key_handlers: list.key_handlers,
                },
            ),
        }
    }
}

} // verus!
