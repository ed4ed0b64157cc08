//! The small steps of the grammar reader. Each step takes the unread tokens and
//! gives what it read and the tokens after it, or a failure that holds the
//! message and how many tokens were unread at that point.
//!
//! A step looks through invisible groups, which stand around the fragments
//! that a declarative macro hands on: the group that stands first is opened
//! before the step reads. Before `syn` reads an expression, a path or the
//! statements of a block, the tokens are searched for literals of a kind that
//! it does not know, and refused if one is found.

use crate::error::{Failure, ParseFailure};
use crate::syntax::{
    block_statements, leading_expr, leading_ident, leading_path, literal_known, readable,
    statements_view, syn_expr, syn_ident, syn_path, syn_stmts, token_readable, Leading, Parsed,
    Statement, Stmt,
};
use crate::tokens::{
    append_stream, split_stream, stream_len, stream_view, token_at, Delim, Tok, Token,
};
use proc_macro2::TokenStream;
use vstd::prelude::*;
use vstd::string::*;

verus! {

/// The message for a token that is expected and not found.
pub open spec fn expected(what: Seq<char>) -> Seq<char> {
    "expected `"@ + what + "`"@
}

/// The message `cursor.error` of `syn` gives: at the end of the input it says so first.
pub open spec fn at_cursor(input: Seq<Tok>, message: Seq<char>) -> Seq<char> {
    if input.len() == 0 {
        "unexpected end of input, "@ + message
    } else {
        message
    }
}

/// The tokens as they stand at the cursor: an invisible group at the start is
/// opened, and so is one that then comes first, until a token that can be
/// seen stands first or nothing is left. Groups further on stay closed.
pub open spec fn entered(input: Seq<Tok>) -> Seq<Tok>
    decreases input,
{
    if input.len() > 0 && input[0] is Group && input[0]->Group_0 == Delim::Invisible {
        let inner = entered(input[0]->Group_1);
        if inner.len() > 0 {
            inner + input.skip(1)
        } else {
            entered(input.skip(1))
        }
    } else {
        input
    }
}

/// Whether nothing that can be seen is left: nothing but empty invisible groups.
pub open spec fn at_end(input: Seq<Tok>) -> bool {
    entered(input).len() == 0
}

/// Reads one punctuation character, whatever follows it. Invisible groups
/// before it are opened.
pub open spec fn punct_step(input: Seq<Tok>, ch: char, name: Seq<char>) -> Result<Seq<Tok>, Failure> {
    let opened = entered(input);
    if opened.len() > 0 && opened[0] is Punct && opened[0]->Punct_0 == ch {
        Ok(opened.skip(1))
    } else {
        Err(Failure { message: expected(name), remaining: input.len() })
    }
}

/// Reads `=>`: an equals sign joined to a greater-than sign. Invisible groups
/// before either of them are opened.
pub open spec fn fat_arrow_step(input: Seq<Tok>) -> Result<Seq<Tok>, Failure> {
    let first = entered(input);
    let second = entered(first.skip(1));
    if first.len() > 0 && first[0] == Tok::Punct('=', true) && second.len() > 0 && second[0] is Punct
        && second[0]->Punct_0 == '>' {
        Ok(second.skip(1))
    } else {
        Err(Failure { message: expected("=>"@), remaining: input.len() })
    }
}

/// The tokens inside a group, and the tokens after the group.
pub struct Inside {
    pub inner: Seq<Tok>,
    pub rest: Seq<Tok>,
}

/// Reads one group with the delimiter `delim`; `message` says what was
/// expected. Invisible groups before it are opened, unless an invisible group
/// is what is asked for.
pub open spec fn group_step(input: Seq<Tok>, delim: Delim, message: Seq<char>) -> Result<Inside, Failure> {
    let opened = if delim == Delim::Invisible {
        input
    } else {
        entered(input)
    };
    if opened.len() > 0 && opened[0] is Group && opened[0]->Group_0 == delim {
        Ok(Inside { inner: opened[0]->Group_1, rest: opened.skip(1) })
    } else {
        Err(Failure { message: at_cursor(input, message), remaining: input.len() })
    }
}

/// The failure for tokens that hold a literal of a kind that `syn` does not
/// know; `remaining` is the number of tokens that were unread.
pub open spec fn unrecognized_literal(remaining: nat) -> Failure {
    Failure { message: "unrecognized literal"@, remaining }
}

/// Turns what `syn` said of the start of `input` into a step of the reader.
pub open spec fn syn_step(input: Seq<Tok>, result: Result<Leading, Seq<char>>) -> Result<Leading, Failure> {
    match result {
        Ok(leading) => Ok(leading),
        Err(message) => Err(Failure { message, remaining: input.len() }),
    }
}

/// Reads a path. Tokens that hold a literal of a kind that `syn` does not
/// know are refused before they are read.
pub open spec fn path_step(input: Seq<Tok>) -> Result<Leading, Failure> {
    if readable(input) {
        syn_step(input, syn_path(input))
    } else {
        Err(unrecognized_literal(input.len()))
    }
}

/// Reads an expression. Tokens that hold a literal of a kind that `syn` does
/// not know are refused before they are read.
pub open spec fn expr_step(input: Seq<Tok>) -> Result<Leading, Failure> {
    if readable(input) {
        syn_step(input, syn_expr(input))
    } else {
        Err(unrecognized_literal(input.len()))
    }
}

/// Reads the statements inside a block. `remaining` is the number of tokens
/// that were unread when the block was met; every failure is reported there.
pub open spec fn statements_step(inner: Seq<Tok>, remaining: nat) -> Result<Seq<Stmt>, Failure> {
    if readable(inner) {
        match syn_stmts(inner) {
            Ok(stmts) => Ok(stmts),
            Err(message) => Err(Failure { message, remaining }),
        }
    } else {
        Err(unrecognized_literal(remaining))
    }
}

/// Reads an identifier.
pub open spec fn ident_step(input: Seq<Tok>) -> Result<Leading, Failure> {
    syn_step(input, syn_ident(input))
}

/// Whether what was read as an identifier is the word `word`.
pub open spec fn is_word_read(leading: Leading, word: Seq<char>) -> bool {
    leading.value.len() > 0 && leading.value[0] == Tok::Ident(word)
}

/// Holds an identifier that was read against `word`: a different identifier
/// fails with `expected` and the word, at the token after the identifier.
pub open spec fn keyword_check(leading: Leading, word: Seq<char>) -> Result<Seq<Tok>, Failure> {
    if is_word_read(leading, word) {
        Ok(leading.rest)
    } else {
        Err(Failure { message: expected(word), remaining: leading.rest.len() })
    }
}

/// Reads an identifier and holds it against `word`.
pub open spec fn keyword_step(input: Seq<Tok>, word: Seq<char>) -> Result<Seq<Tok>, Failure> {
    match ident_step(input) {
        Err(failure) => Err(failure),
        Ok(leading) => keyword_check(leading, word),
    }
}

/// A group that was read, and the stream after it.
pub struct GroupParts {
    pub inner: TokenStream,
    pub rest: TokenStream,
}

impl View for GroupParts {
    type V = Inside;

    open spec fn view(&self) -> Inside {
        Inside { inner: stream_view(self.inner), rest: stream_view(self.rest) }
    }
}

/// The view of the outcome of a step that gives the rest of the stream.
pub open spec fn rest_view(outcome: Result<TokenStream, ParseFailure>) -> Result<Seq<Tok>, Failure> {
    match outcome {
        Ok(rest) => Ok(stream_view(rest)),
        Err(failure) => Err(failure@),
    }
}

/// The view of the outcome of a step that gives a value and the rest of the stream.
pub open spec fn value_view(outcome: Result<Parsed, ParseFailure>) -> Result<Leading, Failure> {
    match outcome {
        Ok(parsed) => Ok(parsed@),
        Err(failure) => Err(failure@),
    }
}

/// The view of the outcome of a step that gives a group and the rest of the stream.
pub open spec fn group_view(outcome: Result<GroupParts, ParseFailure>) -> Result<Inside, Failure> {
    match outcome {
        Ok(group) => Ok(group@),
        Err(failure) => Err(failure@),
    }
}

/// Builds the message for a token that is expected and not found.
pub fn expected_message(what: &str) -> (message: String)
    ensures
        message@ == expected(what@),
{
    let mut message = String::from_str("expected `");
    message.append(what);
    message.append("`");
    message
}

/// Opens the invisible groups that stand first.
pub fn enter_groups(input: &TokenStream) -> (opened: TokenStream)
    ensures
        stream_view(opened) == entered(stream_view(*input)),
    decreases stream_view(*input),
{
    match token_at(input, 0) {
        Some(Token::Group(Delim::Invisible, inner)) => {
            proof {
                let tokens = stream_view(*input);
                assert(tokens[0]->Group_1 == stream_view(inner));
                assert(decreases_to!(tokens => tokens[0]));
                assert(decreases_to!(tokens[0] => tokens[0]->Group_1));
                assert(decreases_to!(tokens => tokens.skip(1)));
            }
            let mut opened = enter_groups(&inner);
            let parts = split_stream(input, 1);
            if stream_len(&opened) > 0 {
                append_stream(&mut opened, &parts.1);
                opened
            } else {
                enter_groups(&parts.1)
            }
        },
        _ => {
            let parts = split_stream(input, 0);
            assert(stream_view(parts.1) =~= stream_view(*input));
            parts.1
        },
    }
}

/// Whether nothing that can be seen is left.
pub fn is_at_end(input: &TokenStream) -> (end: bool)
    ensures
        end == at_end(stream_view(*input)),
{
    stream_len(&enter_groups(input)) == 0
}

/// Reads the punctuation character `ch`, named `name` in the message.
pub fn expect_punct(input: &TokenStream, ch: char, name: &str) -> (outcome: Result<TokenStream, ParseFailure>)
    ensures
        rest_view(outcome) == punct_step(stream_view(*input), ch, name@),
{
    let opened = enter_groups(input);
    match token_at(&opened, 0) {
        Some(Token::Punct(found, _)) if found == ch => {
            let parts = split_stream(&opened, 1);
            Ok(parts.1)
        },
        _ => Err(ParseFailure { message: expected_message(name), remaining: stream_len(input) }),
    }
}

/// Reads `=>`.
pub fn expect_fat_arrow(input: &TokenStream) -> (outcome: Result<TokenStream, ParseFailure>)
    ensures
        rest_view(outcome) == fat_arrow_step(stream_view(*input)),
{
    let opened = enter_groups(input);
    match token_at(&opened, 0) {
        Some(Token::Punct('=', true)) => {
            let after = split_stream(&opened, 1);
            let second = enter_groups(&after.1);
            match token_at(&second, 0) {
                Some(Token::Punct('>', _)) => {
                    let parts = split_stream(&second, 1);
                    Ok(parts.1)
                },
                _ => Err(ParseFailure { message: expected_message("=>"), remaining: stream_len(input) }),
            }
        },
        _ => Err(ParseFailure { message: expected_message("=>"), remaining: stream_len(input) }),
    }
}

/// Reads a group with the delimiter `delim`; `message` says what was expected.
pub fn expect_group(input: &TokenStream, delim: Delim, message: &str) -> (outcome: Result<GroupParts, ParseFailure>)
    ensures
        group_view(outcome) == group_step(stream_view(*input), delim, message@),
{
    let opened = if delim == Delim::Invisible {
        let parts = split_stream(input, 0);
        assert(stream_view(parts.1) =~= stream_view(*input));
        parts.1
    } else {
        enter_groups(input)
    };
    match token_at(&opened, 0) {
        Some(Token::Group(found, inner)) if found == delim => {
            let parts = split_stream(&opened, 1);
            Ok(GroupParts { inner, rest: parts.1 })
        },
        _ => {
            let remaining = stream_len(input);
            if remaining == 0 {
                let mut text = String::from_str("unexpected end of input, ");
                text.append(message);
                Err(ParseFailure { message: text, remaining })
            } else {
                Err(ParseFailure { message: String::from_str(message), remaining })
            }
        },
    }
}

/// Whether `syn` knows the kind of a literal with this text.
pub fn is_literal_known(text: &str) -> (known: bool)
    ensures
        known == literal_known(text@),
{
    let count = text.unicode_len();
    if count == 0 {
        return false;
    }
    let first = text.get_char(0);
    if first == '"' || first == 'r' || first == '\'' || first == '-' || ('0' <= first && first <= '9') {
        true
    } else if first == 'b' && count > 1 {
        let second = text.get_char(1);
        second == '"' || second == 'r' || second == '\''
    } else {
        false
    }
}

/// Whether the tokens hold no literal, at any depth, of a kind that `syn` does
/// not know.
pub fn is_readable(input: &TokenStream) -> (ok: bool)
    ensures
        ok == readable(stream_view(*input)),
    decreases stream_view(*input),
{
    let count = stream_len(input);
    let mut i: usize = 0;
    while i < count
        invariant
            i <= count,
            count == stream_view(*input).len(),
            forall|j: int| 0 <= j < i ==> token_readable(#[trigger] stream_view(*input)[j]),
        decreases count - i,
    {
        let ok = match token_at(input, i) {
            Some(Token::Literal(text)) => is_literal_known(text.as_str()),
            Some(Token::Group(_, inner)) => {
                proof {
                    let tokens = stream_view(*input);
                    assert(tokens[i as int]->Group_1 == stream_view(inner));
                    assert(decreases_to!(tokens => tokens[i as int]));
                    assert(decreases_to!(tokens[i as int] => tokens[i as int]->Group_1));
                }
                is_readable(&inner)
            },
            _ => true,
        };
        if !ok {
            assert(!token_readable(stream_view(*input)[i as int]));
            return false;
        }
        i += 1;
    }
    true
}

/// The failure for tokens that hold a literal of a kind that `syn` does not know.
pub fn unrecognized(remaining: usize) -> (failure: ParseFailure)
    ensures
        failure@ == unrecognized_literal(remaining as nat),
{
    ParseFailure { message: String::from_str("unrecognized literal"), remaining }
}

/// Turns what `syn` said of the start of `input` into a step of the reader.
pub fn syn_outcome(input: &TokenStream, result: Result<Parsed, String>) -> (outcome: Result<Parsed, ParseFailure>)
    ensures
        value_view(outcome) == syn_step(stream_view(*input), crate::syntax::parsed_view(result)),
{
    match result {
        Ok(parsed) => Ok(parsed),
        Err(message) => Err(ParseFailure { message, remaining: stream_len(input) }),
    }
}

/// Reads a path.
pub fn read_path(input: &TokenStream) -> (outcome: Result<Parsed, ParseFailure>)
    ensures
        value_view(outcome) == path_step(stream_view(*input)),
{
    if is_readable(input) {
        syn_outcome(input, leading_path(input))
    } else {
        Err(unrecognized(stream_len(input)))
    }
}

/// Reads an expression.
pub fn read_expr(input: &TokenStream) -> (outcome: Result<Parsed, ParseFailure>)
    ensures
        value_view(outcome) == expr_step(stream_view(*input)),
{
    if is_readable(input) {
        syn_outcome(input, leading_expr(input))
    } else {
        Err(unrecognized(stream_len(input)))
    }
}

/// The view of the statements of a block, or of the failure to read them.
pub open spec fn statements_read_view(outcome: Result<Vec<Statement>, ParseFailure>) -> Result<Seq<Stmt>, Failure> {
    match outcome {
        Ok(statements) => Ok(statements_view(statements@)),
        Err(failure) => Err(failure@),
    }
}

/// Reads the statements inside a block. `remaining` is the number of tokens
/// that were unread when the block was met.
pub fn read_statements(inner: &TokenStream, remaining: usize) -> (outcome: Result<Vec<Statement>, ParseFailure>)
    ensures
        statements_read_view(outcome) == statements_step(stream_view(*inner), remaining as nat),
{
    if is_readable(inner) {
        match block_statements(inner) {
            Ok(statements) => Ok(statements),
            Err(message) => Err(ParseFailure { message, remaining }),
        }
    } else {
        Err(unrecognized(remaining))
    }
}

/// Reads an identifier.
pub fn read_ident(input: &TokenStream) -> (outcome: Result<Parsed, ParseFailure>)
    ensures
        value_view(outcome) == ident_step(stream_view(*input)),
{
    syn_outcome(input, leading_ident(input))
}

/// Holds an identifier that was read against `word`.
pub fn check_keyword(parsed: Parsed, word: &str) -> (outcome: Result<TokenStream, ParseFailure>)
    ensures
        rest_view(outcome) == keyword_check(parsed@, word@),
{
    let same = match token_at(&parsed.value, 0) {
        Some(Token::Ident(name)) => name == String::from_str(word),
        _ => false,
    };
    if same {
        Ok(parsed.rest)
    } else {
        Err(ParseFailure { message: expected_message(word), remaining: stream_len(&parsed.rest) })
    }
}

/// Reads an identifier and holds it against `word`.
pub fn expect_keyword(input: &TokenStream, word: &str) -> (outcome: Result<TokenStream, ParseFailure>)
    ensures
        rest_view(outcome) == keyword_step(stream_view(*input), word@),
{
    check_keyword(read_ident(input)?, word)
}

} // verus!
