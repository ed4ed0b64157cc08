//! What the Rust grammar decides: paths, expressions, identifiers and the
//! statements of a block are read by `syn`. What it returns is given a name
//! here and nothing is said of it but that it depends on the tokens alone; the
//! functions at the end of this file make the calls and are believed, not proved.
//!
//! `syn` interprets every literal that it meets where an expression may stand,
//! and panics on a literal of a kind that it does not know, such as a C string.
//! [`readable`] says which tokens hold no such literal; the calls that read
//! expressions ask for it.

use crate::tokens::{stream_view, Tok};
use proc_macro2::TokenStream;
use quote::ToTokens;
use vstd::prelude::*;

verus! {

/// What `syn` makes of the start of a stream: the tokens of the value it read,
/// printed again, and the tokens it left; or its message.
pub struct Leading {
    pub value: Seq<Tok>,
    pub rest: Seq<Tok>,
}

/// One statement of a block.
pub struct Stmt {
    /// The statement's tokens, printed again.
    pub tokens: Seq<Tok>,
    /// Whether the statement is a closure expression without a semicolon.
    pub is_closure: bool,
}

/// Whether `syn` knows the kind of a literal with this text. It tells the kinds
/// apart by the start of the text: a string starts with a double quote or with
/// `r`, a character with an apostrophe, a byte or byte string with `b` and a
/// double quote, `r` or an apostrophe, a number with a digit or a minus sign.
pub open spec fn literal_known(text: Seq<char>) -> bool {
    &&& text.len() > 0
    &&& {
        ||| text[0] == '"'
        ||| text[0] == 'r'
        ||| text[0] == '\''
        ||| text[0] == '-'
        ||| ('0' <= text[0] && text[0] <= '9')
        ||| (text[0] == 'b' && text.len() > 1 && (text[1] == '"' || text[1] == 'r' || text[1] == '\''))
    }
}

/// Whether a token tree holds no literal, at any depth, of a kind that `syn`
/// does not know.
pub open spec fn token_readable(token: Tok) -> bool
    decreases token,
{
    match token {
        Tok::Literal(text) => literal_known(text),
        Tok::Group(_, inner) => readable(inner),
        _ => true,
    }
}

/// Whether tokens hold no literal, at any depth, of a kind that `syn` does not know.
pub open spec fn readable(tokens: Seq<Tok>) -> bool
    decreases tokens,
{
    forall|i: int| 0 <= i < tokens.len() ==> token_readable(#[trigger] tokens[i])
}

/// The result of `<syn::Path as Parse>::parse` at the start of `input`.
pub uninterp spec fn syn_path(input: Seq<Tok>) -> Result<Leading, Seq<char>>;

/// The result of `<syn::Expr as Parse>::parse` at the start of `input`.
pub uninterp spec fn syn_expr(input: Seq<Tok>) -> Result<Leading, Seq<char>>;

/// The result of `<syn::Ident as Parse>::parse` at the start of `input`.
pub uninterp spec fn syn_ident(input: Seq<Tok>) -> Result<Leading, Seq<char>>;

/// The result of `syn::Block::parse_within` on the whole of `input`.
pub uninterp spec fn syn_stmts(input: Seq<Tok>) -> Result<Seq<Stmt>, Seq<char>>;

/// A value read from the start of a stream, and the stream after it.
pub struct Parsed {
    pub value: TokenStream,
    pub rest: TokenStream,
}

impl View for Parsed {
    type V = Leading;

    open spec fn view(&self) -> Leading {
        Leading { value: stream_view(self.value), rest: stream_view(self.rest) }
    }
}

/// A statement read from a block.
pub struct Statement {
    pub tokens: TokenStream,
    pub is_closure: bool,
}

impl View for Statement {
    type V = Stmt;

    open spec fn view(&self) -> Stmt {
        Stmt { tokens: stream_view(self.tokens), is_closure: self.is_closure }
    }
}

/// The views of the statements of a block, in order.
pub open spec fn statements_view(statements: Seq<Statement>) -> Seq<Stmt> {
    Seq::new(statements.len(), |i: int| statements[i]@)
}

/// The view of a value read from the start of a stream, or the message.
pub open spec fn parsed_view(parsed: Result<Parsed, String>) -> Result<Leading, Seq<char>> {
    match parsed {
        Ok(p) => Ok(p@),
        Err(message) => Err(message@),
    }
}

/// `<syn::Path as Parse>::parse`, run on a copy of `input` by `Parser::parse2`;
/// the parser handed to it reads the path and then takes all that is left.
/// The result is the path printed again by `ToTokens` and the tokens after
/// it, or the message of the error. A literal among the generic arguments of
/// a path is interpreted by `Lit::new`, which panics on a kind it does not know.
#[verifier::external_body]
pub(crate) fn leading_path(input: &TokenStream) -> (parsed: Result<Parsed, String>)
    requires
        readable(stream_view(*input)),
    ensures
        parsed_view(parsed) == syn_path(stream_view(*input)),
{
    let parser = |stream: syn::parse::ParseStream| {
        let value: syn::Path = stream.parse()?;
        Ok(Parsed { value: value.into_token_stream(), rest: stream.parse()? })
    };
    syn::parse::Parser::parse2(parser, input.clone()).map_err(|error: syn::Error| error.to_string())
}

/// `<syn::Expr as Parse>::parse`, run on a copy of `input` by `Parser::parse2`;
/// the parser handed to it reads the expression and then takes all that is
/// left. The result is the expression printed again by `ToTokens` and the
/// tokens after it, or the message of the error. A literal in an expression
/// is interpreted by `Lit::new`, which panics on a kind it does not know.
#[verifier::external_body]
pub(crate) fn leading_expr(input: &TokenStream) -> (parsed: Result<Parsed, String>)
    requires
        readable(stream_view(*input)),
    ensures
        parsed_view(parsed) == syn_expr(stream_view(*input)),
{
    let parser = |stream: syn::parse::ParseStream| {
        let value: syn::Expr = stream.parse()?;
        Ok(Parsed { value: value.into_token_stream(), rest: stream.parse()? })
    };
    syn::parse::Parser::parse2(parser, input.clone()).map_err(|error: syn::Error| error.to_string())
}

/// `<syn::Ident as Parse>::parse`, run on a copy of `input` by `Parser::parse2`;
/// the parser handed to it reads the identifier, which may not be a keyword,
/// and then takes all that is left. The result is the identifier printed
/// again by `ToTokens` and the tokens after it, or the message of the error.
#[verifier::external_body]
pub(crate) fn leading_ident(input: &TokenStream) -> (parsed: Result<Parsed, String>)
    ensures
        parsed_view(parsed) == syn_ident(stream_view(*input)),
{
    let parser = |stream: syn::parse::ParseStream| {
        let value: syn::Ident = stream.parse()?;
        Ok(Parsed { value: value.into_token_stream(), rest: stream.parse()? })
    };
    syn::parse::Parser::parse2(parser, input.clone()).map_err(|error: syn::Error| error.to_string())
}

/// `syn::Block::parse_within`, run on a copy of `input` by `Parser::parse2`: each
/// statement printed again, with whether it is a closure expression without a
/// semicolon; or the message of the error. A literal in a statement is
/// interpreted by `Lit::new`, which panics on a kind it does not know.
#[verifier::external_body]
pub(crate) fn block_statements(input: &TokenStream) -> (statements: Result<Vec<Statement>, String>)
    requires
        readable(stream_view(*input)),
    ensures
        match statements {
            Ok(list) => syn_stmts(stream_view(*input)) == Ok::<Seq<Stmt>, Seq<char>>(statements_view(list@)),
            Err(message) => syn_stmts(stream_view(*input)) == Err::<Seq<Stmt>, Seq<char>>(message@),
        },
{
    match syn::parse::Parser::parse2(syn::Block::parse_within, input.clone()) {
        Ok(list) => Ok(list.into_iter().map(|stmt| Statement {
            is_closure: matches!(stmt, syn::Stmt::Expr(syn::Expr::Closure(_))),
            tokens: stmt.into_token_stream(),
        }).collect()),
        Err(error) => Err(error.to_string()),
    }
}

} // verus!
