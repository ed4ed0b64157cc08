//! Token streams and their mathematical model.
//!
//! A `proc_macro2::TokenStream` is kept as it is and spoken of through
//! [`stream_view`], the sequence of token trees it holds. The functions at the
//! end of this file are the only places where a stream is taken apart or
//! built; they are believed, not proved.

use proc_macro2::{Delimiter, Group, Ident, Literal, Punct, Spacing, Span, TokenStream, TokenTree};
use quote::TokenStreamExt;
use vstd::prelude::*;

verus! {

/// How a group of tokens is delimited.
#[derive(Clone, Copy, Debug, PartialEq, Eq, Structural)]
pub enum Delim {
    Parenthesis,
    Brace,
    Bracket,
    Invisible,
}

/// A token tree as a mathematical value.
pub enum Tok {
    /// An identifier, by its text.
    Ident(Seq<char>),
    /// A punctuation character, and whether it is joined to the next one.
    Punct(char, bool),
    /// A literal, by its text.
    Literal(Seq<char>),
    /// A delimited sequence of token trees.
    Group(Delim, Seq<Tok>),
}

#[verifier::external_type_specification]
#[verifier::external_body]
pub struct ExTokenStream(proc_macro2::TokenStream);

/// The token trees that a stream holds, in order.
pub uninterp spec fn stream_view(ts: TokenStream) -> Seq<Tok>;

/// One token tree of a stream, with what the grammar reads of it held as plain
/// values. The tokens inside a group stay a stream.
pub enum Token {
    Ident(String),
    Punct(char, bool),
    Literal(String),
    Group(Delim, TokenStream),
}

impl View for Token {
    type V = Tok;

    open spec fn view(&self) -> Tok {
        match *self {
            Token::Ident(name) => Tok::Ident(name@),
            Token::Punct(ch, joint) => Tok::Punct(ch, joint),
            Token::Literal(text) => Tok::Literal(text@),
            Token::Group(delim, inner) => Tok::Group(delim, stream_view(inner)),
        }
    }
}

/// The characters that can stand as punctuation in a token stream.
pub open spec fn is_punct_char(ch: char) -> bool {
    ch == '!' || ch == '#' || ch == '$' || ch == '%' || ch == '&' || ch == '\'' || ch == '*'
        || ch == '+' || ch == ',' || ch == '-' || ch == '.' || ch == '/' || ch == ':' || ch == ';'
        || ch == '<' || ch == '=' || ch == '>' || ch == '?' || ch == '@' || ch == '^' || ch == '|'
        || ch == '~'
}

/// An ASCII letter or an underscore.
pub open spec fn is_word_start(ch: char) -> bool {
    ch == '_' || ('a' <= ch && ch <= 'z') || ('A' <= ch && ch <= 'Z')
}

/// An ASCII letter, digit or underscore.
pub open spec fn is_word_char(ch: char) -> bool {
    is_word_start(ch) || ('0' <= ch && ch <= '9')
}

/// A non-empty ASCII word that starts with a letter or an underscore.
pub open spec fn is_word(text: Seq<char>) -> bool {
    &&& text.len() > 0
    &&& is_word_start(text[0])
    &&& forall|i: int| 0 <= i < text.len() ==> is_word_char(#[trigger] text[i])
}

/// ASCII letters, digits and underscores only.
pub open spec fn is_plain_text(text: Seq<char>) -> bool {
    forall|i: int| 0 <= i < text.len() ==> is_word_char(#[trigger] text[i])
}

/// A word followed by word characters is a word.
pub proof fn lemma_word_concat(word: Seq<char>, more: Seq<char>)
    requires
        is_word(word),
        is_plain_text(more),
    ensures
        is_word(word + more),
{
    let whole = word + more;
    assert forall|i: int| 0 <= i < whole.len() implies is_word_char(#[trigger] whole[i]) by {
        if i < word.len() {
            assert(whole[i] == word[i]);
        } else {
            assert(whole[i] == more[i - word.len()]);
        }
    }
    assert(whole[0] == word[0]);
}

/// The text of the string literal that holds `text`, for a text that needs no escape.
pub open spec fn quoted(text: Seq<char>) -> Seq<char> {
    seq!['"'] + text + seq!['"']
}

/// `TokenStream::new`: a stream without tokens.
#[verifier::external_body]
pub(crate) fn empty_stream() -> (ts: TokenStream)
    ensures
        stream_view(ts) == Seq::<Tok>::empty(),
{
    TokenStream::new()
}

/// `TokenStream::into_iter`, counted: the number of token trees at the top level.
#[verifier::external_body]
pub(crate) fn stream_len(ts: &TokenStream) -> (n: usize)
    ensures
        n == stream_view(*ts).len(),
{
    ts.clone().into_iter().count()
}

/// `TokenStream::into_iter`, read at one place: the token tree at `index`, its
/// variant told apart and its fields moved into a [`Token`].
#[verifier::external_body]
pub(crate) fn token_at(ts: &TokenStream, index: usize) -> (token: Option<Token>)
    ensures
        match token {
            Some(t) => index < stream_view(*ts).len() && t@ == stream_view(*ts)[index as int],
            None => index >= stream_view(*ts).len(),
        },
{
    ts.clone().into_iter().nth(index).map(|tree| match tree {
        TokenTree::Ident(ident) => Token::Ident(ident.to_string()),
        TokenTree::Punct(punct) => Token::Punct(punct.as_char(), matches!(punct.spacing(), Spacing::Joint)),
        TokenTree::Literal(literal) => Token::Literal(literal.to_string()),
        TokenTree::Group(group) => Token::Group(match group.delimiter() {
            Delimiter::Parenthesis => Delim::Parenthesis,
            Delimiter::Brace => Delim::Brace,
            Delimiter::Bracket => Delim::Bracket,
            Delimiter::None => Delim::Invisible,
        }, group.stream()),
    })
}

/// `TokenStream::into_iter` collected in two parts: the first `count` token
/// trees, and those after them.
#[verifier::external_body]
pub(crate) fn split_stream(ts: &TokenStream, count: usize) -> (parts: (TokenStream, TokenStream))
    requires
        count <= stream_view(*ts).len(),
    ensures
        stream_view(parts.0) == stream_view(*ts).take(count as int),
        stream_view(parts.1) == stream_view(*ts).skip(count as int),
{
    let mut trees = ts.clone().into_iter();
    let head: TokenStream = trees.by_ref().take(count).collect();
    (head, trees.collect())
}

/// `TokenStream::extend` with one stream: the tokens of `other` follow those of `ts`.
#[verifier::external_body]
pub(crate) fn append_stream(ts: &mut TokenStream, other: &TokenStream)
    ensures
        stream_view(*final(ts)) == stream_view(*old(ts)) + stream_view(*other),
{
    ts.extend(std::iter::once(other.clone()));
}

/// `Ident::new`, appended: it takes an ASCII word and panics on what is no identifier.
#[verifier::external_body]
pub(crate) fn push_ident(ts: &mut TokenStream, name: &str)
    requires
        is_word(name@),
    ensures
        stream_view(*final(ts)) == stream_view(*old(ts)).push(Tok::Ident(name@)),
{
    ts.append(Ident::new(name, Span::call_site()));
}

/// `Punct::new`, appended: it panics on a character that is no punctuation.
#[verifier::external_body]
pub(crate) fn push_punct(ts: &mut TokenStream, ch: char, joint: bool)
    requires
        is_punct_char(ch),
    ensures
        stream_view(*final(ts)) == stream_view(*old(ts)).push(Tok::Punct(ch, joint)),
{
    ts.append(Punct::new(ch, if joint { Spacing::Joint } else { Spacing::Alone }));
}

/// `Literal::string`, appended: a text of ASCII letters, digits and underscores
/// is written between double quotes with nothing escaped.
#[verifier::external_body]
pub(crate) fn push_string(ts: &mut TokenStream, text: &str)
    requires
        is_plain_text(text@),
    ensures
        stream_view(*final(ts)) == stream_view(*old(ts)).push(Tok::Literal(quoted(text@))),
{
    ts.append(Literal::string(text));
}

/// `Group::new`, appended: one token tree that holds a copy of `inner` between delimiters.
#[verifier::external_body]
pub(crate) fn push_group(ts: &mut TokenStream, delim: Delim, inner: &TokenStream)
    ensures
        stream_view(*final(ts)) == stream_view(*old(ts)).push(Tok::Group(delim, stream_view(*inner))),
{
    let delimiter = match delim {
        Delim::Parenthesis => Delimiter::Parenthesis,
        Delim::Brace => Delimiter::Brace,
        Delim::Bracket => Delimiter::Bracket,
        Delim::Invisible => Delimiter::None,
    };
    ts.append(Group::new(delimiter, inner.clone()));
}

} // verus!
