//! Building blocks of the synthesized code: single tokens, `::` paths and
//! numbered names, each with the tokens it stands for.

use crate::tokens::{
    append_stream, is_punct_char, is_word, is_word_char, push_group, push_ident, push_punct,
    push_string, quoted, stream_view, Delim, Tok,
};
use proc_macro2::TokenStream;
use vstd::prelude::*;
use vstd::string::*;

verus! {

/// One identifier.
pub open spec fn ident(name: Seq<char>) -> Seq<Tok> {
    seq![Tok::Ident(name)]
}

/// One punctuation character that stands alone.
pub open spec fn punct(ch: char) -> Seq<Tok> {
    seq![Tok::Punct(ch, false)]
}

/// Two punctuation characters written as one operator, such as `::` and `=>`.
pub open spec fn punct2(first: char, second: char) -> Seq<Tok> {
    seq![Tok::Punct(first, true), Tok::Punct(second, false)]
}

/// One string literal.
pub open spec fn string(text: Seq<char>) -> Seq<Tok> {
    seq![Tok::Literal(quoted(text))]
}

/// One group.
pub open spec fn group(delim: Delim, inner: Seq<Tok>) -> Seq<Tok> {
    seq![Tok::Group(delim, inner)]
}

/// `::name`, one segment of a path.
pub open spec fn segment(name: Seq<char>) -> Seq<Tok> {
    punct2(':', ':') + ident(name)
}

/// `.name`, a field or a method.
pub open spec fn member(name: Seq<char>) -> Seq<Tok> {
    punct('.') + ident(name)
}

/// The decimal digit `d`.
pub open spec fn digit(d: nat) -> char {
    if d == 0 {
        '0'
    } else if d == 1 {
        '1'
    } else if d == 2 {
        '2'
    } else if d == 3 {
        '3'
    } else if d == 4 {
        '4'
    } else if d == 5 {
        '5'
    } else if d == 6 {
        '6'
    } else if d == 7 {
        '7'
    } else if d == 8 {
        '8'
    } else {
        '9'
    }
}

/// The decimal digits of `n`, without leading zeros.
pub open spec fn decimal(n: nat) -> Seq<char>
    decreases n,
{
    if n < 10 {
        seq![digit(n)]
    } else {
        decimal(n / 10).push(digit(n % 10))
    }
}

/// A name with a number behind it, such as `key_handler0`.
pub open spec fn numbered(prefix: Seq<char>, index: nat) -> Seq<char> {
    prefix + decimal(index)
}

/// The digits of a number are word characters.
pub proof fn lemma_decimal_is_plain(n: nat)
    ensures
        decimal(n).len() > 0,
        forall|i: int| 0 <= i < decimal(n).len() ==> is_word_char(#[trigger] decimal(n)[i]),
    decreases n,
{
    if n >= 10 {
        lemma_decimal_is_plain(n / 10);
    }
}

/// A word with a number behind it is a word.
pub proof fn lemma_numbered_is_word(prefix: Seq<char>, index: nat)
    requires
        is_word(prefix),
    ensures
        is_word(numbered(prefix, index)),
{
    lemma_decimal_is_plain(index);
    crate::tokens::lemma_word_concat(prefix, decimal(index));
}

/// The text of one decimal digit.
fn digit_text(d: usize) -> (text: &'static str)
    requires
        d < 10,
    ensures
        text@ == seq![digit(d as nat)],
{
    proof {
        reveal_strlit("0");
        reveal_strlit("1");
        reveal_strlit("2");
        reveal_strlit("3");
        reveal_strlit("4");
        reveal_strlit("5");
        reveal_strlit("6");
        reveal_strlit("7");
        reveal_strlit("8");
        reveal_strlit("9");
    }
    let text = if d == 0 {
        "0"
    } else if d == 1 {
        "1"
    } else if d == 2 {
        "2"
    } else if d == 3 {
        "3"
    } else if d == 4 {
        "4"
    } else if d == 5 {
        "5"
    } else if d == 6 {
        "6"
    } else if d == 7 {
        "7"
    } else if d == 8 {
        "8"
    } else {
        "9"
    };
    assert(text@ =~= seq![digit(d as nat)]);
    text
}

/// Writes the decimal digits of `n` behind `text`.
fn append_decimal(text: &mut String, n: usize)
    ensures
        final(text)@ == old(text)@ + decimal(n as nat),
    decreases n,
{
    if n < 10 {
        text.append(digit_text(n));
    } else {
        append_decimal(text, n / 10);
        text.append(digit_text(n % 10));
        assert(text@ =~= old(text)@ + decimal(n as nat));
    }
}

/// The name made of `prefix` and the decimal digits of `index`.
pub fn numbered_name(prefix: &str, index: usize) -> (name: String)
    ensures
        name@ == numbered(prefix@, index as nat),
{
    let mut name = String::from_str(prefix);
    append_decimal(&mut name, index);
    name
}

/// Writes one identifier.
pub(crate) fn emit_ident(out: &mut TokenStream, name: &str)
    requires
        is_word(name@),
    ensures
        stream_view(*final(out)) == stream_view(*old(out)) + ident(name@),
{
    push_ident(out, name);
    assert(stream_view(*out) =~= stream_view(*old(out)) + ident(name@));
}

/// Writes one punctuation character that stands alone.
pub(crate) fn emit_punct(out: &mut TokenStream, ch: char)
    requires
        is_punct_char(ch),
    ensures
        stream_view(*final(out)) == stream_view(*old(out)) + punct(ch),
{
    push_punct(out, ch, false);
    assert(stream_view(*out) =~= stream_view(*old(out)) + punct(ch));
}

/// Writes two punctuation characters as one operator.
pub(crate) fn emit_punct2(out: &mut TokenStream, first: char, second: char)
    requires
        is_punct_char(first),
        is_punct_char(second),
    ensures
        stream_view(*final(out)) == stream_view(*old(out)) + punct2(first, second),
{
    push_punct(out, first, true);
    push_punct(out, second, false);
    assert(stream_view(*out) =~= stream_view(*old(out)) + punct2(first, second));
}

/// Writes one string literal.
pub(crate) fn emit_string(out: &mut TokenStream, text: &str)
    requires
        crate::tokens::is_plain_text(text@),
    ensures
        stream_view(*final(out)) == stream_view(*old(out)) + string(text@),
{
    push_string(out, text);
    assert(stream_view(*out) =~= stream_view(*old(out)) + string(text@));
}

/// Writes one group around `inner`.
pub fn emit_group(out: &mut TokenStream, delim: Delim, inner: &TokenStream)
    ensures
        stream_view(*final(out)) == stream_view(*old(out)) + group(delim, stream_view(*inner)),
{
    push_group(out, delim, inner);
    assert(stream_view(*out) =~= stream_view(*old(out)) + group(delim, stream_view(*inner)));
}

/// Writes the tokens of `other`.
pub fn emit_stream(out: &mut TokenStream, other: &TokenStream)
    ensures
        stream_view(*final(out)) == stream_view(*old(out)) + stream_view(*other),
{
    append_stream(out, other);
}

/// Writes `::name`.
pub(crate) fn emit_segment(out: &mut TokenStream, name: &str)
    requires
        is_word(name@),
    ensures
        stream_view(*final(out)) == stream_view(*old(out)) + segment(name@),
{
    emit_punct2(out, ':', ':');
    emit_ident(out, name);
    assert(stream_view(*out) =~= stream_view(*old(out)) + segment(name@));
}

/// Writes `.name`.
pub(crate) fn emit_member(out: &mut TokenStream, name: &str)
    requires
        is_word(name@),
    ensures
        stream_view(*final(out)) == stream_view(*old(out)) + member(name@),
{
    emit_punct(out, '.');
    emit_ident(out, name);
    assert(stream_view(*out) =~= stream_view(*old(out)) + member(name@));
}

/// The views of streams, in order.
pub open spec fn streams_view(streams: Seq<TokenStream>) -> Seq<Seq<Tok>> {
    Seq::new(streams.len(), |i: int| stream_view(streams[i]))
}

/// Items with a comma between each two of them.
pub open spec fn comma_separated(items: Seq<Seq<Tok>>) -> Seq<Tok>
    decreases items.len(),
{
    if items.len() == 0 {
        Seq::empty()
    } else if items.len() == 1 {
        items[0]
    } else {
        comma_separated(items.drop_last()) + punct(',') + items.last()
    }
}

/// Writes `items` with a comma between each two of them.
pub fn emit_comma_separated(out: &mut TokenStream, items: &Vec<TokenStream>)
    ensures
        stream_view(*final(out)) == stream_view(*old(out)) + comma_separated(streams_view(items@)),
{
    let ghost all = streams_view(items@);
    let mut i: usize = 0;
    assert(stream_view(*out) =~= stream_view(*old(out)) + comma_separated(all.take(0)));
    while i < items.len()
        invariant
            i <= items.len(),
            all == streams_view(items@),
            stream_view(*out) == stream_view(*old(out)) + comma_separated(all.take(i as int)),
        decreases items.len() - i,
    {
        if i > 0 {
            emit_punct(out, ',');
        }
        emit_stream(out, &items[i]);
        proof {
            let before = all.take(i as int);
            let after = all.take(i + 1);
            assert(after.drop_last() =~= before);
            assert(after.last() == stream_view(items@[i as int]));
            if i == 0 {
                assert(before =~= Seq::<Seq<Tok>>::empty());
                assert(comma_separated(before) =~= Seq::<Tok>::empty());
                assert(stream_view(*out) =~= stream_view(*old(out)) + comma_separated(after));
            } else {
                assert(stream_view(*out) =~= stream_view(*old(out)) + comma_separated(after));
            }
        }
        i += 1;
    }
    assert(all.take(i as int) =~= all);
}

} // verus!
