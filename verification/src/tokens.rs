//! Token streams, seen as the texts of their tokens.
//!
//! A token carries a span, and a span made while a macro runs differs from one expansion to the
//! next. What the generated code means does not depend on it, so the contracts speak of the
//! texts alone: an identifier counts as its name, a punctuation mark as its character, a literal
//! as it is written, and a delimited group as its opening delimiter, the texts of the tokens
//! inside it, and its closing delimiter. A group without delimiters counts as the texts of the
//! tokens inside it. Whether a punctuation mark is joined to the token behind it is no part of
//! its text; the marks written here all stand alone.
//!
//! The functions marked `external_body` call `proc_macro2` and `quote`. Their contracts say
//! what the sources of those crates show, and are not proved here.

use proc_macro2::{Ident, TokenStream};
use vstd::prelude::*;

verus! {

/// The texts of a run of tokens, in order.
pub type Texts = Seq<Seq<char>>;

/// The pair of delimiters around a group of tokens.
#[derive(Clone, Copy, Debug)]
pub enum Delimiter {
    /// `{` and `}`.
    Brace,
    /// `[` and `]`.
    Bracket,
}

impl Delimiter {
    /// The text that opens the group.
    pub open spec fn opening(self) -> Seq<char> {
        match self {
            Delimiter::Brace => seq!['{'],
            Delimiter::Bracket => seq!['['],
        }
    }

    /// The text that closes the group.
    pub open spec fn closing(self) -> Seq<char> {
        match self {
            Delimiter::Brace => seq!['}'],
            Delimiter::Bracket => seq![']'],
        }
    }
}

/// Whether `letter` may start an identifier: an ASCII letter or an underscore.
pub open spec fn is_identifier_start(letter: char) -> bool {
    letter == '_' || ('a' <= letter && letter <= 'z') || ('A' <= letter && letter <= 'Z')
}

/// Whether `letter` may follow the first letter of an identifier.
pub open spec fn is_identifier_continue(letter: char) -> bool {
    is_identifier_start(letter) || ('0' <= letter && letter <= '9')
}

/// Whether `name` is an identifier made of ASCII letters, digits and underscores. Keywords count.
pub open spec fn is_identifier(name: Seq<char>) -> bool {
    &&& name.len() > 0
    &&& is_identifier_start(name[0])
    &&& forall|i: int| 0 < i < name.len() ==> is_identifier_continue(#[trigger] name[i])
}

/// Whether `mark` is one of the characters that the language uses as punctuation.
pub open spec fn is_punctuation(mark: char) -> bool {
    mark == '!' || mark == '#' || mark == '$' || mark == '%' || mark == '&' || mark == '\''
        || mark == '*' || mark == '+' || mark == ',' || mark == '-' || mark == '.' || mark == '/'
        || mark == ':' || mark == ';' || mark == '<' || mark == '=' || mark == '>' || mark == '?'
        || mark == '@' || mark == '^' || mark == '|' || mark == '~'
}

/// The items one after another, with `separator` between each two of them.
pub open spec fn joined(items: Seq<Texts>, separator: Seq<char>) -> Texts
    decreases items.len(),
{
    if items.len() == 0 {
        Seq::empty()
    } else if items.len() == 1 {
        items[0]
    } else {
        joined(items.drop_last(), separator).push(separator) + items.last()
    }
}

/// The parts one after another.
pub open spec fn concatenated(parts: Seq<Texts>) -> Texts
    decreases parts.len(),
{
    if parts.len() == 0 {
        Seq::empty()
    } else {
        concatenated(parts.drop_last()) + parts.last()
    }
}

/// The parts of two runs taken together are the parts of the first, then those of the second.
pub proof fn lemma_concatenated_add(first: Seq<Texts>, second: Seq<Texts>)
    ensures
        concatenated(first + second) == concatenated(first) + concatenated(second),
    decreases second.len(),
{
    if second.len() == 0 {
        assert(first + second == first);
    } else {
        assert((first + second).drop_last() == first + second.drop_last());
        lemma_concatenated_add(first, second.drop_last());
    }
}

/// The name of an identifier, as `Display` writes it: a raw identifier keeps its `r#`.
pub uninterp spec fn ident_text(identifier: Ident) -> Seq<char>;

/// The texts of the tokens of a stream, groups opened up as the module describes.
pub uninterp spec fn stream_texts(stream: TokenStream) -> Texts;

/// The text of the string literal that `proc_macro2::Literal::string` makes for `value`:
/// the value between double quotes, with the characters escaped that need it.
pub uninterp spec fn string_literal_text(value: Seq<char>) -> Seq<char>;

/// `Ident::new` with the span `Span::call_site()`. It panics unless `name` is an identifier:
/// its test lets through at least the names that `is_identifier` describes. The new
/// identifier is not raw, so its text is `name`.
#[verifier::external_body]
pub(crate) fn ident_new(name: &str) -> (identifier: Ident)
    requires
        is_identifier(name@),
    ensures
        ident_text(identifier) == name@,
{
    Ident::new(name, proc_macro2::Span::call_site())
}

/// `==` between an `Ident` and a `str`, which compares the identifier's text with the string.
#[verifier::external_body]
pub(crate) fn ident_is(identifier: &Ident, name: &str) -> (same: bool)
    ensures
        same == (ident_text(*identifier) == name@),
{
    identifier == name
}

/// `to_string` of an `Ident`: the text that its `Display` writes.
#[verifier::external_body]
pub(crate) fn ident_string(identifier: &Ident) -> (text: String)
    ensures
        text@ == ident_text(*identifier),
{
    identifier.to_string()
}

/// `TokenStream::new`: a stream without tokens.
#[verifier::external_body]
pub(crate) fn stream_new() -> (stream: TokenStream)
    ensures
        stream_texts(stream) == Seq::<Seq<char>>::empty(),
{
    TokenStream::new()
}

/// `to_tokens` of an `Ident`, which appends a copy of the identifier as one token.
#[verifier::external_body]
pub(crate) fn append_ident(stream: &mut TokenStream, identifier: &Ident)
    ensures
        stream_texts(*final(stream)) == stream_texts(*old(stream)).push(ident_text(*identifier)),
{
    quote::ToTokens::to_tokens(identifier, stream)
}

/// `Punct::new` for a mark that stands alone, appended as one token. `Punct::new` panics on a
/// character that is no punctuation of the language.
#[verifier::external_body]
pub(crate) fn append_punct(stream: &mut TokenStream, mark: char)
    requires
        is_punctuation(mark),
    ensures
        stream_texts(*final(stream)) == stream_texts(*old(stream)).push(seq![mark]),
{
    let punct = proc_macro2::Punct::new(mark, proc_macro2::Spacing::Alone);
    quote::TokenStreamExt::append(stream, punct)
}

/// `to_tokens` of a `str`, which appends `Literal::string` of it as one token.
#[verifier::external_body]
pub(crate) fn append_string(stream: &mut TokenStream, value: &str)
    ensures
        stream_texts(*final(stream)) == stream_texts(*old(stream)).push(
            string_literal_text(value@),
        ),
{
    quote::ToTokens::to_tokens(value, stream)
}

/// `Group::new` around `inner`, appended as one token: in texts, the opening delimiter, what
/// `inner` holds, and the closing delimiter.
#[verifier::external_body]
pub(crate) fn append_group(stream: &mut TokenStream, delimiter: Delimiter, inner: TokenStream)
    ensures
        stream_texts(*final(stream)) == stream_texts(*old(stream)).push(delimiter.opening())
            + stream_texts(inner).push(delimiter.closing()),
{
    let delimiter = match delimiter {
        Delimiter::Brace => proc_macro2::Delimiter::Brace,
        Delimiter::Bracket => proc_macro2::Delimiter::Bracket,
    };
    quote::TokenStreamExt::append(stream, proc_macro2::Group::new(delimiter, inner))
}

/// `Extend::extend` of a stream by a stream: the tokens of `other` follow those of `stream`.
#[verifier::external_body]
pub(crate) fn append_stream(stream: &mut TokenStream, other: TokenStream)
    ensures
        stream_texts(*final(stream)) == stream_texts(*old(stream)) + stream_texts(other),
{
    stream.extend(core::iter::once(other))
}

} // verus!
