//! Token streams of `proc_macro2`, seen by the library as sequences of plain
//! token trees, and the few operations on them that the code generators use.
use vstd::prelude::*;

verus! {

/// The delimiter of a token group.
#[derive(Clone, Copy, Debug, PartialEq, Eq, Structural)]
pub enum Delim {
    /// `( ... )`
    Paren,
    /// `{ ... }`
    Brace,
    /// `[ ... ]`
    Bracket,
    /// A group without visible delimiters.
    Invisible,
}

/// A token tree as plain values: an identifier or a literal by its text, a
/// punctuation character with its spacing (`true` for joint), or a delimited
/// group of token trees.
pub enum TokV {
    Ident(Seq<char>),
    Punct(char, bool),
    Literal(Seq<char>),
    Group(Delim, Seq<TokV>),
}

#[verifier::external_type_specification]
#[verifier::external_body]
pub struct ExTokenStream(proc_macro2::TokenStream);

/// The token trees that a `proc_macro2::TokenStream` holds, in order.
pub uninterp spec fn stream_trees(s: proc_macro2::TokenStream) -> Seq<TokV>;

/// The value that a string literal with this text denotes, as
/// `syn::LitStr::value` reads it; `None` for a text that is no string
/// literal. (How a value is escaped into such a text differs between the
/// compiler's and `proc_macro2`'s own literals; the value read back does not.)
pub uninterp spec fn string_literal_value(text: Seq<char>) -> Option<Seq<char>>;

// ---------------------------------------------------------------------------
// Spec shorthands for writing token sequences.

/// An identifier token.
pub open spec fn id(s: &str) -> TokV {
    TokV::Ident(s@)
}

/// A punctuation token followed by something else (`Spacing::Alone`).
pub open spec fn p(c: char) -> TokV {
    TokV::Punct(c, false)
}

/// A punctuation token joined to the next one (`Spacing::Joint`).
pub open spec fn pj(c: char) -> TokV {
    TokV::Punct(c, true)
}

/// The path separator `::`.
pub open spec fn colons() -> Seq<TokV> {
    seq![pj(':'), p(':')]
}

/// The arrow `->`.
pub open spec fn arrow() -> Seq<TokV> {
    seq![pj('-'), p('>')]
}

/// The fat arrow `=>`.
pub open spec fn fat_arrow() -> Seq<TokV> {
    seq![pj('='), p('>')]
}

/// `( inner )`
pub open spec fn paren(inner: Seq<TokV>) -> TokV {
    TokV::Group(Delim::Paren, inner)
}

/// `{ inner }`
pub open spec fn brace(inner: Seq<TokV>) -> TokV {
    TokV::Group(Delim::Brace, inner)
}

/// A string literal token that denotes `value`.
pub open spec fn is_str_lit(t: TokV, value: Seq<char>) -> bool {
    t matches TokV::Literal(text) && string_literal_value(text) == Some(value)
}

// ---------------------------------------------------------------------------
// What the constructors of `proc_macro2` accept.

pub open spec fn ident_start(c: char) -> bool {
    ('a' <= c && c <= 'z') || ('A' <= c && c <= 'Z') || c == '_'
}

pub open spec fn ident_continue(c: char) -> bool {
    ident_start(c) || ('0' <= c && c <= '9')
}

/// An ASCII identifier: a letter or `_`, then letters, digits and `_`.
/// `proc_macro2::Ident::new` accepts every such text.
pub open spec fn simple_ident(s: Seq<char>) -> bool {
    &&& s.len() > 0
    &&& ident_start(s[0])
    &&& forall|i: int| 0 <= i < s.len() ==> ident_continue(#[trigger] s[i])
}

/// The characters that `proc_macro2::Punct::new` accepts.
pub open spec fn punct_char(c: char) -> bool {
    c == '!' || c == '#' || c == '$' || c == '%' || c == '&' || c == '\'' || c == '*' || c
        == '+' || c == ',' || c == '-' || c == '.' || c == '/' || c == ':' || c == ';' || c
        == '<' || c == '=' || c == '>' || c == '?' || c == '@' || c == '^' || c == '|' || c
        == '~'
}

// ---------------------------------------------------------------------------
// Trusted operations of `proc_macro2`.

/// `proc_macro2::TokenStream::new`: a stream with no trees.
#[verifier::external_body]
pub(crate) fn stream_new() -> (s: proc_macro2::TokenStream)
    ensures
        stream_trees(s) == Seq::<TokV>::empty(),
{
    proc_macro2::TokenStream::new()
}

/// `Clone` of `proc_macro2::TokenStream`: the copy holds the same trees.
#[verifier::external_body]
pub(crate) fn stream_clone(s: &proc_macro2::TokenStream) -> (c: proc_macro2::TokenStream)
    ensures
        stream_trees(c) == stream_trees(*s),
{
    s.clone()
}

/// Appends `proc_macro2::Ident::new(name, Span::call_site())`; an identifier
/// made that way prints as `name`.
#[verifier::external_body]
pub(crate) fn push_ident(s: &mut proc_macro2::TokenStream, name: &str)
    requires
        simple_ident(name@),
    ensures
        stream_trees(*final(s)) == stream_trees(*old(s)).push(TokV::Ident(name@)),
{
    s.extend(core::iter::once(proc_macro2::TokenTree::Ident(proc_macro2::Ident::new(name, proc_macro2::Span::call_site()))));
}

/// Appends `proc_macro2::Punct::new(ch, spacing)`, joint when `joint` holds.
#[verifier::external_body]
pub(crate) fn push_punct(s: &mut proc_macro2::TokenStream, ch: char, joint: bool)
    requires
        punct_char(ch),
    ensures
        stream_trees(*final(s)) == stream_trees(*old(s)).push(TokV::Punct(ch, joint)),
{
    let spacing = if joint { proc_macro2::Spacing::Joint } else { proc_macro2::Spacing::Alone };
    s.extend(core::iter::once(proc_macro2::TokenTree::Punct(proc_macro2::Punct::new(ch, spacing))));
}

/// Appends `proc_macro2::Literal::string(value)`: one literal tree, a string
/// literal that denotes `value`. Its exact text (the escapes chosen) is not
/// stated: it depends on whether the code runs inside a procedural macro.
#[verifier::external_body]
pub(crate) fn push_string_literal(s: &mut proc_macro2::TokenStream, value: &str)
    ensures
        stream_trees(*final(s)).len() == stream_trees(*old(s)).len() + 1,
        stream_trees(*final(s)).drop_last() == stream_trees(*old(s)),
        stream_trees(*final(s)).last() is Literal,
        string_literal_value(stream_trees(*final(s)).last()->Literal_0) == Some(value@),
{
    s.extend(core::iter::once(proc_macro2::TokenTree::Literal(proc_macro2::Literal::string(value))));
}

/// Appends `proc_macro2::Group::new(delimiter, inner)`, a group holding the
/// trees of `inner`.
#[verifier::external_body]
pub(crate) fn push_group(s: &mut proc_macro2::TokenStream, delim: Delim, inner: proc_macro2::TokenStream)
    ensures
        stream_trees(*final(s)) == stream_trees(*old(s)).push(TokV::Group(delim, stream_trees(inner))),
{
    let d = match delim {
        Delim::Paren => proc_macro2::Delimiter::Parenthesis,
        Delim::Brace => proc_macro2::Delimiter::Brace,
        Delim::Bracket => proc_macro2::Delimiter::Bracket,
        Delim::Invisible => proc_macro2::Delimiter::None,
    };
    s.extend(core::iter::once(proc_macro2::TokenTree::Group(proc_macro2::Group::new(d, inner))));
}

/// `Extend<TokenStream>` of `proc_macro2::TokenStream`: the trees of `other`
/// follow those of `s`.
#[verifier::external_body]
pub(crate) fn push_stream(s: &mut proc_macro2::TokenStream, other: proc_macro2::TokenStream)
    ensures
        stream_trees(*final(s)) == stream_trees(*old(s)) + stream_trees(other),
{
    s.extend(core::iter::once(other));
}

/// The trees of a stream after the first `n` (`into_iter().skip(n).collect()`).
#[verifier::external_body]
pub(crate) fn stream_suffix(s: &proc_macro2::TokenStream, n: usize) -> (r: proc_macro2::TokenStream)
    requires
        n <= stream_trees(*s).len(),
    ensures
        stream_trees(r) == stream_trees(*s).skip(n as int),
{
    s.clone().into_iter().skip(n).collect()
}

/// The first `n` trees of a stream (`into_iter().take(n).collect()`).
#[verifier::external_body]
pub(crate) fn stream_prefix(s: &proc_macro2::TokenStream, n: usize) -> (r: proc_macro2::TokenStream)
    requires
        n <= stream_trees(*s).len(),
    ensures
        stream_trees(r) == stream_trees(*s).take(n as int),
{
    s.clone().into_iter().take(n).collect()
}

/// A token tree handed out of a stream: identifiers and literals by their
/// printed text, punctuation by its character and spacing, and a group by its
/// delimiter and the stream of its contents.
pub enum Lexeme {
    Ident(String),
    Punct(char, bool),
    Literal(String),
    Group(Delim, proc_macro2::TokenStream),
}

impl View for Lexeme {
    type V = TokV;

    open spec fn view(&self) -> TokV {
        match self {
            Lexeme::Ident(s) => TokV::Ident(s@),
            Lexeme::Punct(c, j) => TokV::Punct(*c, *j),
            Lexeme::Literal(s) => TokV::Literal(s@),
            Lexeme::Group(d, inner) => TokV::Group(*d, stream_trees(*inner)),
        }
    }
}

/// Iterating a `proc_macro2::TokenStream`: each token tree, in order, as a
/// `Lexeme` (an identifier, punctuation or literal by `to_string`, `as_char`
/// and `spacing`; a group by `delimiter` and `stream`).
#[verifier::external_body]
pub(crate) fn stream_lexemes(s: &proc_macro2::TokenStream) -> (r: Vec<Lexeme>)
    ensures
        r@.len() == stream_trees(*s).len(),
        forall|i: int| 0 <= i < r@.len() ==> (#[trigger] r@[i])@ == stream_trees(*s)[i],
{
    s.clone().into_iter().map(|t| match t {
        proc_macro2::TokenTree::Group(g) => Lexeme::Group(match g.delimiter() {
            proc_macro2::Delimiter::Parenthesis => Delim::Paren,
            proc_macro2::Delimiter::Brace => Delim::Brace,
            proc_macro2::Delimiter::Bracket => Delim::Bracket,
            proc_macro2::Delimiter::None => Delim::Invisible,
        }, g.stream()),
        proc_macro2::TokenTree::Ident(i) => Lexeme::Ident(i.to_string()),
        proc_macro2::TokenTree::Punct(c) => Lexeme::Punct(c.as_char(), c.spacing() == proc_macro2::Spacing::Joint),
        proc_macro2::TokenTree::Literal(l) => Lexeme::Literal(l.to_string()),
    }).collect()
}

// ---------------------------------------------------------------------------
// Verified helpers for building streams.

/// Appends `::`.
pub fn push_colons(s: &mut proc_macro2::TokenStream)
    ensures
        stream_trees(*final(s)) == stream_trees(*old(s)) + colons(),
{
    push_punct(s, ':', true);
    push_punct(s, ':', false);
    assert(stream_trees(*s) =~= stream_trees(*old(s)) + colons());
}

/// Appends `->`.
pub fn push_arrow(s: &mut proc_macro2::TokenStream)
    ensures
        stream_trees(*final(s)) == stream_trees(*old(s)) + arrow(),
{
    push_punct(s, '-', true);
    push_punct(s, '>', false);
    assert(stream_trees(*s) =~= stream_trees(*old(s)) + arrow());
}

/// Appends `=>`.
pub fn push_fat_arrow(s: &mut proc_macro2::TokenStream)
    ensures
        stream_trees(*final(s)) == stream_trees(*old(s)) + fat_arrow(),
{
    push_punct(s, '=', true);
    push_punct(s, '>', false);
    assert(stream_trees(*s) =~= stream_trees(*old(s)) + fat_arrow());
}

/// A stream of a single string literal that denotes `value`: what
/// `syn::LitStr::new(value, span)` turns into.
pub fn string_literal_stream(value: &str) -> (s: proc_macro2::TokenStream)
    ensures
        stream_trees(s).len() == 1,
        is_str_lit(stream_trees(s)[0], value@),
{
    let mut s = stream_new();
    push_string_literal(&mut s, value);
    s
}

} // verus!
