//! The parsers of `syn` that the code generators call, each behind a trusted
//! wrapper whose result is named over the trees of its input.
use crate::tokens::{ident_continue, simple_ident, stream_trees, TokV};
use vstd::string::StrSliceExecFns;
use quote::ToTokens;
use syn::ext::IdentExt;
use vstd::prelude::*;

verus! {

// ---------------------------------------------------------------------------
// `syn::Item`

/// What `syn::parse2::<syn::Item>` makes of a stream: no item, a macro call
/// item (the trees of its path's `to_token_stream()`, and the trees between
/// the macro's delimiters), or another item.
pub enum ItemParseV {
    Unparsable,
    MacroCall(Seq<TokV>, Seq<TokV>),
    OtherItem,
}

/// The result of `syn::parse2::<syn::Item>` on a stream holding these trees.
pub uninterp spec fn item_parse(input: Seq<TokV>) -> ItemParseV;

/// The trees of `to_token_stream()` of the item parsed from `input`, after the
/// tokens of its macro call (if it is one) have been set to `tokens`.
pub uninterp spec fn item_reemit(input: Seq<TokV>, tokens: Seq<TokV>) -> Seq<TokV>;

/// A parsed item, as the library reads it.
pub enum ItemParse {
    Unparsable,
    MacroCall { path: proc_macro2::TokenStream, tokens: proc_macro2::TokenStream },
    OtherItem,
}

impl View for ItemParse {
    type V = ItemParseV;

    open spec fn view(&self) -> ItemParseV {
        match self {
            ItemParse::Unparsable => ItemParseV::Unparsable,
            ItemParse::MacroCall { path, tokens } => ItemParseV::MacroCall(
                stream_trees(*path),
                stream_trees(*tokens),
            ),
            ItemParse::OtherItem => ItemParseV::OtherItem,
        }
    }
}

/// `syn::parse2::<syn::Item>`; for `syn::Item::Macro` it hands out the macro
/// path's `to_token_stream()` and `mac.tokens`.
#[verifier::external_body]
pub(crate) fn parse_item(input: &proc_macro2::TokenStream) -> (r: ItemParse)
    ensures
        r@ == item_parse(stream_trees(*input)),
{
    match syn::parse2::<syn::Item>(input.clone()) {
        Ok(syn::Item::Macro(m)) => ItemParse::MacroCall {
            path: m.mac.path.to_token_stream(),
            tokens: m.mac.tokens,
        },
        Ok(_) => ItemParse::OtherItem,
        Err(_) => ItemParse::Unparsable,
    }
}

/// Parses `input` as a `syn::Item`, sets the macro call's `mac.tokens` to
/// `tokens` when it is a macro item, and returns `to_token_stream()` of it.
#[verifier::external_body]
pub(crate) fn reemit_item(input: &proc_macro2::TokenStream, tokens: proc_macro2::TokenStream) -> (r:
    proc_macro2::TokenStream)
    requires
        !(item_parse(stream_trees(*input)) is Unparsable),
    ensures
        stream_trees(r) == item_reemit(stream_trees(*input), stream_trees(tokens)),
{
    match syn::parse2::<syn::Item>(input.clone()) {
        Ok(syn::Item::Macro(mut m)) => {
            m.mac.tokens = tokens;
            m.to_token_stream()
        },
        Ok(item) => item.to_token_stream(),
        Err(e) => e.to_compile_error(),
    }
}

// ---------------------------------------------------------------------------
// `syn::LitStr`

/// The trees of `to_token_stream()` of the string literal that
/// `syn::parse2::<syn::LitStr>` reads from a stream, if it reads one.
pub uninterp spec fn lit_str_parse(input: Seq<TokV>) -> Option<Seq<TokV>>;

/// `syn::parse2::<syn::LitStr>`, handing the literal back as a stream.
#[verifier::external_body]
pub(crate) fn parse_lit_str(input: &proc_macro2::TokenStream) -> (r: Option<proc_macro2::TokenStream>)
    ensures
        r is Some <==> lit_str_parse(stream_trees(*input)) is Some,
        r matches Some(s) ==> lit_str_parse(stream_trees(*input)) == Some(stream_trees(s)),
{
    match syn::parse2::<syn::LitStr>(input.clone()) {
        Ok(lit) => Some(lit.to_token_stream()),
        Err(_) => None,
    }
}

// ---------------------------------------------------------------------------
// Attribute arguments

/// One argument of an attribute: `name = value` (the path's text when it is a
/// single identifier, the value when it is a string literal), or any other
/// argument.
pub enum AttrArgV {
    NameValue(Option<Seq<char>>, Option<Seq<char>>),
    Other,
}

/// The arguments read from an attribute's stream as comma-separated
/// `syn::NestedMeta`, or the trees of the `to_compile_error()` of the parse
/// error.
pub uninterp spec fn attr_args_parse(input: Seq<TokV>) -> Result<Seq<AttrArgV>, Seq<TokV>>;

/// An attribute argument, as the library reads it.
pub enum AttrArg {
    NameValue(Option<String>, Option<String>),
    Other,
}

impl View for AttrArg {
    type V = AttrArgV;

    open spec fn view(&self) -> AttrArgV {
        match self {
            AttrArg::NameValue(n, v) => AttrArgV::NameValue(
                match n {
                    Some(s) => Some(s@),
                    None => None,
                },
                match v {
                    Some(s) => Some(s@),
                    None => None,
                },
            ),
            AttrArg::Other => AttrArgV::Other,
        }
    }
}

/// The views of a list of attribute arguments.
pub open spec fn attr_args_view(args: Seq<AttrArg>) -> Seq<AttrArgV> {
    args.map_values(|a: AttrArg| a@)
}

/// Parses the arguments of an attribute as `syn::AttributeArgs` are parsed
/// (`syn::NestedMeta` separated by commas), handing out for each
/// `syn::Meta::NameValue` its `path.get_ident()` text and its string value.
/// On failure it hands out `to_compile_error()` of the error.
#[verifier::external_body]
pub(crate) fn parse_attr_args(input: &proc_macro2::TokenStream) -> (r: Result<Vec<AttrArg>, proc_macro2::TokenStream>)
    ensures
        match r {
            Ok(args) => attr_args_parse(stream_trees(*input)) == Ok::<Seq<AttrArgV>, Seq<TokV>>(attr_args_view(args@)),
            Err(e) => attr_args_parse(stream_trees(*input)) == Err::<Seq<AttrArgV>, Seq<TokV>>(stream_trees(e)),
        },
{
    let parser = syn::punctuated::Punctuated::<syn::NestedMeta, syn::token::Comma>::parse_terminated;
    match syn::parse::Parser::parse2(parser, input.clone()) {
        Ok(args) => Ok(args.into_iter().map(|a| match a {
            syn::NestedMeta::Meta(syn::Meta::NameValue(nv)) => AttrArg::NameValue(
                nv.path.get_ident().map(|i| i.to_string()),
                match nv.lit { syn::Lit::Str(s) => Some(s.value()), _ => None }),
            _ => AttrArg::Other,
        }).collect()),
        Err(e) => Err(e.to_compile_error()),
    }
}

// ---------------------------------------------------------------------------
// Functions and types

/// The first parameter of a function: none, `self`, or a typed parameter
/// (the trees of its type).
pub enum ArgSlotV {
    Missing,
    Receiver,
    Typed(Seq<TokV>),
}

/// A parsed function item: the trees of its name, of its first parameter's
/// type, of its return type (none for the default return type), and of the
/// whole item as `to_token_stream()` prints it.
pub struct FnSigV {
    pub name: Seq<TokV>,
    pub first_input: ArgSlotV,
    pub output: Option<Seq<TokV>>,
    pub item: Seq<TokV>,
}

/// What `syn::parse2::<syn::ItemFn>` reads from a stream, or the trees of the
/// `to_compile_error()` of the parse error.
pub uninterp spec fn fn_parse(input: Seq<TokV>) -> Result<FnSigV, Seq<TokV>>;

pub enum ArgSlot {
    Missing,
    Receiver,
    Typed(proc_macro2::TokenStream),
}

impl View for ArgSlot {
    type V = ArgSlotV;

    open spec fn view(&self) -> ArgSlotV {
        match self {
            ArgSlot::Missing => ArgSlotV::Missing,
            ArgSlot::Receiver => ArgSlotV::Receiver,
            ArgSlot::Typed(t) => ArgSlotV::Typed(stream_trees(*t)),
        }
    }
}

/// A parsed function item, as the library reads it.
pub struct FnSig {
    pub name: proc_macro2::TokenStream,
    pub first_input: ArgSlot,
    pub output: Option<proc_macro2::TokenStream>,
    pub item: proc_macro2::TokenStream,
}

impl View for FnSig {
    type V = FnSigV;

    open spec fn view(&self) -> FnSigV {
        FnSigV {
            name: stream_trees(self.name),
            first_input: self.first_input@,
            output: match self.output {
                Some(t) => Some(stream_trees(t)),
                None => None,
            },
            item: stream_trees(self.item),
        }
    }
}

/// `syn::parse2::<syn::ItemFn>`, handing out `sig.ident`, the first of
/// `sig.inputs`, `sig.output` and the item, each by `to_token_stream()`; on
/// failure `to_compile_error()` of the error.
#[verifier::external_body]
pub(crate) fn parse_fn(input: &proc_macro2::TokenStream) -> (r: Result<FnSig, proc_macro2::TokenStream>)
    ensures
        match r {
            Ok(f) => fn_parse(stream_trees(*input)) == Ok::<FnSigV, Seq<TokV>>(f@),
            Err(e) => fn_parse(stream_trees(*input)) == Err::<FnSigV, Seq<TokV>>(stream_trees(e)),
        },
{
    match syn::parse2::<syn::ItemFn>(input.clone()) {
        Ok(f) => Ok(FnSig {
            name: f.sig.ident.to_token_stream(),
            first_input: match f.sig.inputs.first() {
                None => ArgSlot::Missing,
                Some(syn::FnArg::Receiver(_)) => ArgSlot::Receiver,
                Some(syn::FnArg::Typed(t)) => ArgSlot::Typed(t.ty.to_token_stream()),
            },
            output: match &f.sig.output { syn::ReturnType::Default => None, syn::ReturnType::Type(_, t) => Some(t.to_token_stream()) },
            item: f.to_token_stream(),
        }),
        Err(e) => Err(e.to_compile_error()),
    }
}

/// What `syn::parse2::<syn::Type>` reads from a type's trees: no type, a type
/// that is not a path, or a path type with the text of its first segment's
/// identifier and the trees of that segment's first angle-bracketed argument
/// when that argument is a type.
pub enum TypeShapeV {
    Unparsable,
    NotPath,
    Path(Option<Seq<char>>, Option<Seq<TokV>>),
}

/// The shape `syn::parse2::<syn::Type>` reads from a stream of these trees.
pub uninterp spec fn type_parse(input: Seq<TokV>) -> TypeShapeV;

pub enum TypeShape {
    Unparsable,
    NotPath,
    Path(Option<String>, Option<proc_macro2::TokenStream>),
}

impl View for TypeShape {
    type V = TypeShapeV;

    open spec fn view(&self) -> TypeShapeV {
        match self {
            TypeShape::Unparsable => TypeShapeV::Unparsable,
            TypeShape::NotPath => TypeShapeV::NotPath,
            TypeShape::Path(head, arg) => TypeShapeV::Path(
                match head {
                    Some(h) => Some(h@),
                    None => None,
                },
                match arg {
                    Some(a) => Some(stream_trees(*a)),
                    None => None,
                },
            ),
        }
    }
}

/// `syn::parse2::<syn::Type>`; for `syn::Type::Path` it hands out the first
/// segment's identifier and, when that segment's arguments are angle-bracketed
/// and the first of them is `syn::GenericArgument::Type`, that type.
#[verifier::external_body]
pub(crate) fn parse_type(ty: &proc_macro2::TokenStream) -> (r: TypeShape)
    ensures
        r@ == type_parse(stream_trees(*ty)),
{
    match syn::parse2::<syn::Type>(ty.clone()) {
        Ok(syn::Type::Path(tp)) => match tp.path.segments.first() {
            None => TypeShape::Path(None, None),
            Some(seg) => TypeShape::Path(Some(seg.ident.to_string()), match &seg.arguments {
                syn::PathArguments::AngleBracketed(a) => match a.args.first() {
                    Some(syn::GenericArgument::Type(t)) => Some(t.to_token_stream()), _ => None },
                _ => None }),
        },
        Ok(_) => TypeShape::NotPath,
        Err(_) => TypeShape::Unparsable,
    }
}

// ---------------------------------------------------------------------------
// Identifiers from text

/// Reads a text as one identifier (keywords included) with
/// `syn::ext::IdentExt::parse_any`, handing it back as a stream. A plain
/// ASCII identifier comes back as itself. For any other text, what comes back
/// depends on the lexer that `proc_macro2` runs: inside a procedural macro
/// the compiler's, which puts identifiers into Unicode NFC, else its own,
/// which keeps the text as written; so of such a text only the shape of the
/// result is stated, not which identifier it is or whether there is one.
#[verifier::external_body]
pub(crate) fn lex_ident(text: &str) -> (r: Option<proc_macro2::TokenStream>)
    ensures
        simple_ident(text@) ==> r is Some,
        r matches Some(s) ==> one_ident(stream_trees(s)) && (simple_ident(text@) ==> stream_trees(s)
            == seq![TokV::Ident(text@)]),
{
    match syn::parse::Parser::parse_str(syn::Ident::parse_any, text) {
        Ok(i) => Some(i.to_token_stream()),
        Err(_) => None,
    }
}

/// A single identifier token.
pub open spec fn one_ident(trees: Seq<TokV>) -> bool {
    trees.len() == 1 && trees[0] is Ident
}

/// The characters that lie between tokens and never in one: Unicode
/// `White_Space` beyond ASCII, the left-to-right and right-to-left marks, and
/// the byte order mark.
pub open spec fn separator_char(c: char) -> bool {
    let n = c as u32;
    ||| n == 0x85
    ||| n == 0xa0
    ||| n == 0x1680
    ||| (0x2000 <= n && n <= 0x200a)
    ||| n == 0x200e
    ||| n == 0x200f
    ||| n == 0x2028
    ||| n == 0x2029
    ||| n == 0x202f
    ||| n == 0x205f
    ||| n == 0x3000
    ||| n == 0xfeff
}

/// A character that can stand in an identifier as far as a plain test tells:
/// an ASCII letter, digit or `_`, or a character beyond ASCII that is no
/// separator.
pub open spec fn ident_char(c: char) -> bool {
    if (c as u32) < 0x80 {
        ident_continue(c)
    } else {
        !separator_char(c)
    }
}

/// A text whose characters can all stand in an identifier. No text outside
/// this shape is an identifier; in particular a raw `r#name` is not, nor a
/// name with spaces or a comment around it, which the lexer would skip.
pub open spec fn ident_shape(text: Seq<char>) -> bool {
    forall|i: int| 0 <= i < text.len() ==> ident_char(#[trigger] text[i])
}

fn is_ident_char(c: char) -> (r: bool)
    ensures
        r == ident_char(c),
{
    let n = c as u32;
    if n < 0x80 {
        ('a' <= c && c <= 'z') || ('A' <= c && c <= 'Z') || c == '_' || ('0' <= c && c <= '9')
    } else {
        !(n == 0x85 || n == 0xa0 || n == 0x1680 || (0x2000 <= n && n <= 0x200a) || n == 0x200e
            || n == 0x200f || n == 0x2028 || n == 0x2029 || n == 0x202f || n == 0x205f || n
            == 0x3000 || n == 0xfeff)
    }
}

/// Whether every character of a text can stand in an identifier.
pub fn has_ident_shape(text: &str) -> (r: bool)
    ensures
        r == ident_shape(text@),
{
    let n = text.unicode_len();
    let mut i: usize = 0;
    while i < n
        invariant
            n == text@.len(),
            i <= n,
            forall|j: int| 0 <= j < i ==> ident_char(#[trigger] text@[j]),
        decreases n - i,
    {
        if !is_ident_char(text.get_char(i)) {
            return false;
        }
        i = i + 1;
    }
    true
}

/// The identifier that a text makes, given what lexing it gave (`lexed`): the
/// lexed stream when the text has the shape of an identifier and the stream is
/// one identifier token; otherwise none.
pub fn ident_from_lexed(text: &str, lexed: Option<proc_macro2::TokenStream>) -> (r: Option<
    proc_macro2::TokenStream,
>)
    ensures
        r == (if ident_shape(text@) && (lexed matches Some(s) && one_ident(stream_trees(s))) {
            lexed
        } else {
            None::<proc_macro2::TokenStream>
        }),
{
    if !has_ident_shape(text) {
        return None;
    }
    match lexed {
        Some(s) => {
            let lexemes = crate::tokens::stream_lexemes(&s);
            if lexemes.len() != 1 {
                return None;
            }
            assert(lexemes@[0]@ == stream_trees(s)[0]);
            match &lexemes[0] {
                crate::tokens::Lexeme::Ident(_) => Some(s),
                _ => None,
            }
        },
        None => None,
    }
}

} // verus!
