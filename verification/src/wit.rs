//! Adding the default WIT path to `wit_bindgen::generate!` and
//! `wasmtime::component::bindgen!` invocations.
use crate::syntax::{
    item_parse, item_reemit, lit_str_parse, parse_item, parse_lit_str, reemit_item, ItemParse,
    ItemParseV,
};
use crate::tokens::{
    brace, colons, id, is_str_lit, p, paren, push_colons, push_group, push_ident, push_punct,
    push_stream, stream_clone, stream_lexemes, stream_new, stream_prefix,
    stream_suffix, stream_trees, string_literal_stream, Delim, Lexeme, TokV,
};
use vstd::prelude::*;
use vstd::string::{StrSliceExecFns, StringExecFns};

verus! {

// ---------------------------------------------------------------------------
// Specification

/// `wit_bindgen :: generate`
pub open spec fn wit_bindgen_macro_path() -> Seq<TokV> {
    seq![id("wit_bindgen")] + colons() + seq![id("generate")]
}

/// `wasmtime :: component :: bindgen`
pub open spec fn wasmtime_bindgen_macro_path() -> Seq<TokV> {
    seq![id("wasmtime")] + colons() + seq![id("component")] + colons() + seq![id("bindgen")]
}

/// The paths of the two bindgen macros that get a default WIT path.
pub open spec fn is_bindgen_path(path: Seq<TokV>) -> bool {
    path == wasmtime_bindgen_macro_path() || path == wit_bindgen_macro_path()
}

/// The last tree is the punctuation `,`.
pub open spec fn ends_with_comma(trees: Seq<TokV>) -> bool {
    trees.len() > 0 && (trees.last() matches TokV::Punct(c, _) && c == ',')
}

/// Some tree at the top level is the identifier `path`.
pub open spec fn has_path_key(trees: Seq<TokV>) -> bool {
    exists|i: int| 0 <= i < trees.len() && trees[i] == TokV::Ident("path"@)
}

/// The fields of a `{ world: ..., ... }` argument with `path: <wit>` added at
/// the end, unless a `path` key is there already; a comma is put before it
/// unless the fields end with one.
pub open spec fn with_path_field(fields: Seq<TokV>, wit: TokV) -> Seq<TokV> {
    if has_path_key(fields) {
        fields
    } else {
        fields + (if ends_with_comma(fields) {
            Seq::<TokV>::empty()
        } else {
            seq![p(',')]
        }) + seq![id("path"), p(':'), wit]
    }
}

/// The new body of a bindgen macro call: a leading literal becomes
/// `<literal> in <wit>`; in a body that starts with `{ ... }` that group gets
/// the path field added and the trees after it stay; any other body stays as
/// it is.
pub open spec fn rewritten_tokens(tokens: Seq<TokV>, wit: TokV) -> Seq<TokV> {
    match tokens[0] {
        TokV::Literal(_) => seq![tokens[0], id("in"), wit],
        TokV::Group(d, fields) => if d == Delim::Brace {
            seq![brace(with_path_field(fields, wit))] + tokens.skip(1)
        } else {
            tokens
        },
        _ => tokens,
    }
}

/// The inputs on which adding the default path does its work: the item
/// parses, and a bindgen call has a body.
pub open spec fn default_path_applies(input: Seq<TokV>) -> bool {
    match item_parse(input) {
        ItemParseV::Unparsable => false,
        ItemParseV::MacroCall(path, tokens) => is_bindgen_path(path) ==> tokens.len() > 0,
        ItemParseV::OtherItem => true,
    }
}

/// The item with the default WIT path (the literal `wit`) added to a bindgen
/// call, printed back.
pub open spec fn with_default_path_spec(input: Seq<TokV>, wit: TokV) -> Seq<TokV> {
    match item_parse(input) {
        ItemParseV::MacroCall(path, tokens) => if is_bindgen_path(path) {
            item_reemit(input, rewritten_tokens(tokens, wit))
        } else {
            item_reemit(input, tokens)
        },
        _ => item_reemit(input, Seq::<TokV>::empty()),
    }
}

/// `<macro path> ! (<name> in <wit>) ;`
pub open spec fn bindgen_invocation(macro_path: Seq<TokV>, name: Seq<TokV>, wit: TokV) -> Seq<
    TokV,
> {
    macro_path + seq![p('!'), paren(name + seq![id("in"), wit]), p(';')]
}

// ---------------------------------------------------------------------------
// Adding the default path to a bindgen call

/// Whether a handed-out tree is the identifier `name`.
fn lexeme_is_ident(l: &Lexeme, name: &str) -> (r: bool)
    ensures
        r == (l@ == TokV::Ident(name@)),
{
    match l {
        Lexeme::Ident(t) => *t == name.to_owned(),
        _ => false,
    }
}

/// Whether a handed-out tree is the punctuation `c` with this spacing.
fn lexeme_is_punct(l: &Lexeme, c: char, joint: bool) -> (r: bool)
    ensures
        r == (l@ == TokV::Punct(c, joint)),
{
    match l {
        Lexeme::Punct(d, j) => *d == c && *j == joint,
        _ => false,
    }
}

/// Whether a macro path is one of the two bindgen macros' paths.
fn bindgen_path(path: &proc_macro2::TokenStream) -> (r: bool)
    ensures
        r == is_bindgen_path(stream_trees(*path)),
{
    let l = stream_lexemes(path);
    let ghost t = stream_trees(*path);
    if l.len() == 4 {
        assert(t.len() == 4);
        assert(l@[0]@ == t[0] && l@[1]@ == t[1] && l@[2]@ == t[2] && l@[3]@ == t[3]);
        let r = lexeme_is_ident(&l[0], "wit_bindgen") && lexeme_is_punct(&l[1], ':', true)
            && lexeme_is_punct(&l[2], ':', false) && lexeme_is_ident(&l[3], "generate");
        proof {
            let w = wit_bindgen_macro_path();
            assert(w =~= seq![id("wit_bindgen"), TokV::Punct(':', true), TokV::Punct(':', false), id("generate")]);
            if r {
                assert(t =~= w);
            }
            if t == w {
                assert(t[0] == w[0] && t[1] == w[1] && t[2] == w[2] && t[3] == w[3]);
            }
            assert(wasmtime_bindgen_macro_path().len() == 7);
        }
        r
    } else if l.len() == 7 {
        assert(t.len() == 7);
        assert(forall|k: int| 0 <= k < 7 ==> l@[k]@ == t[k]);
        let r = lexeme_is_ident(&l[0], "wasmtime") && lexeme_is_punct(&l[1], ':', true)
            && lexeme_is_punct(&l[2], ':', false) && lexeme_is_ident(&l[3], "component")
            && lexeme_is_punct(&l[4], ':', true) && lexeme_is_punct(&l[5], ':', false)
            && lexeme_is_ident(&l[6], "bindgen");
        proof {
            let w = wasmtime_bindgen_macro_path();
            assert(w =~= seq![
                id("wasmtime"),
                TokV::Punct(':', true),
                TokV::Punct(':', false),
                id("component"),
                TokV::Punct(':', true),
                TokV::Punct(':', false),
                id("bindgen"),
            ]);
            if r {
                assert(t =~= w);
            }
            if t == w {
                assert(t[0] == w[0] && t[1] == w[1] && t[2] == w[2] && t[3] == w[3]);
                assert(t[4] == w[4] && t[5] == w[5] && t[6] == w[6]);
            }
            assert(wit_bindgen_macro_path().len() == 4);
        }
        r
    } else {
        proof {
            assert(wit_bindgen_macro_path().len() == 4);
            assert(wasmtime_bindgen_macro_path().len() == 7);
        }
        false
    }
}

/// Whether the top-level trees end with a `,` and whether one of them is the
/// identifier `path`.
fn scan_fields(fields: &proc_macro2::TokenStream) -> (r: (bool, bool))
    ensures
        r.0 == ends_with_comma(stream_trees(*fields)),
        r.1 == has_path_key(stream_trees(*fields)),
{
    let lexemes = stream_lexemes(fields);
    let ghost trees = stream_trees(*fields);
    let path = "path".to_owned();
    let mut end_with_comma = false;
    let mut path_added = false;
    let mut i: usize = 0;
    while i < lexemes.len()
        invariant
            i <= lexemes@.len(),
            lexemes@.len() == trees.len(),
            forall|k: int| 0 <= k < lexemes@.len() ==> (#[trigger] lexemes@[k])@ == trees[k],
            path@ == "path"@,
            end_with_comma == ends_with_comma(trees.take(i as int)),
            path_added == has_path_key(trees.take(i as int)),
        decreases lexemes@.len() - i,
    {
        let ghost before = trees.take(i as int);
        assert(trees.take(i + 1) =~= before.push(trees[i as int]));
        end_with_comma = false;
        match &lexemes[i] {
            Lexeme::Punct(c, _) => {
                if *c == ',' {
                    end_with_comma = true;
                }
            },
            Lexeme::Ident(name) => {
                if *name == path {
                    path_added = true;
                }
            },
            _ => {},
        }
        proof {
            let now = trees.take(i + 1);
            if has_path_key(before) {
                let k = choose|k: int| 0 <= k < before.len() && before[k] == TokV::Ident("path"@);
                assert(now[k] == before[k]);
            }
            if has_path_key(now) {
                let k = choose|k: int| 0 <= k < now.len() && now[k] == TokV::Ident("path"@);
                if k < i {
                    assert(before[k] == now[k]);
                }
            }
        }
        i = i + 1;
    }
    assert(trees.take(lexemes@.len() as int) =~= trees);
    (end_with_comma, path_added)
}

/// The fields of a `{ ... }` argument with `path: <wit>` added as
/// `with_path_field` says, for the single literal `wit_lit`.
pub fn add_path_field(fields: proc_macro2::TokenStream, wit_lit: &proc_macro2::TokenStream) -> (r:
    proc_macro2::TokenStream)
    requires
        stream_trees(*wit_lit).len() == 1,
    ensures
        stream_trees(r) == with_path_field(stream_trees(fields), stream_trees(*wit_lit)[0]),
{
    let (end_with_comma, path_added) = scan_fields(&fields);
    if path_added {
        return fields;
    }
    let ghost old_fields = stream_trees(fields);
    let ghost wit = stream_trees(*wit_lit)[0];
    let mut new_tokens = fields;
    if !end_with_comma {
        push_punct(&mut new_tokens, ',', false);
    }
    proof {
        reveal_strlit("path");
    }
    push_ident(&mut new_tokens, "path");
    push_punct(&mut new_tokens, ':', false);
    push_stream(&mut new_tokens, stream_clone(wit_lit));
    assert(stream_trees(*wit_lit) =~= seq![wit]);
    assert(stream_trees(new_tokens) =~= with_path_field(old_fields, wit));
    new_tokens
}

/// The new body of a bindgen call, as `rewritten_tokens` says, for the single
/// literal `wit_lit`.
pub fn rewrite_bindgen_tokens(tokens: &proc_macro2::TokenStream, wit_lit: &proc_macro2::TokenStream) -> (r:
    proc_macro2::TokenStream)
    requires
        stream_trees(*tokens).len() > 0,
        stream_trees(*wit_lit).len() == 1,
    ensures
        stream_trees(r) == rewritten_tokens(stream_trees(*tokens), stream_trees(*wit_lit)[0]),
{
    let lexemes = stream_lexemes(tokens);
    let ghost trees = stream_trees(*tokens);
    let ghost wit = stream_trees(*wit_lit)[0];
    assert(stream_trees(*wit_lit) =~= seq![wit]);
    assert(lexemes@[0]@ == trees[0]);
    match &lexemes[0] {
        Lexeme::Literal(_) => {
            let mut s = stream_prefix(tokens, 1);
            proof {
                reveal_strlit("in");
            }
            push_ident(&mut s, "in");
            push_stream(&mut s, stream_clone(wit_lit));
            assert(stream_trees(s) =~= rewritten_tokens(trees, wit));
            s
        },
        Lexeme::Group(d, fields) => {
            if *d == Delim::Brace {
                let inner = add_path_field(stream_clone(fields), wit_lit);
                let mut s = stream_new();
                push_group(&mut s, Delim::Brace, inner);
                push_stream(&mut s, stream_suffix(tokens, 1));
                assert(stream_trees(s) =~= rewritten_tokens(trees, wit));
                s
            } else {
                stream_clone(tokens)
            }
        },
        _ => stream_clone(tokens),
    }
}

/// Adds the default WIT path to an item that is a `wit_bindgen::generate!` or
/// `wasmtime::component::bindgen!` call; any other item comes back as `syn`
/// prints it. The path goes in as one string literal that denotes `wit_path`.
pub fn with_default_path2(
    _attr: &proc_macro2::TokenStream,
    item: &proc_macro2::TokenStream,
    wit_path: &str,
) -> (r: proc_macro2::TokenStream)
    requires
        default_path_applies(stream_trees(*item)),
    ensures
        exists|wit: TokV|
            #[trigger] is_str_lit(wit, wit_path@) && stream_trees(r) == with_default_path_spec(
                stream_trees(*item),
                wit,
            ),
{
    let wit_lit = string_literal_stream(wit_path);
    let ghost wit = stream_trees(wit_lit)[0];
    let r = match parse_item(item) {
        ItemParse::MacroCall { path, tokens } => {
            if !bindgen_path(&path) {
                reemit_item(item, tokens)
            } else {
                let new_tokens = rewrite_bindgen_tokens(&tokens, &wit_lit);
                reemit_item(item, new_tokens)
            }
        },
        _ => reemit_item(item, stream_new()),
    };
    assert(is_str_lit(wit, wit_path@));
    r
}

/// `with_default_path2` where its work is defined; `None` where the item does
/// not parse, or is a bindgen call with an empty body.
pub fn with_default_path(
    attr: &proc_macro2::TokenStream,
    item: &proc_macro2::TokenStream,
    wit_path: &str,
) -> (r: Option<proc_macro2::TokenStream>)
    ensures
        r is Some <==> default_path_applies(stream_trees(*item)),
        r matches Some(s) ==> exists|wit: TokV|
            #[trigger] is_str_lit(wit, wit_path@) && stream_trees(s) == with_default_path_spec(
                stream_trees(*item),
                wit,
            ),
{
    match parse_item(item) {
        ItemParse::Unparsable => None,
        ItemParse::MacroCall { path, tokens } => {
            if bindgen_path(&path) && stream_lexemes(&tokens).len() == 0 {
                None
            } else {
                Some(with_default_path2(attr, item, wit_path))
            }
        },
        ItemParse::OtherItem => Some(with_default_path2(attr, item, wit_path)),
    }
}

// ---------------------------------------------------------------------------
// Bindgen invocations and the default path

/// `wit_bindgen :: generate ! (<world> in "<wit>") ;` for a stream that is one
/// string literal.
pub fn wit_bindgen2(input: &proc_macro2::TokenStream, wit_path: &str) -> (r:
    proc_macro2::TokenStream)
    requires
        lit_str_parse(stream_trees(*input)) is Some,
    ensures
        exists|wit: TokV|
            #[trigger] is_str_lit(wit, wit_path@) && stream_trees(r) == bindgen_invocation(
                wit_bindgen_macro_path(),
                lit_str_parse(stream_trees(*input)).unwrap(),
                wit,
            ),
{
    let world = parse_lit_str(input).unwrap();
    let mut s = stream_new();
    proof {
        reveal_strlit("wit_bindgen");
        reveal_strlit("generate");
    }
    push_ident(&mut s, "wit_bindgen");
    push_colons(&mut s);
    push_ident(&mut s, "generate");
    let wit_lit = string_literal_stream(wit_path);
    let ghost wit = stream_trees(wit_lit)[0];
    let r = finish_invocation(s, world, wit_lit);
    assert(is_str_lit(wit, wit_path@));
    r
}

/// `wasmtime :: component :: bindgen ! (<host> in "<wit>") ;` for a stream
/// that is one string literal.
pub fn wasmtime_bindgen2(input: &proc_macro2::TokenStream, wit_path: &str) -> (r:
    proc_macro2::TokenStream)
    requires
        lit_str_parse(stream_trees(*input)) is Some,
    ensures
        exists|wit: TokV|
            #[trigger] is_str_lit(wit, wit_path@) && stream_trees(r) == bindgen_invocation(
                wasmtime_bindgen_macro_path(),
                lit_str_parse(stream_trees(*input)).unwrap(),
                wit,
            ),
{
    let host = parse_lit_str(input).unwrap();
    let mut s = stream_new();
    proof {
        reveal_strlit("wasmtime");
        reveal_strlit("component");
        reveal_strlit("bindgen");
    }
    push_ident(&mut s, "wasmtime");
    push_colons(&mut s);
    push_ident(&mut s, "component");
    push_colons(&mut s);
    push_ident(&mut s, "bindgen");
    let wit_lit = string_literal_stream(wit_path);
    let ghost wit = stream_trees(wit_lit)[0];
    let r = finish_invocation(s, host, wit_lit);
    assert(is_str_lit(wit, wit_path@));
    r
}

/// Appends `! (<name> in <wit>) ;` to a macro path.
fn finish_invocation(
    macro_path: proc_macro2::TokenStream,
    name: proc_macro2::TokenStream,
    wit_lit: proc_macro2::TokenStream,
) -> (r: proc_macro2::TokenStream)
    requires
        stream_trees(wit_lit).len() == 1,
    ensures
        stream_trees(r) == bindgen_invocation(
            stream_trees(macro_path),
            stream_trees(name),
            stream_trees(wit_lit)[0],
        ),
{
    let ghost name_trees = stream_trees(name);
    let ghost wit = stream_trees(wit_lit)[0];
    assert(stream_trees(wit_lit) =~= seq![wit]);
    let mut s = macro_path;
    let ghost path_trees = stream_trees(s);
    push_punct(&mut s, '!', false);
    let mut args = name;
    proof {
        reveal_strlit("in");
    }
    push_ident(&mut args, "in");
    push_stream(&mut args, wit_lit);
    assert(stream_trees(args) =~= name_trees + seq![id("in"), wit]);
    push_group(&mut s, Delim::Paren, args);
    push_punct(&mut s, ';', false);
    assert(stream_trees(s) =~= bindgen_invocation(path_trees, name_trees, wit));
    s
}

/// `wit_bindgen2` for a string literal; `None` for any other input.
pub fn wit_bindgen(input: &proc_macro2::TokenStream, wit_path: &str) -> (r: Option<
    proc_macro2::TokenStream,
>)
    ensures
        r is Some <==> lit_str_parse(stream_trees(*input)) is Some,
        r matches Some(s) ==> exists|wit: TokV|
            #[trigger] is_str_lit(wit, wit_path@) && stream_trees(s) == bindgen_invocation(
                wit_bindgen_macro_path(),
                lit_str_parse(stream_trees(*input)).unwrap(),
                wit,
            ),
{
    match parse_lit_str(input) {
        Some(_) => Some(wit_bindgen2(input, wit_path)),
        None => None,
    }
}

/// `wasmtime_bindgen2` for a string literal; `None` for any other input.
pub fn wasmtime_bindgen(input: &proc_macro2::TokenStream, wit_path: &str) -> (r: Option<
    proc_macro2::TokenStream,
>)
    ensures
        r is Some <==> lit_str_parse(stream_trees(*input)) is Some,
        r matches Some(s) ==> exists|wit: TokV|
            #[trigger] is_str_lit(wit, wit_path@) && stream_trees(s) == bindgen_invocation(
                wasmtime_bindgen_macro_path(),
                lit_str_parse(stream_trees(*input)).unwrap(),
                wit,
            ),
{
    match parse_lit_str(input) {
        Some(_) => Some(wasmtime_bindgen2(input, wit_path)),
        None => None,
    }
}

/// The WIT path as a string literal.
pub fn default_wit_path2(wit_path: &str) -> (r: proc_macro2::TokenStream)
    ensures
        stream_trees(r).len() == 1,
        is_str_lit(stream_trees(r)[0], wit_path@),
{
    string_literal_stream(wit_path)
}

/// `default_wit_path!()`: the WIT directory as a string literal.
pub fn default_wit_path(_input: &proc_macro2::TokenStream, wit_path: &str) -> (r:
    proc_macro2::TokenStream)
    ensures
        stream_trees(r).len() == 1,
        is_str_lit(stream_trees(r)[0], wit_path@),
{
    default_wit_path2(wit_path)
}

// ---------------------------------------------------------------------------
// The default WIT directory

/// `Path::new(dir).join(part)` for a relative `part` on a Unix platform: the
/// part itself after an empty directory; appended after a directory that
/// ends with `/`; otherwise appended after a `/`.
pub open spec fn unix_join(dir: Seq<char>, part: Seq<char>) -> Seq<char> {
    if dir.len() == 0 {
        part
    } else if dir.last() == '/' {
        dir + part
    } else {
        dir + seq!['/'] + part
    }
}

/// `dir` joined with `graph`, as `unix_join` says.
fn join_graph(dir: &str) -> (r: String)
    ensures
        r@ == unix_join(dir@, "graph"@),
{
    let n = dir.unicode_len();
    let mut r = dir.to_owned();
    if n == 0 {
        return "graph".to_owned();
    }
    if dir.get_char(n - 1) != '/' {
        r.append("/");
        proof {
            reveal_strlit("/");
        }
    }
    r.append("graph");
    assert(r@ =~= unix_join(dir@, "graph"@));
    r
}

/// The WIT directory: the value of `SDK_WIT_PATH` when it is set, else the
/// `graph` directory inside the manifest directory.
pub fn get_default_wit_path(sdk_wit_path: Option<String>, manifest_dir: &str) -> (r: String)
    ensures
        r@ == match sdk_wit_path {
            Some(v) => v@,
            None => unix_join(manifest_dir@, "graph"@),
        },
{
    match sdk_wit_path {
        Some(v) => v,
        None => join_graph(manifest_dir),
    }
}

// ---------------------------------------------------------------------------
// Laws

/// A macro call other than the two bindgen macros keeps its tokens: the item
/// comes back as `syn` prints it.
pub proof fn law_other_macros_keep_their_tokens(input: Seq<TokV>, wit: TokV)
    requires
        item_parse(input) matches ItemParseV::MacroCall(path, tokens) && !is_bindgen_path(path),
    ensures
        with_default_path_spec(input, wit) == item_reemit(input, item_parse(input)->MacroCall_1),
{
}

/// A `path` that is already given is kept as it is: nothing is added.
pub proof fn law_given_path_is_kept(fields: Seq<TokV>, wit: TokV)
    requires
        has_path_key(fields),
    ensures
        with_path_field(fields, wit) == fields,
{
}

/// Without a `path`, the fields are kept and `path: <wit>` ends them.
pub proof fn law_default_path_is_appended(fields: Seq<TokV>, wit: TokV)
    requires
        !has_path_key(fields),
    ensures
        with_path_field(fields, wit).take(fields.len() as int) == fields,
        with_path_field(fields, wit).last() == wit,
        has_path_key(with_path_field(fields, wit)),
{
    let r = with_path_field(fields, wit);
    assert(r.take(fields.len() as int) =~= fields);
    assert(r[r.len() - 3] == TokV::Ident("path"@));
}

/// In a body that starts with `{ ... }`, no tree is lost: the trees after the
/// group stay, and the body keeps its length.
pub proof fn law_trees_after_the_group_stay(tokens: Seq<TokV>, wit: TokV)
    requires
        tokens.len() > 0,
        tokens[0] matches TokV::Group(d, _) && d == Delim::Brace,
    ensures
        rewritten_tokens(tokens, wit).len() == tokens.len(),
        rewritten_tokens(tokens, wit).skip(1) == tokens.skip(1),
{
    assert(rewritten_tokens(tokens, wit).skip(1) =~= tokens.skip(1));
}

/// Adding the default path to a bindgen call's body twice gives what adding
/// it once gives.
pub proof fn law_default_path_is_idempotent(tokens: Seq<TokV>, wit: TokV)
    requires
        tokens.len() > 0,
    ensures
        rewritten_tokens(rewritten_tokens(tokens, wit), wit) == rewritten_tokens(tokens, wit),
{
    let once = rewritten_tokens(tokens, wit);
    match tokens[0] {
        TokV::Literal(_) => {
            assert(once[0] == tokens[0]);
            assert(rewritten_tokens(once, wit) =~= once);
        },
        TokV::Group(d, fields) => {
            if d == Delim::Brace {
                let added = with_path_field(fields, wit);
                if !has_path_key(fields) {
                    law_default_path_is_appended(fields, wit);
                }
                assert(has_path_key(added));
                assert(once[0] == brace(added));
                assert(once.skip(1) =~= tokens.skip(1));
                assert(rewritten_tokens(once, wit) =~= once);
            }
        },
        _ => {},
    }
}

/// `wit_bindgen!("<world>")` and `#[with_default_path]` on
/// `wit_bindgen::generate!("<world>");` give the same arguments:
/// `"<world>" in <wit>`.
pub proof fn law_bindgen_spellings_agree(literal: Seq<char>, wit: TokV)
    ensures
        bindgen_invocation(wit_bindgen_macro_path(), seq![TokV::Literal(literal)], wit)
            == wit_bindgen_macro_path() + seq![
            p('!'),
            paren(rewritten_tokens(seq![TokV::Literal(literal)], wit)),
            p(';'),
        ],
        bindgen_invocation(wasmtime_bindgen_macro_path(), seq![TokV::Literal(literal)], wit)
            == wasmtime_bindgen_macro_path() + seq![
            p('!'),
            paren(rewritten_tokens(seq![TokV::Literal(literal)], wit)),
            p(';'),
        ],
{
    let lit = seq![TokV::Literal(literal)];
    assert(lit + seq![id("in"), wit] =~= rewritten_tokens(lit, wit));
}

} // verus!
