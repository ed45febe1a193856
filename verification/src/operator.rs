//! The operator attributes: `map_operator`, `filter_operator`,
//! `branch_operator`, `accumulate_operator` and `delay_operator` wrap a user
//! function into a WASM module that exports the matching processor interface.
use crate::defaults::{impl_defaults_2, impl_defaults_spec, use_defaults_2, use_defaults_spec};
use crate::options::{get_options, last_value, options_of, Options};
use crate::syntax::{
    attr_args_parse, attr_args_view, fn_parse, ident_from_lexed, ident_shape, lex_ident, one_ident,
    parse_attr_args, parse_fn,
    parse_type, type_parse, ArgSlot, ArgSlotV, AttrArg, AttrArgV, FnSig, FnSigV, TypeShape,
    TypeShapeV,
};
use crate::tokens::{
    arrow, brace, colons, fat_arrow, id, p, paren, push_arrow, push_colons, push_fat_arrow,
    push_group, push_ident, push_punct, push_stream, simple_ident,
    stream_clone, stream_new, stream_trees, is_str_lit, string_literal_stream, Delim, TokV,
};
use vstd::prelude::*;
use vstd::string::StrSliceExecFns;

verus! {

/// The kinds of operator, one for each processor interface.
#[derive(Clone, Copy, Debug, PartialEq, Eq, Structural)]
pub enum OperatorKind {
    Mapping,
    Filter,
    Branch,
    Accumulate,
    Delay,
}

/// How the generated `process` calls the user function.
#[derive(Clone, Copy, Debug, PartialEq, Eq, Structural)]
pub enum ProcessPlan {
    /// The user function takes the interface's arguments as they come.
    Call,
    /// The input is decoded first.
    DecodeCall,
    /// The input is decoded and the output encoded into the input.
    DecodeEncode,
    /// As `DecodeEncode`, for a user function that returns an `Option`; on
    /// `None` the input is passed on unchanged.
    DecodeEncodeOptional,
}

/// Why an operator cannot be generated.
#[derive(Debug)]
pub enum OperatorError {
    /// An `init`, `destroy`, `decode` or `encode` value is not an identifier.
    InvalidIdent(String),
    /// The operator does not support this combination of `decode` and
    /// `encode`.
    UnsupportedSettings,
    /// Encoding was asked for a function without a return type.
    MissingReturnType,
    /// The return type could not be read as a type with a first path segment.
    UnreadableReturnType,
}

pub enum OperatorErrorV {
    InvalidIdent(Seq<char>),
    UnsupportedSettings,
    MissingReturnType,
    UnreadableReturnType,
}

impl View for OperatorError {
    type V = OperatorErrorV;

    open spec fn view(&self) -> OperatorErrorV {
        match self {
            OperatorError::InvalidIdent(s) => OperatorErrorV::InvalidIdent(s@),
            OperatorError::UnsupportedSettings => OperatorErrorV::UnsupportedSettings,
            OperatorError::MissingReturnType => OperatorErrorV::MissingReturnType,
            OperatorError::UnreadableReturnType => OperatorErrorV::UnreadableReturnType,
        }
    }
}

// ---------------------------------------------------------------------------
// The user function

/// Whether a type is a path whose first segment is `ty` (`false` for any
/// other type); `None` where the type or its first segment cannot be read.
pub open spec fn type_head_is(shape: TypeShapeV, ty: Seq<char>) -> Option<bool> {
    match shape {
        TypeShapeV::NotPath => Some(false),
        TypeShapeV::Path(Some(head), _) => Some(head == ty),
        _ => None,
    }
}

/// Whether a type is `Option<T>` where `T`'s first path segment is `ty`;
/// `None` where the type or its first segment cannot be read.
pub open spec fn type_is_option_of(shape: TypeShapeV, ty: Seq<char>) -> Option<bool> {
    match shape {
        TypeShapeV::NotPath => Some(false),
        TypeShapeV::Path(Some(head), arg) => if head == "Option"@ {
            match arg {
                Some(inner) => match type_parse(inner) {
                    TypeShapeV::Path(Some(inner_head), _) => Some(inner_head == ty),
                    TypeShapeV::Unparsable => None,
                    _ => Some(false),
                },
                None => Some(false),
            }
        } else {
            Some(false)
        },
        _ => None,
    }
}

/// A user function given to an operator attribute.
pub struct OperatorInput {
    pub func: FnSig,
}

impl OperatorInput {
    /// Parses a function item (`syn::ItemFn`); on failure, the
    /// `compile_error!` tokens of the parse error.
    pub fn parse(input: &proc_macro2::TokenStream) -> (r: Result<OperatorInput, proc_macro2::TokenStream>)
        ensures
            match r {
                Ok(op) => fn_parse(stream_trees(*input)) == Ok::<FnSigV, Seq<TokV>>(op.func@),
                Err(e) => fn_parse(stream_trees(*input)) == Err::<FnSigV, Seq<TokV>>(stream_trees(e)),
            },
    {
        match parse_fn(input) {
            Ok(func) => Ok(OperatorInput { func }),
            Err(e) => Err(e),
        }
    }

    /// The function item.
    pub fn func(&self) -> (r: &FnSig)
        ensures
            r == &self.func,
    {
        &self.func
    }

    /// The function's name.
    pub fn name(&self) -> (r: &proc_macro2::TokenStream)
        ensures
            r == &self.func.name,
    {
        &self.func.name
    }

    /// The type of the first parameter.
    pub fn input_type(&self) -> (r: &proc_macro2::TokenStream)
        requires
            self.func.first_input is Typed,
        ensures
            self.func.first_input == ArgSlot::Typed(*r),
    {
        match &self.func.first_input {
            ArgSlot::Typed(t) => t,
            _ => {
                assert(false);
                &self.func.name
            },
        }
    }

    /// Whether the first parameter's type is a path whose first segment is
    /// `ty`; `None` where the type or that segment cannot be read.
    pub fn input_type_is(&self, ty: &str) -> (r: Option<bool>)
        requires
            self.func.first_input is Typed,
        ensures
            r == match self.func.first_input@ {
                ArgSlotV::Typed(t) => type_head_is(type_parse(t), ty@),
                _ => None::<bool>,
            },
    {
        match &self.func.first_input {
            ArgSlot::Typed(t) => shape_head_is(&parse_type(t), ty),
            _ => None,
        }
    }

    /// The return type.
    pub fn output_type(&self) -> (r: &proc_macro2::TokenStream)
        requires
            self.func.output is Some,
        ensures
            self.func.output == Some(*r),
    {
        match &self.func.output {
            Some(t) => t,
            None => {
                assert(false);
                &self.func.name
            },
        }
    }

    /// Whether the return type is a path whose first segment is `ty`; `None`
    /// where the type or that segment cannot be read.
    pub fn output_type_is(&self, ty: &str) -> (r: Option<bool>)
        requires
            self.func.output is Some,
        ensures
            r == match self.func@.output {
                Some(t) => type_head_is(type_parse(t), ty@),
                None => None::<bool>,
            },
    {
        match &self.func.output {
            Some(t) => shape_head_is(&parse_type(t), ty),
            None => None,
        }
    }

    /// Whether the return type is an `Option`; `None` where the type or its
    /// first segment cannot be read.
    pub fn output_type_is_option(&self) -> (r: Option<bool>)
        requires
            self.func.output is Some,
        ensures
            r == match self.func@.output {
                Some(t) => type_head_is(type_parse(t), "Option"@),
                None => None::<bool>,
            },
    {
        self.output_type_is("Option")
    }

    /// Whether the return type is `Option<T>` with `T`'s first segment `ty`;
    /// `None` where the type or its first segment cannot be read.
    pub fn output_type_is_option_of(&self, ty: &str) -> (r: Option<bool>)
        requires
            self.func.output is Some,
        ensures
            r == match self.func@.output {
                Some(t) => type_is_option_of(type_parse(t), ty@),
                None => None::<bool>,
            },
    {
        match &self.func.output {
            Some(t) => {
                let shape = parse_type(t);
                match &shape {
                    TypeShape::NotPath => Some(false),
                    TypeShape::Path(Some(head), arg) => {
                        if *head == "Option".to_owned() {
                            match arg {
                                Some(inner) => {
                                    let inner_shape = parse_type(inner);
                                    match &inner_shape {
                                        TypeShape::Path(Some(inner_head), _) => Some(
                                            *inner_head == ty.to_owned(),
                                        ),
                                        TypeShape::Unparsable => None,
                                        _ => Some(false),
                                    }
                                },
                                None => Some(false),
                            }
                        } else {
                            Some(false)
                        }
                    },
                    _ => None,
                }
            },
            None => None,
        }
    }
}

/// `type_head_is` on a parsed type.
fn shape_head_is(shape: &TypeShape, ty: &str) -> (r: Option<bool>)
    ensures
        r == type_head_is(shape@, ty@),
{
    match shape {
        TypeShape::NotPath => Some(false),
        TypeShape::Path(Some(head), _) => Some(*head == ty.to_owned()),
        _ => None,
    }
}

// ---------------------------------------------------------------------------
// Specification of the generated code

/// The WIT world that an operator implements.
pub open spec fn world_name(kind: OperatorKind) -> &'static str {
    match kind {
        OperatorKind::Mapping => "map-impl",
        OperatorKind::Filter => "filter-impl",
        OperatorKind::Branch => "branch-impl",
        OperatorKind::Accumulate => "accumulate-impl",
        OperatorKind::Delay => "delay-impl",
    }
}

/// The processor interface that an operator exports.
pub open spec fn interface_name(kind: OperatorKind) -> &'static str {
    match kind {
        OperatorKind::Mapping => "map",
        OperatorKind::Filter => "filter",
        OperatorKind::Branch => "branch",
        OperatorKind::Accumulate => "accumulate",
        OperatorKind::Delay => "delay",
    }
}

/// The parameters of the interface's `process`.
pub open spec fn process_params(kind: OperatorKind) -> Seq<TokV> {
    match kind {
        OperatorKind::Mapping | OperatorKind::Filter => seq![id("input"), p(':'), id("DataModel")],
        OperatorKind::Branch => seq![
            id("timestamp"),
            p(':'),
            id("HybridLogicalClock"),
            p(','),
            id("input"),
            p(':'),
            id("DataModel"),
        ],
        OperatorKind::Accumulate => seq![
            id("staged"),
            p(':'),
            id("DataModel"),
            p(','),
            id("input"),
            p(':'),
            id("Vec"),
            p('<'),
            id("DataModel"),
            p('>'),
        ],
        OperatorKind::Delay => seq![
            id("input"),
            p(':'),
            id("DataModel"),
            p(','),
            id("timestamp"),
            p(':'),
            id("HybridLogicalClock"),
        ],
    }
}

/// The return type of the interface's `process`.
pub open spec fn process_return(kind: OperatorKind) -> TokV {
    match kind {
        OperatorKind::Mapping | OperatorKind::Accumulate => id("DataModel"),
        OperatorKind::Filter | OperatorKind::Branch => id("bool"),
        OperatorKind::Delay => id("HybridLogicalClock"),
    }
}

/// The arguments passed on to the user function, with `data` for the input.
pub open spec fn call_args(kind: OperatorKind, data: &str) -> Seq<TokV> {
    match kind {
        OperatorKind::Mapping | OperatorKind::Filter => seq![id(data)],
        OperatorKind::Branch => seq![id("timestamp"), p(','), id(data)],
        OperatorKind::Accumulate => seq![id("staged"), p(','), id(data)],
        OperatorKind::Delay => seq![id(data), p(','), id("timestamp")],
    }
}

/// `let user_input = <decode>(&input);`
pub open spec fn decode_stmt(decode: Seq<TokV>) -> Seq<TokV> {
    seq![id("let"), id("user_input"), p('=')] + decode + seq![
        paren(seq![p('&'), id("input")]),
        p(';'),
    ]
}

/// `let user_output = <func>(user_input);`
pub open spec fn call_stmt(func: Seq<TokV>) -> Seq<TokV> {
    seq![id("let"), id("user_output"), p('=')] + func + seq![
        paren(seq![id("user_input")]),
        p(';'),
    ]
}

/// `<encode>(input, user_output)`
pub open spec fn encode_call(encode: Seq<TokV>) -> Seq<TokV> {
    encode + seq![paren(seq![id("input"), p(','), id("user_output")])]
}

/// The body of the generated `process`.
pub open spec fn process_code(
    kind: OperatorKind,
    plan: ProcessPlan,
    func: Seq<TokV>,
    decode: Seq<TokV>,
    encode: Seq<TokV>,
) -> Seq<TokV> {
    match plan {
        ProcessPlan::Call => func + seq![paren(call_args(kind, "input"))],
        ProcessPlan::DecodeCall => decode_stmt(decode) + func + seq![
            paren(call_args(kind, "user_input")),
        ],
        ProcessPlan::DecodeEncode => decode_stmt(decode) + call_stmt(func) + encode_call(encode),
        ProcessPlan::DecodeEncodeOptional => decode_stmt(decode) + call_stmt(func) + seq![
            id("match"),
            id("user_output"),
            brace(
                seq![id("Some"), paren(seq![id("user_output")])] + fat_arrow() + encode_call(encode)
                    + seq![p(','), id("None")] + fat_arrow() + seq![id("input"), p(',')],
            ),
        ],
    }
}

/// `wit_bindgen::generate!({ world: <world>, path: <wit>, });`
pub open spec fn generate_call(world: TokV, wit: TokV) -> Seq<TokV> {
    seq![id("wit_bindgen")] + colons() + seq![
        id("generate"),
        p('!'),
        paren(
            seq![
                brace(
                    seq![
                        id("world"),
                        p(':'),
                        world,
                        p(','),
                        id("path"),
                        p(':'),
                        wit,
                        p(','),
                    ],
                ),
            ],
        ),
        p(';'),
    ]
}

/// `impl exports::tinykube_graph::processor::<interface>::Guest for Module {
/// fn process(<params>) -> <return> { <process> } }`
pub open spec fn guest_impl(kind: OperatorKind, process: Seq<TokV>) -> Seq<TokV> {
    seq![id("impl"), id("exports")] + colons() + seq![id("tinykube_graph")] + colons() + seq![
        id("processor"),
    ] + colons() + seq![id(interface_name(kind))] + colons() + seq![
        id("Guest"),
        id("for"),
        id("Module"),
        brace(
            seq![id("fn"), id("process"), paren(process_params(kind))] + arrow() + seq![
                process_return(kind),
                brace(process),
            ],
        ),
    ]
}

/// The module that an operator attribute expands to: the user function, the
/// bindings of the operator's world, the default `use` items and `impl`
/// blocks, `struct Module;`, its `Guest` impl, and `export!(Module);`.
/// `world` and `wit` are the string literals of the world and the WIT path.
pub open spec fn expansion(
    kind: OperatorKind,
    item: Seq<TokV>,
    world: TokV,
    wit: TokV,
    process: Seq<TokV>,
) -> Seq<TokV> {
    item + generate_call(world, wit) + use_defaults_spec() + impl_defaults_spec() + seq![
        id("struct"),
        id("Module"),
        p(';'),
    ] + guest_impl(kind, process) + seq![id("export"), p('!'), paren(seq![id("Module")]), p(';')]
}

// ---------------------------------------------------------------------------
// Specification of the decisions

/// The keys whose values become identifiers.
pub open spec fn ident_key(key: Seq<char>) -> bool {
    key == "init"@ || key == "destroy"@ || key == "decode"@ || key == "encode"@
}

/// An argument that gives `value` to a key whose value becomes an identifier.
pub open spec fn gives_ident(arg: AttrArgV, value: Seq<char>) -> bool {
    arg matches AttrArgV::NameValue(Some(key), Some(v)) && ident_key(key) && v == value
}

/// A value that an operator may turn away as no identifier: one given to an
/// identifier key that is not a plain ASCII identifier. (Whether such a text
/// makes an identifier, and which, rests on the lexer that `proc_macro2` runs
/// under.)
pub open spec fn refusable_ident(args: Seq<AttrArgV>, value: Seq<char>) -> bool {
    &&& !simple_ident(value)
    &&& exists|i: int| 0 <= i < args.len() && #[trigger] gives_ident(args[i], value)
}

/// An argument that gives an identifier key a value with a character that no
/// identifier has.
pub open spec fn misshapen_ident_arg(arg: AttrArgV) -> bool {
    arg matches AttrArgV::NameValue(Some(key), Some(v)) && ident_key(key) && !ident_shape(v)
}

/// Some identifier key is given a value with a character that no identifier
/// has.
pub open spec fn misshapen_ident(args: Seq<AttrArgV>) -> bool {
    exists|i: int| 0 <= i < args.len() && #[trigger] misshapen_ident_arg(args[i])
}

/// Tokens that stand for an optional name: none without a name; for a name,
/// one identifier, which is the name itself when it is a plain ASCII
/// identifier.
pub open spec fn name_tokens(name: Option<Seq<char>>, toks: Seq<TokV>) -> bool {
    match name {
        None => toks.len() == 0,
        Some(v) => one_ident(toks) && (simple_ident(v) ==> toks == seq![TokV::Ident(v)]),
    }
}

/// Whether the function returns an `Option`.
pub open spec fn returns_option(f: FnSigV) -> Result<bool, OperatorErrorV> {
    match f.output {
        None => Err(OperatorErrorV::MissingReturnType),
        Some(t) => match type_head_is(type_parse(t), "Option"@) {
            Some(b) => Ok(b),
            None => Err(OperatorErrorV::UnreadableReturnType),
        },
    }
}

/// The plan for `process`: without `decode` and `encode` the user function is
/// called directly; `map` also takes both, `filter` and `branch` also take
/// `decode` alone; every other combination is refused.
pub open spec fn operator_plan(kind: OperatorKind, decode: bool, encode: bool, f: FnSigV) -> Result<
    ProcessPlan,
    OperatorErrorV,
> {
    if !decode && !encode {
        Ok(ProcessPlan::Call)
    } else {
        match kind {
            OperatorKind::Mapping => if decode && encode {
                match returns_option(f) {
                    Ok(true) => Ok(ProcessPlan::DecodeEncodeOptional),
                    Ok(false) => Ok(ProcessPlan::DecodeEncode),
                    Err(e) => Err(e),
                }
            } else {
                Err(OperatorErrorV::UnsupportedSettings)
            },
            OperatorKind::Filter | OperatorKind::Branch => if decode && !encode {
                Ok(ProcessPlan::DecodeCall)
            } else {
                Err(OperatorErrorV::UnsupportedSettings)
            },
            _ => Err(OperatorErrorV::UnsupportedSettings),
        }
    }
}

/// A result as plain values.
pub open spec fn result_view(r: Result<proc_macro2::TokenStream, OperatorError>) -> Result<
    Seq<TokV>,
    OperatorErrorV,
> {
    match r {
        Ok(s) => Ok(stream_trees(s)),
        Err(e) => Err(e@),
    }
}

/// What an operator does with the `decode` and `encode` functions and the WIT
/// path: a refused plan is an error; otherwise the expansion, with a string
/// literal for the world and one for the WIT path, and the tokens of the
/// `decode` and `encode` names.
pub open spec fn settings_outcome(
    kind: OperatorKind,
    f: FnSigV,
    decode: Option<Seq<char>>,
    encode: Option<Seq<char>>,
    wit_path: Seq<char>,
    r: Result<Seq<TokV>, OperatorErrorV>,
) -> bool {
    match operator_plan(kind, decode is Some, encode is Some, f) {
        Err(e) => r == Err::<Seq<TokV>, OperatorErrorV>(e),
        Ok(plan) => exists|world: TokV, wit: TokV, dec: Seq<TokV>, enc: Seq<TokV>|
            #![trigger is_str_lit(world, world_name(kind)@), is_str_lit(wit, wit_path), name_tokens(decode, dec), name_tokens(encode, enc)]
            is_str_lit(world, world_name(kind)@) && is_str_lit(wit, wit_path) && name_tokens(
                decode,
                dec,
            ) && name_tokens(encode, enc) && r == Ok::<Seq<TokV>, OperatorErrorV>(
                expansion(kind, f.item, world, wit, process_code(kind, plan, f.name, dec, enc)),
            ),
    }
}

/// What an operator does with the arguments `args` read from its attribute
/// and the function `f`: it may turn away a value of an identifier key that
/// is no plain ASCII identifier, and does turn one away when some such value
/// has a character that no identifier has; otherwise as `settings_outcome`
/// says for the options the arguments set (the WIT path is the last `wit`
/// value, else `default_wit`).
pub open spec fn args_outcome(
    kind: OperatorKind,
    args: Seq<AttrArgV>,
    f: FnSigV,
    default_wit: Seq<char>,
    r: Result<Seq<TokV>, OperatorErrorV>,
) -> bool {
    let opts = options_of(args, default_wit);
    &&& misshapen_ident(args) ==> (r matches Err(OperatorErrorV::InvalidIdent(_)))
    &&& (r matches Err(OperatorErrorV::InvalidIdent(v)) && refusable_ident(args, v))
        || settings_outcome(kind, f, opts.decode, opts.encode, opts.wit_path, r)
}

/// What an operator attribute with these arguments does to this item: a
/// parse error of the arguments or of the function comes out as its
/// `compile_error!` tokens; otherwise as `args_outcome` says.
pub open spec fn operator_outcome(
    kind: OperatorKind,
    attr: Seq<TokV>,
    item: Seq<TokV>,
    default_wit: Seq<char>,
    r: Result<Seq<TokV>, OperatorErrorV>,
) -> bool {
    match attr_args_parse(attr) {
        Err(e) => r == Ok::<Seq<TokV>, OperatorErrorV>(e),
        Ok(args) => match fn_parse(item) {
            Err(e) => r == Ok::<Seq<TokV>, OperatorErrorV>(e),
            Ok(f) => args_outcome(kind, args, f, default_wit, r),
        },
    }
}

// ---------------------------------------------------------------------------
// Building the generated code

/// Every identifier that the operator templates emit is one that
/// `proc_macro2::Ident::new` accepts.
pub proof fn lemma_operator_words()
    ensures
        simple_ident("let"@),
        simple_ident("user_input"@),
        simple_ident("input"@),
        simple_ident("user_output"@),
        simple_ident("match"@),
        simple_ident("Some"@),
        simple_ident("None"@),
        simple_ident("timestamp"@),
        simple_ident("staged"@),
        simple_ident("wit_bindgen"@),
        simple_ident("generate"@),
        simple_ident("world"@),
        simple_ident("path"@),
        simple_ident("struct"@),
        simple_ident("Module"@),
        simple_ident("impl"@),
        simple_ident("exports"@),
        simple_ident("tinykube_graph"@),
        simple_ident("processor"@),
        simple_ident("map"@),
        simple_ident("filter"@),
        simple_ident("branch"@),
        simple_ident("accumulate"@),
        simple_ident("delay"@),
        simple_ident("Guest"@),
        simple_ident("for"@),
        simple_ident("fn"@),
        simple_ident("process"@),
        simple_ident("DataModel"@),
        simple_ident("HybridLogicalClock"@),
        simple_ident("Vec"@),
        simple_ident("bool"@),
        simple_ident("export"@),
{
    reveal_strlit("let");
    reveal_strlit("user_input");
    reveal_strlit("input");
    reveal_strlit("user_output");
    reveal_strlit("match");
    reveal_strlit("Some");
    reveal_strlit("None");
    reveal_strlit("timestamp");
    reveal_strlit("staged");
    reveal_strlit("wit_bindgen");
    reveal_strlit("generate");
    reveal_strlit("world");
    reveal_strlit("path");
    reveal_strlit("struct");
    reveal_strlit("Module");
    reveal_strlit("impl");
    reveal_strlit("exports");
    reveal_strlit("tinykube_graph");
    reveal_strlit("processor");
    reveal_strlit("map");
    reveal_strlit("filter");
    reveal_strlit("branch");
    reveal_strlit("accumulate");
    reveal_strlit("delay");
    reveal_strlit("Guest");
    reveal_strlit("for");
    reveal_strlit("fn");
    reveal_strlit("process");
    reveal_strlit("DataModel");
    reveal_strlit("HybridLogicalClock");
    reveal_strlit("Vec");
    reveal_strlit("bool");
    reveal_strlit("export");
}

/// The name of the processor interface of an operator.
fn interface_ident(kind: OperatorKind) -> (r: &'static str)
    ensures
        r == interface_name(kind),
        simple_ident(r@),
{
    proof {
        lemma_operator_words();
    }
    match kind {
        OperatorKind::Mapping => "map",
        OperatorKind::Filter => "filter",
        OperatorKind::Branch => "branch",
        OperatorKind::Accumulate => "accumulate",
        OperatorKind::Delay => "delay",
    }
}

/// The WIT world of an operator.
fn world_str(kind: OperatorKind) -> (r: &'static str)
    ensures
        r == world_name(kind),
{
    match kind {
        OperatorKind::Mapping => "map-impl",
        OperatorKind::Filter => "filter-impl",
        OperatorKind::Branch => "branch-impl",
        OperatorKind::Accumulate => "accumulate-impl",
        OperatorKind::Delay => "delay-impl",
    }
}

/// `name: ty`
fn push_typed(s: &mut proc_macro2::TokenStream, name: &str, ty: &str)
    requires
        simple_ident(name@),
        simple_ident(ty@),
    ensures
        stream_trees(*final(s)) == stream_trees(*old(s)) + seq![
            TokV::Ident(name@),
            p(':'),
            TokV::Ident(ty@),
        ],
{
    push_ident(s, name);
    push_punct(s, ':', false);
    push_ident(s, ty);
    assert(stream_trees(*s) =~= stream_trees(*old(s)) + seq![
        TokV::Ident(name@),
        p(':'),
        TokV::Ident(ty@),
    ]);
}

/// The parameters of `process`.
fn build_process_params(kind: OperatorKind) -> (r: proc_macro2::TokenStream)
    ensures
        stream_trees(r) == process_params(kind),
{
    proof {
        lemma_operator_words();
    }
    let mut s = stream_new();
    match kind {
        OperatorKind::Mapping | OperatorKind::Filter => {
            push_typed(&mut s, "input", "DataModel");
        },
        OperatorKind::Branch => {
            push_typed(&mut s, "timestamp", "HybridLogicalClock");
            push_punct(&mut s, ',', false);
            push_typed(&mut s, "input", "DataModel");
        },
        OperatorKind::Accumulate => {
            push_typed(&mut s, "staged", "DataModel");
            push_punct(&mut s, ',', false);
            push_typed(&mut s, "input", "Vec");
            push_punct(&mut s, '<', false);
            push_ident(&mut s, "DataModel");
            push_punct(&mut s, '>', false);
        },
        OperatorKind::Delay => {
            push_typed(&mut s, "input", "DataModel");
            push_punct(&mut s, ',', false);
            push_typed(&mut s, "timestamp", "HybridLogicalClock");
        },
    }
    assert(stream_trees(s) =~= process_params(kind));
    s
}

/// The return type of `process`.
fn push_process_return(s: &mut proc_macro2::TokenStream, kind: OperatorKind)
    ensures
        stream_trees(*final(s)) == stream_trees(*old(s)).push(process_return(kind)),
{
    proof {
        lemma_operator_words();
    }
    match kind {
        OperatorKind::Mapping | OperatorKind::Accumulate => push_ident(s, "DataModel"),
        OperatorKind::Filter | OperatorKind::Branch => push_ident(s, "bool"),
        OperatorKind::Delay => push_ident(s, "HybridLogicalClock"),
    }
}

/// The arguments passed on to the user function.
fn build_call_args(kind: OperatorKind, data: &str) -> (r: proc_macro2::TokenStream)
    requires
        simple_ident(data@),
    ensures
        stream_trees(r) == call_args(kind, data),
{
    proof {
        lemma_operator_words();
    }
    let mut s = stream_new();
    match kind {
        OperatorKind::Mapping | OperatorKind::Filter => {
            push_ident(&mut s, data);
        },
        OperatorKind::Branch => {
            push_ident(&mut s, "timestamp");
            push_punct(&mut s, ',', false);
            push_ident(&mut s, data);
        },
        OperatorKind::Accumulate => {
            push_ident(&mut s, "staged");
            push_punct(&mut s, ',', false);
            push_ident(&mut s, data);
        },
        OperatorKind::Delay => {
            push_ident(&mut s, data);
            push_punct(&mut s, ',', false);
            push_ident(&mut s, "timestamp");
        },
    }
    assert(stream_trees(s) =~= call_args(kind, data));
    s
}

/// `let user_input = <decode>(&input);`
fn build_decode_stmt(decode: &proc_macro2::TokenStream) -> (r: proc_macro2::TokenStream)
    ensures
        stream_trees(r) == decode_stmt(stream_trees(*decode)),
{
    proof {
        lemma_operator_words();
    }
    let mut arg = stream_new();
    push_punct(&mut arg, '&', false);
    push_ident(&mut arg, "input");
    assert(stream_trees(arg) =~= seq![p('&'), id("input")]);
    let mut s = stream_new();
    push_ident(&mut s, "let");
    push_ident(&mut s, "user_input");
    push_punct(&mut s, '=', false);
    push_stream(&mut s, stream_clone(decode));
    push_group(&mut s, Delim::Paren, arg);
    push_punct(&mut s, ';', false);
    assert(stream_trees(s) =~= decode_stmt(stream_trees(*decode)));
    s
}

/// `let user_output = <func>(user_input);`
fn build_call_stmt(func: &proc_macro2::TokenStream) -> (r: proc_macro2::TokenStream)
    ensures
        stream_trees(r) == call_stmt(stream_trees(*func)),
{
    proof {
        lemma_operator_words();
    }
    let mut arg = stream_new();
    push_ident(&mut arg, "user_input");
    assert(stream_trees(arg) =~= seq![id("user_input")]);
    let mut s = stream_new();
    push_ident(&mut s, "let");
    push_ident(&mut s, "user_output");
    push_punct(&mut s, '=', false);
    push_stream(&mut s, stream_clone(func));
    push_group(&mut s, Delim::Paren, arg);
    push_punct(&mut s, ';', false);
    assert(stream_trees(s) =~= call_stmt(stream_trees(*func)));
    s
}

/// `<encode>(input, user_output)`
fn build_encode_call(encode: &proc_macro2::TokenStream) -> (r: proc_macro2::TokenStream)
    ensures
        stream_trees(r) == encode_call(stream_trees(*encode)),
{
    proof {
        lemma_operator_words();
    }
    let mut args = stream_new();
    push_ident(&mut args, "input");
    push_punct(&mut args, ',', false);
    push_ident(&mut args, "user_output");
    assert(stream_trees(args) =~= seq![id("input"), p(','), id("user_output")]);
    let mut s = stream_clone(encode);
    push_group(&mut s, Delim::Paren, args);
    assert(stream_trees(s) =~= encode_call(stream_trees(*encode)));
    s
}

/// The body of `process`, as `process_code` says.
pub fn build_process_code(
    kind: OperatorKind,
    plan: ProcessPlan,
    func: &proc_macro2::TokenStream,
    decode: &proc_macro2::TokenStream,
    encode: &proc_macro2::TokenStream,
) -> (r: proc_macro2::TokenStream)
    ensures
        stream_trees(r) == process_code(
            kind,
            plan,
            stream_trees(*func),
            stream_trees(*decode),
            stream_trees(*encode),
        ),
{
    proof {
        lemma_operator_words();
    }
    let ghost f = stream_trees(*func);
    let ghost d = stream_trees(*decode);
    let ghost e = stream_trees(*encode);
    match plan {
        ProcessPlan::Call => {
            let mut s = stream_clone(func);
            push_group(&mut s, Delim::Paren, build_call_args(kind, "input"));
            assert(stream_trees(s) =~= process_code(kind, plan, f, d, e));
            s
        },
        ProcessPlan::DecodeCall => {
            let mut s = build_decode_stmt(decode);
            push_stream(&mut s, stream_clone(func));
            push_group(&mut s, Delim::Paren, build_call_args(kind, "user_input"));
            assert(stream_trees(s) =~= process_code(kind, plan, f, d, e));
            s
        },
        ProcessPlan::DecodeEncode => {
            let mut s = build_decode_stmt(decode);
            push_stream(&mut s, build_call_stmt(func));
            push_stream(&mut s, build_encode_call(encode));
            assert(stream_trees(s) =~= process_code(kind, plan, f, d, e));
            s
        },
        ProcessPlan::DecodeEncodeOptional => {
            let mut some = stream_new();
            push_ident(&mut some, "user_output");
            let mut arms = stream_new();
            push_ident(&mut arms, "Some");
            push_group(&mut arms, Delim::Paren, some);
            push_fat_arrow(&mut arms);
            push_stream(&mut arms, build_encode_call(encode));
            push_punct(&mut arms, ',', false);
            push_ident(&mut arms, "None");
            push_fat_arrow(&mut arms);
            push_ident(&mut arms, "input");
            push_punct(&mut arms, ',', false);
            assert(stream_trees(arms) =~= seq![id("Some"), paren(seq![id("user_output")])]
                + fat_arrow() + encode_call(e) + seq![p(','), id("None")] + fat_arrow() + seq![
                id("input"),
                p(','),
            ]);
            let mut s = build_decode_stmt(decode);
            push_stream(&mut s, build_call_stmt(func));
            push_ident(&mut s, "match");
            push_ident(&mut s, "user_output");
            push_group(&mut s, Delim::Brace, arms);
            assert(stream_trees(s) =~= process_code(kind, plan, f, d, e));
            s
        },
    }
}

/// `wit_bindgen::generate!({ world: <world>, path: <wit>, });` for the
/// single literals `world_lit` and `wit_lit`.
fn build_generate_call(world_lit: proc_macro2::TokenStream, wit_lit: proc_macro2::TokenStream) -> (r:
    proc_macro2::TokenStream)
    requires
        stream_trees(world_lit).len() == 1,
        stream_trees(wit_lit).len() == 1,
    ensures
        stream_trees(r) == generate_call(stream_trees(world_lit)[0], stream_trees(wit_lit)[0]),
{
    proof {
        lemma_operator_words();
    }
    let ghost world = stream_trees(world_lit)[0];
    let ghost wit = stream_trees(wit_lit)[0];
    assert(stream_trees(world_lit) =~= seq![world]);
    assert(stream_trees(wit_lit) =~= seq![wit]);
    let mut fields = stream_new();
    push_ident(&mut fields, "world");
    push_punct(&mut fields, ':', false);
    push_stream(&mut fields, world_lit);
    push_punct(&mut fields, ',', false);
    push_ident(&mut fields, "path");
    push_punct(&mut fields, ':', false);
    push_stream(&mut fields, wit_lit);
    push_punct(&mut fields, ',', false);
    let ghost fields_trees = stream_trees(fields);
    assert(fields_trees =~= seq![
        id("world"),
        p(':'),
        world,
        p(','),
        id("path"),
        p(':'),
        wit,
        p(','),
    ]);
    let mut arg = stream_new();
    push_group(&mut arg, Delim::Brace, fields);
    let mut s = stream_new();
    push_ident(&mut s, "wit_bindgen");
    push_colons(&mut s);
    push_ident(&mut s, "generate");
    push_punct(&mut s, '!', false);
    push_group(&mut s, Delim::Paren, arg);
    push_punct(&mut s, ';', false);
    assert(stream_trees(s) =~= generate_call(world, wit));
    s
}

/// The `Guest` impl of the operator's interface.
fn build_guest_impl(kind: OperatorKind, process: proc_macro2::TokenStream) -> (r:
    proc_macro2::TokenStream)
    ensures
        stream_trees(r) == guest_impl(kind, stream_trees(process)),
{
    proof {
        lemma_operator_words();
    }
    let ghost body = stream_trees(process);
    let mut func = stream_new();
    push_ident(&mut func, "fn");
    push_ident(&mut func, "process");
    push_group(&mut func, Delim::Paren, build_process_params(kind));
    push_arrow(&mut func);
    push_process_return(&mut func, kind);
    push_group(&mut func, Delim::Brace, process);
    let ghost func_trees = stream_trees(func);
    assert(func_trees =~= seq![id("fn"), id("process"), paren(process_params(kind))] + arrow()
        + seq![process_return(kind), brace(body)]);
    let mut s = stream_new();
    push_ident(&mut s, "impl");
    push_ident(&mut s, "exports");
    push_colons(&mut s);
    push_ident(&mut s, "tinykube_graph");
    push_colons(&mut s);
    push_ident(&mut s, "processor");
    push_colons(&mut s);
    push_ident(&mut s, interface_ident(kind));
    push_colons(&mut s);
    push_ident(&mut s, "Guest");
    push_ident(&mut s, "for");
    push_ident(&mut s, "Module");
    push_group(&mut s, Delim::Brace, func);
    assert(stream_trees(s) =~= guest_impl(kind, body));
    s
}

/// The module an operator expands to, as `expansion` says, for the single
/// literals `world_lit` and `wit_lit`.
pub fn build_expansion(
    kind: OperatorKind,
    item: proc_macro2::TokenStream,
    world_lit: proc_macro2::TokenStream,
    wit_lit: proc_macro2::TokenStream,
    process: proc_macro2::TokenStream,
) -> (r: proc_macro2::TokenStream)
    requires
        stream_trees(world_lit).len() == 1,
        stream_trees(wit_lit).len() == 1,
    ensures
        stream_trees(r) == expansion(
            kind,
            stream_trees(item),
            stream_trees(world_lit)[0],
            stream_trees(wit_lit)[0],
            stream_trees(process),
        ),
{
    let ghost world = stream_trees(world_lit)[0];
    let ghost wit = stream_trees(wit_lit)[0];
    proof {
        lemma_operator_words();
    }
    let ghost item_trees = stream_trees(item);
    let ghost body = stream_trees(process);
    let none = stream_new();
    let mut s = item;
    push_stream(&mut s, build_generate_call(world_lit, wit_lit));
    push_stream(&mut s, use_defaults_2(&none));
    push_stream(&mut s, impl_defaults_2(&none));
    push_ident(&mut s, "struct");
    push_ident(&mut s, "Module");
    push_punct(&mut s, ';', false);
    push_stream(&mut s, build_guest_impl(kind, process));
    let mut module = stream_new();
    push_ident(&mut module, "Module");
    push_ident(&mut s, "export");
    push_punct(&mut s, '!', false);
    push_group(&mut s, Delim::Paren, module);
    push_punct(&mut s, ';', false);
    assert(stream_trees(s) =~= expansion(kind, item_trees, world, wit, body));
    s
}

// ---------------------------------------------------------------------------
// The decisions

/// The identifier that an option value makes: one identifier token, the
/// value itself when it is a plain ASCII identifier; none when the value has a
/// character that no identifier has.
fn option_ident(value: &String) -> (r: Option<proc_macro2::TokenStream>)
    ensures
        simple_ident(value@) ==> r is Some,
        r matches Some(s) ==> one_ident(stream_trees(s)) && (simple_ident(value@) ==> stream_trees(s)
            == seq![TokV::Ident(value@)]),
        !ident_shape(value@) ==> r is None,
{
    let text = value.as_str();
    let r = ident_from_lexed(text, lex_ident(text));
    proof {
        if simple_ident(value@) {
            assert forall|i: int| 0 <= i < value@.len() implies crate::syntax::ident_char(
                #[trigger] value@[i],
            ) by {
                assert(crate::tokens::ident_continue(value@[i]));
            }
        }
    }
    r
}

/// The first value of an identifier key, in argument order, that makes no
/// identifier. Only a value that is no plain ASCII identifier can be one; one
/// with a character that no identifier has always is.
pub fn first_invalid_ident(args: &Vec<AttrArg>) -> (r: Option<String>)
    ensures
        r matches Some(v) ==> refusable_ident(attr_args_view(args@), v@),
        misshapen_ident(attr_args_view(args@)) ==> r is Some,
{
    let ghost argv = attr_args_view(args@);
    let key_init = "init".to_owned();
    let key_destroy = "destroy".to_owned();
    let key_encode = "encode".to_owned();
    let key_decode = "decode".to_owned();
    let mut i: usize = 0;
    while i < args.len()
        invariant
            i <= args@.len(),
            argv == attr_args_view(args@),
            argv.len() == args@.len(),
            key_init@ == "init"@,
            key_destroy@ == "destroy"@,
            key_encode@ == "encode"@,
            key_decode@ == "decode"@,
            forall|j: int| 0 <= j < i ==> !misshapen_ident_arg(#[trigger] argv[j]),
        decreases args@.len() - i,
    {
        assert(argv[i as int] == args@[i as int]@);
        match &args[i] {
            AttrArg::NameValue(Some(key), Some(value)) => {
                let is_key = *key == key_init || *key == key_destroy || *key == key_encode || *key
                    == key_decode;
                if is_key {
                    if option_ident(value).is_none() {
                        assert(gives_ident(argv[i as int], value@));
                        return Some(value.clone());
                    }
                }
            },
            _ => {},
        }
        i = i + 1;
    }
    None
}

/// The last value of a key was given to that key by some argument.
proof fn lemma_last_value_given(args: Seq<AttrArgV>, key: Seq<char>)
    requires
        last_value(args, key) is Some,
    ensures
        exists|i: int|
            0 <= i < args.len() && args[i] == AttrArgV::NameValue(Some(key), last_value(args, key)),
    decreases args.len(),
{
    let last = args.last();
    if last matches AttrArgV::NameValue(Some(name), Some(value)) && name == key {
        assert(args[args.len() - 1] == AttrArgV::NameValue(Some(key), last_value(args, key)));
    } else {
        lemma_last_value_given(args.drop_last(), key);
        let i = choose|i: int|
            0 <= i < args.drop_last().len() && args.drop_last()[i] == AttrArgV::NameValue(
                Some(key),
                last_value(args.drop_last(), key),
            );
        assert(args[i] == args.drop_last()[i]);
    }
}

/// The tokens of an optional name: none without a name, the identifier it
/// makes for a name that makes one; `None` for a name that makes none, which
/// is then no plain ASCII identifier.
fn optional_ident(name: &Option<String>) -> (r: Option<proc_macro2::TokenStream>)
    ensures
        r matches Some(t) ==> name_tokens(crate::options::opt_view(*name), stream_trees(t)),
        r is None ==> (name matches Some(v) && !simple_ident(v@)),
{
    match name {
        Some(v) => option_ident(v),
        None => Some(stream_new()),
    }
}

/// Whether the user function returns an `Option`, or why that cannot be read.
fn check_returns_option(input: &OperatorInput) -> (r: Result<bool, OperatorError>)
    ensures
        match r {
            Ok(b) => returns_option(input.func@) == Ok::<bool, OperatorErrorV>(b),
            Err(e) => returns_option(input.func@) == Err::<bool, OperatorErrorV>(e@),
        },
{
    if input.func.output.is_none() {
        return Err(OperatorError::MissingReturnType);
    }
    match input.output_type_is_option() {
        Some(b) => Ok(b),
        None => Err(OperatorError::UnreadableReturnType),
    }
}

/// The plan for `process`, as `operator_plan` says.
pub fn choose_plan(kind: OperatorKind, options: &Options, input: &OperatorInput) -> (r: Result<
    ProcessPlan,
    OperatorError,
>)
    ensures
        match r {
            Ok(plan) => operator_plan(
                kind,
                options.decode is Some,
                options.encode is Some,
                input.func@,
            ) == Ok::<ProcessPlan, OperatorErrorV>(plan),
            Err(e) => operator_plan(
                kind,
                options.decode is Some,
                options.encode is Some,
                input.func@,
            ) == Err::<ProcessPlan, OperatorErrorV>(e@),
        },
{
    let decode = options.decode.is_some();
    let encode = options.encode.is_some();
    if !decode && !encode {
        return Ok(ProcessPlan::Call);
    }
    match kind {
        OperatorKind::Mapping => {
            if decode && encode {
                match check_returns_option(input) {
                    Ok(true) => Ok(ProcessPlan::DecodeEncodeOptional),
                    Ok(false) => Ok(ProcessPlan::DecodeEncode),
                    Err(e) => Err(e),
                }
            } else {
                Err(OperatorError::UnsupportedSettings)
            }
        },
        OperatorKind::Filter | OperatorKind::Branch => {
            if decode && !encode {
                Ok(ProcessPlan::DecodeCall)
            } else {
                Err(OperatorError::UnsupportedSettings)
            }
        },
        _ => Err(OperatorError::UnsupportedSettings),
    }
}

/// Expands an operator attribute with arguments `attr` on the function
/// `item`, as `operator_outcome` says: parse errors come out as their
/// `compile_error!` tokens, refused settings as an error.
pub fn operator(
    kind: OperatorKind,
    attr: &proc_macro2::TokenStream,
    item: &proc_macro2::TokenStream,
    default_wit: &str,
) -> (r: Result<proc_macro2::TokenStream, OperatorError>)
    ensures
        operator_outcome(kind, stream_trees(*attr), stream_trees(*item), default_wit@, result_view(r)),
{
    let args = match parse_attr_args(attr) {
        Ok(args) => args,
        Err(e) => return Ok(e),
    };
    let input = match OperatorInput::parse(item) {
        Ok(input) => input,
        Err(e) => return Ok(e),
    };
    let ghost argv = attr_args_view(args@);
    match first_invalid_ident(&args) {
        Some(v) => return Err(OperatorError::InvalidIdent(v)),
        None => {},
    }
    let options = get_options(&args, &input, default_wit);
    let decode = match optional_ident(&options.decode) {
        Some(t) => t,
        None => {
            let v = options.decode.unwrap();
            proof {
                lemma_last_value_given(argv, "decode"@);
                let i = choose|i: int|
                    0 <= i < argv.len() && argv[i] == AttrArgV::NameValue(
                        Some("decode"@),
                        last_value(argv, "decode"@),
                    );
                assert(gives_ident(argv[i], v@));
            }
            return Err(OperatorError::InvalidIdent(v));
        },
    };
    let encode = match optional_ident(&options.encode) {
        Some(t) => t,
        None => {
            let v = options.encode.unwrap();
            proof {
                lemma_last_value_given(argv, "encode"@);
                let i = choose|i: int|
                    0 <= i < argv.len() && argv[i] == AttrArgV::NameValue(
                        Some("encode"@),
                        last_value(argv, "encode"@),
                    );
                assert(gives_ident(argv[i], v@));
            }
            return Err(OperatorError::InvalidIdent(v));
        },
    };
    let plan = match choose_plan(kind, &options, &input) {
        Ok(plan) => plan,
        Err(e) => return Err(e),
    };
    let process = build_process_code(kind, plan, &input.func.name, &decode, &encode);
    let world_lit = string_literal_stream(world_str(kind));
    let wit_lit = string_literal_stream(options.wit_path.as_str());
    let ghost world = stream_trees(world_lit)[0];
    let ghost wit = stream_trees(wit_lit)[0];
    let OperatorInput { func } = input;
    let r = build_expansion(kind, func.item, world_lit, wit_lit, process);
    assert(is_str_lit(world, world_name(kind)@));
    assert(is_str_lit(wit, options@.wit_path));
    assert(name_tokens(options@.decode, stream_trees(decode)));
    assert(name_tokens(options@.encode, stream_trees(encode)));
    Ok(r)
}

/// `#[map_operator]`: wraps `fn f(input: DataModel) -> DataModel` (or, with
/// `decode` and `encode`, a function on the user's types) into a module that
/// exports the `map` interface.
pub fn map_operator(
    attr: &proc_macro2::TokenStream,
    item: &proc_macro2::TokenStream,
    default_wit: &str,
) -> (r: Result<proc_macro2::TokenStream, OperatorError>)
    ensures
        operator_outcome(OperatorKind::Mapping, stream_trees(*attr), stream_trees(*item), default_wit@, result_view(r)),
{
    operator(OperatorKind::Mapping, attr, item, default_wit)
}

/// `#[filter_operator]`: wraps `fn f(input: DataModel) -> bool` (or, with
/// `decode`, a predicate on the user's type) into a module that exports the
/// `filter` interface.
pub fn filter_operator(
    attr: &proc_macro2::TokenStream,
    item: &proc_macro2::TokenStream,
    default_wit: &str,
) -> (r: Result<proc_macro2::TokenStream, OperatorError>)
    ensures
        operator_outcome(OperatorKind::Filter, stream_trees(*attr), stream_trees(*item), default_wit@, result_view(r)),
{
    operator(OperatorKind::Filter, attr, item, default_wit)
}

/// `#[branch_operator]`: wraps `fn f(timestamp: HybridLogicalClock, input:
/// DataModel) -> bool` (or, with `decode`, one on the user's type) into a
/// module that exports the `branch` interface.
pub fn branch_operator(
    attr: &proc_macro2::TokenStream,
    item: &proc_macro2::TokenStream,
    default_wit: &str,
) -> (r: Result<proc_macro2::TokenStream, OperatorError>)
    ensures
        operator_outcome(OperatorKind::Branch, stream_trees(*attr), stream_trees(*item), default_wit@, result_view(r)),
{
    operator(OperatorKind::Branch, attr, item, default_wit)
}

/// `#[accumulate_operator]`: wraps `fn f(staged: DataModel, input:
/// Vec<DataModel>) -> DataModel` into a module that exports the `accumulate`
/// interface.
pub fn accumulate_operator(
    attr: &proc_macro2::TokenStream,
    item: &proc_macro2::TokenStream,
    default_wit: &str,
) -> (r: Result<proc_macro2::TokenStream, OperatorError>)
    ensures
        operator_outcome(OperatorKind::Accumulate, stream_trees(*attr), stream_trees(*item), default_wit@, result_view(r)),
{
    operator(OperatorKind::Accumulate, attr, item, default_wit)
}

/// `#[delay_operator]`: wraps `fn f(input: DataModel, timestamp:
/// HybridLogicalClock) -> HybridLogicalClock` into a module that exports the
/// `delay` interface.
pub fn delay_operator(
    attr: &proc_macro2::TokenStream,
    item: &proc_macro2::TokenStream,
    default_wit: &str,
) -> (r: Result<proc_macro2::TokenStream, OperatorError>)
    ensures
        operator_outcome(OperatorKind::Delay, stream_trees(*attr), stream_trees(*item), default_wit@, result_view(r)),
{
    operator(OperatorKind::Delay, attr, item, default_wit)
}

// ---------------------------------------------------------------------------
// Laws

/// Every operator takes a plain function: without `decode` and `encode` the
/// user function is called as it is.
pub proof fn law_plain_function_is_called(kind: OperatorKind, f: FnSigV)
    ensures
        operator_plan(kind, false, false, f) == Ok::<ProcessPlan, OperatorErrorV>(ProcessPlan::Call),
{
}

/// `accumulate` and `delay` take neither `decode` nor `encode`; `filter` and
/// `branch` take no `encode`; `map` takes `decode` and `encode` only together.
pub proof fn law_refused_settings(kind: OperatorKind, decode: bool, encode: bool, f: FnSigV)
    requires
        decode || encode,
        match kind {
            OperatorKind::Mapping => decode != encode,
            OperatorKind::Filter | OperatorKind::Branch => encode,
            _ => true,
        },
    ensures
        operator_plan(kind, decode, encode, f) == Err::<ProcessPlan, OperatorErrorV>(
            OperatorErrorV::UnsupportedSettings,
        ),
{
}

/// The module starts with the user function as `syn` prints it and ends with
/// `export!(Module);`.
pub proof fn law_expansion_frame(
    kind: OperatorKind,
    item: Seq<TokV>,
    world: TokV,
    wit: TokV,
    process: Seq<TokV>,
)
    ensures
        expansion(kind, item, world, wit, process).take(item.len() as int) == item,
        expansion(kind, item, world, wit, process).subrange(
            expansion(kind, item, world, wit, process).len() - 4,
            expansion(kind, item, world, wit, process).len() as int,
        ) == seq![id("export"), p('!'), paren(seq![id("Module")]), p(';')],
{
    let e = expansion(kind, item, world, wit, process);
    assert(e.take(item.len() as int) =~= item);
    assert(e.subrange(e.len() - 4, e.len() as int) =~= seq![
        id("export"),
        p('!'),
        paren(seq![id("Module")]),
        p(';'),
    ]);
}

/// An argument appended after the others that gives no identifier key
/// anything but a plain ASCII identifier leaves the refusable and the
/// misshapen identifier values as they were.
proof fn lemma_plain_arg_push(args: Seq<AttrArgV>, arg: AttrArgV)
    requires
        forall|v: Seq<char>| gives_ident(arg, v) ==> simple_ident(v),
    ensures
        forall|v: Seq<char>| refusable_ident(args.push(arg), v) == refusable_ident(args, v),
        misshapen_ident(args.push(arg)) == misshapen_ident(args),
{
    let longer = args.push(arg);
    assert forall|v: Seq<char>| refusable_ident(longer, v) == refusable_ident(args, v) by {
        if refusable_ident(longer, v) {
            let i = choose|i: int| 0 <= i < longer.len() && #[trigger] gives_ident(longer[i], v);
            if i < args.len() {
                assert(longer[i] == args[i]);
                assert(gives_ident(args[i], v));
            }
        }
        if refusable_ident(args, v) {
            let i = choose|i: int| 0 <= i < args.len() && #[trigger] gives_ident(args[i], v);
            assert(longer[i] == args[i]);
            assert(gives_ident(longer[i], v));
        }
    }
    if misshapen_ident(longer) {
        let i = choose|i: int| 0 <= i < longer.len() && #[trigger] misshapen_ident_arg(longer[i]);
        if i < args.len() {
            assert(longer[i] == args[i]);
            assert(misshapen_ident_arg(args[i]));
        } else {
            assert(longer[i] == arg);
            match arg {
                AttrArgV::NameValue(Some(k), Some(v)) => {
                    assert(gives_ident(arg, v));
                    assert(simple_ident(v));
                    assert forall|j: int| 0 <= j < v.len() implies crate::syntax::ident_char(
                        #[trigger] v[j],
                    ) by {
                        assert(crate::tokens::ident_continue(v[j]));
                    }
                },
                _ => {},
            }
        }
    }
    if misshapen_ident(args) {
        let i = choose|i: int| 0 <= i < args.len() && #[trigger] misshapen_ident_arg(args[i]);
        assert(longer[i] == args[i]);
        assert(misshapen_ident_arg(longer[i]));
    }
}

proof fn lemma_option_keys_differ()
    ensures
        "init"@ != "decode"@,
        "init"@ != "encode"@,
        "init"@ != "wit"@,
        "destroy"@ != "decode"@,
        "destroy"@ != "encode"@,
        "destroy"@ != "wit"@,
        "wit"@ != "decode"@,
        "wit"@ != "encode"@,
        "wit"@ != "init"@,
        "wit"@ != "destroy"@,
        !ident_key("wit"@),
{
    reveal_strlit("init");
    reveal_strlit("destroy");
    reveal_strlit("decode");
    reveal_strlit("encode");
    reveal_strlit("wit");
    assert("init"@.len() != "decode"@.len());
    assert("init"@.len() != "encode"@.len());
    assert("init"@.len() != "wit"@.len());
    assert("destroy"@.len() != "decode"@.len());
    assert("destroy"@.len() != "encode"@.len());
    assert("destroy"@.len() != "wit"@.len());
    assert("wit"@.len() != "decode"@.len());
    assert("wit"@.len() != "encode"@.len());
}

/// `init` and `destroy` arguments with identifier values do not change what
/// an operator generates: the lifecycle hooks are read but not used.
pub proof fn law_lifecycle_options_change_nothing(
    kind: OperatorKind,
    args: Seq<AttrArgV>,
    f: FnSigV,
    default_wit: Seq<char>,
    key: Seq<char>,
    value: Seq<char>,
    r: Result<Seq<TokV>, OperatorErrorV>,
)
    requires
        key == "init"@ || key == "destroy"@,
        simple_ident(value),
    ensures
        args_outcome(kind, args.push(AttrArgV::NameValue(Some(key), Some(value))), f, default_wit, r)
            == args_outcome(kind, args, f, default_wit, r),
{
    let arg = AttrArgV::NameValue(Some(key), Some(value));
    lemma_option_keys_differ();
    lemma_plain_arg_push(args, arg);
    crate::options::law_other_arguments_leave_option(args, arg, "decode"@);
    crate::options::law_other_arguments_leave_option(args, arg, "encode"@);
    crate::options::law_other_arguments_leave_option(args, arg, "wit"@);
}

/// A `wit = "<w>"` argument, where none was given before, does what the
/// default path `w` does: it sets the WIT path literal of the module and
/// nothing else.
pub proof fn law_wit_argument_sets_the_path(
    kind: OperatorKind,
    args: Seq<AttrArgV>,
    f: FnSigV,
    default_wit: Seq<char>,
    w: Seq<char>,
    r: Result<Seq<TokV>, OperatorErrorV>,
)
    requires
        last_value(args, "wit"@) is None,
    ensures
        args_outcome(kind, args.push(AttrArgV::NameValue(Some("wit"@), Some(w))), f, default_wit, r)
            == args_outcome(kind, args, f, w, r),
{
    let arg = AttrArgV::NameValue(Some("wit"@), Some(w));
    lemma_option_keys_differ();
    lemma_plain_arg_push(args, arg);
    crate::options::law_other_arguments_leave_option(args, arg, "decode"@);
    crate::options::law_other_arguments_leave_option(args, arg, "encode"@);
    crate::options::law_other_arguments_leave_option(args, arg, "init"@);
    crate::options::law_other_arguments_leave_option(args, arg, "destroy"@);
    crate::options::law_last_option_wins(args, "wit"@, w);
}

/// With `decode` and `encode`, a `map` function that returns an `Option`
/// passes the input on unchanged on `None`; any other return type is encoded
/// as it is.
pub proof fn law_map_option_output(f: FnSigV)
    ensures
        returns_option(f) == Ok::<bool, OperatorErrorV>(true) ==> operator_plan(
            OperatorKind::Mapping,
            true,
            true,
            f,
        ) == Ok::<ProcessPlan, OperatorErrorV>(ProcessPlan::DecodeEncodeOptional),
        returns_option(f) == Ok::<bool, OperatorErrorV>(false) ==> operator_plan(
            OperatorKind::Mapping,
            true,
            true,
            f,
        ) == Ok::<ProcessPlan, OperatorErrorV>(ProcessPlan::DecodeEncode),
{
}

/// The name of the processor interface that each operator is for: the
/// attribute `#[<name>_operator]` exports `<name>`.
pub open spec fn operator_interface(kind: OperatorKind) -> Seq<char> {
    match kind {
        OperatorKind::Mapping => seq!['m', 'a', 'p'],
        OperatorKind::Filter => seq!['f', 'i', 'l', 't', 'e', 'r'],
        OperatorKind::Branch => seq!['b', 'r', 'a', 'n', 'c', 'h'],
        OperatorKind::Accumulate => seq!['a', 'c', 'c', 'u', 'm', 'u', 'l', 'a', 't', 'e'],
        OperatorKind::Delay => seq!['d', 'e', 'l', 'a', 'y'],
    }
}

/// The world of the processor interface that an operator is for:
/// `<interface>-impl`.
pub open spec fn operator_world(kind: OperatorKind) -> Seq<char> {
    operator_interface(kind) + seq!['-', 'i', 'm', 'p', 'l']
}

/// The world that an operator generates is the `<interface>-impl` world of
/// the interface its module exports, and that interface is the one the
/// operator is named after.
pub proof fn law_world_matches_interface(kind: OperatorKind)
    ensures
        interface_name(kind)@ == operator_interface(kind),
        world_name(kind)@ == operator_world(kind),
{
    reveal_strlit("map");
    reveal_strlit("filter");
    reveal_strlit("branch");
    reveal_strlit("accumulate");
    reveal_strlit("delay");
    reveal_strlit("map-impl");
    reveal_strlit("filter-impl");
    reveal_strlit("branch-impl");
    reveal_strlit("accumulate-impl");
    reveal_strlit("delay-impl");
    assert(world_name(kind)@ =~= operator_world(kind));
    assert(interface_name(kind)@ =~= operator_interface(kind));
}

/// Every module an operator generates, whatever its kind and options, starts
/// with the user function, then binds its world with
/// `wit_bindgen::generate!({ world: "<interface>-impl", path: "<wit>", });`,
/// where `<wit>` is the WIT path the arguments resolve to (the last
/// `wit = "..."`, else the default), and exports that interface with
/// `impl exports::tinykube_graph::processor::<interface>::Guest for Module`,
/// just before the closing `export!(Module);`.
pub proof fn law_module_binds_and_exports_its_world(
    kind: OperatorKind,
    attr: Seq<TokV>,
    item: Seq<TokV>,
    default_wit: Seq<char>,
    args: Seq<AttrArgV>,
    f: FnSigV,
    out: Seq<TokV>,
)
    requires
        attr_args_parse(attr) == Ok::<Seq<AttrArgV>, Seq<TokV>>(args),
        fn_parse(item) == Ok::<FnSigV, Seq<TokV>>(f),
        operator_outcome(kind, attr, item, default_wit, Ok::<Seq<TokV>, OperatorErrorV>(out)),
    ensures
        out.take(f.item.len() as int) == f.item,
        exists|world: TokV, wit: TokV|
            #![trigger is_str_lit(world, operator_world(kind)), is_str_lit(wit, options_of(args, default_wit).wit_path)]
            is_str_lit(world, operator_world(kind))
                && is_str_lit(wit, options_of(args, default_wit).wit_path) && out.subrange(
                f.item.len() as int,
                f.item.len() + 7int,
            ) == seq![
                TokV::Ident(seq!['w', 'i', 't', '_', 'b', 'i', 'n', 'd', 'g', 'e', 'n']),
                TokV::Punct(':', true),
                TokV::Punct(':', false),
                TokV::Ident(seq!['g', 'e', 'n', 'e', 'r', 'a', 't', 'e']),
                TokV::Punct('!', false),
                TokV::Group(
                    Delim::Paren,
                    seq![
                        TokV::Group(
                            Delim::Brace,
                            seq![
                                TokV::Ident(seq!['w', 'o', 'r', 'l', 'd']),
                                TokV::Punct(':', false),
                                world,
                                TokV::Punct(',', false),
                                TokV::Ident(seq!['p', 'a', 't', 'h']),
                                TokV::Punct(':', false),
                                wit,
                                TokV::Punct(',', false),
                            ],
                        ),
                    ],
                ),
                TokV::Punct(';', false),
            ],
        out.len() >= f.item.len() + 28,
        out.subrange(out.len() - 21, out.len() - 5) == seq![
            TokV::Ident(seq!['i', 'm', 'p', 'l']),
            TokV::Ident(seq!['e', 'x', 'p', 'o', 'r', 't', 's']),
            TokV::Punct(':', true),
            TokV::Punct(':', false),
            TokV::Ident(seq!['t', 'i', 'n', 'y', 'k', 'u', 'b', 'e', '_', 'g', 'r', 'a', 'p', 'h']),
            TokV::Punct(':', true),
            TokV::Punct(':', false),
            TokV::Ident(seq!['p', 'r', 'o', 'c', 'e', 's', 's', 'o', 'r']),
            TokV::Punct(':', true),
            TokV::Punct(':', false),
            TokV::Ident(operator_interface(kind)),
            TokV::Punct(':', true),
            TokV::Punct(':', false),
            TokV::Ident(seq!['G', 'u', 'e', 's', 't']),
            TokV::Ident(seq!['f', 'o', 'r']),
            TokV::Ident(seq!['M', 'o', 'd', 'u', 'l', 'e']),
        ],
{
    law_world_matches_interface(kind);
    let opts = options_of(args, default_wit);
    let plan = operator_plan(kind, opts.decode is Some, opts.encode is Some, f)->Ok_0;
    let (world, wit, dec, enc) = choose|world: TokV, wit: TokV, dec: Seq<TokV>, enc: Seq<TokV>|
        #![trigger is_str_lit(world, world_name(kind)@), is_str_lit(wit, opts.wit_path), name_tokens(opts.decode, dec), name_tokens(opts.encode, enc)]
        is_str_lit(world, world_name(kind)@) && is_str_lit(wit, opts.wit_path) && name_tokens(
            opts.decode,
            dec,
        ) && name_tokens(opts.encode, enc) && out == expansion(
            kind,
            f.item,
            world,
            wit,
            process_code(kind, plan, f.name, dec, enc),
        );
    let process = process_code(kind, plan, f.name, dec, enc);
    reveal_strlit("wit_bindgen");
    reveal_strlit("generate");
    reveal_strlit("world");
    reveal_strlit("path");
    reveal_strlit("impl");
    reveal_strlit("exports");
    reveal_strlit("tinykube_graph");
    reveal_strlit("processor");
    reveal_strlit("Guest");
    reveal_strlit("for");
    reveal_strlit("Module");
    assert("wit_bindgen"@ =~= seq!['w', 'i', 't', '_', 'b', 'i', 'n', 'd', 'g', 'e', 'n']);
    assert("generate"@ =~= seq!['g', 'e', 'n', 'e', 'r', 'a', 't', 'e']);
    assert("world"@ =~= seq!['w', 'o', 'r', 'l', 'd']);
    assert("path"@ =~= seq!['p', 'a', 't', 'h']);
    assert("impl"@ =~= seq!['i', 'm', 'p', 'l']);
    assert("exports"@ =~= seq!['e', 'x', 'p', 'o', 'r', 't', 's']);
    assert("tinykube_graph"@ =~= seq!['t', 'i', 'n', 'y', 'k', 'u', 'b', 'e', '_', 'g', 'r', 'a', 'p', 'h']);
    assert("processor"@ =~= seq!['p', 'r', 'o', 'c', 'e', 's', 's', 'o', 'r']);
    assert("Guest"@ =~= seq!['G', 'u', 'e', 's', 't']);
    assert("for"@ =~= seq!['f', 'o', 'r']);
    assert("Module"@ =~= seq!['M', 'o', 'd', 'u', 'l', 'e']);
    let n = f.item.len() as int;
    let head = f.item + generate_call(world, wit);
    let tail = guest_impl(kind, process) + seq![id("export"), p('!'), paren(seq![id("Module")]), p(';')];
    let mid = use_defaults_spec() + impl_defaults_spec() + seq![id("struct"), id("Module"), p(';')];
    assert(out =~= head + mid + tail);
    assert(out.take(n) =~= f.item);
    assert(out.subrange(n, n + 7) =~= generate_call(world, wit));
    assert(out.subrange(out.len() - 21, out.len() - 5) =~= guest_impl(kind, process).take(16));
    assert(is_str_lit(world, operator_world(kind)));
    assert(is_str_lit(wit, options_of(args, default_wit).wit_path));
}

} // verus!
