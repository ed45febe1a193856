//! The `use` items and `impl` blocks that every operator module gets, and the
//! macros that emit each of the `impl` blocks on its own.
use crate::tokens::{
    arrow, brace, colons, fat_arrow, id, p, paren, push_arrow, push_colons, push_fat_arrow,
    push_group, push_ident, push_punct, push_stream, simple_ident, stream_new, stream_trees, Delim,
    TokV,
};
use vstd::prelude::*;

verus! {

/// Every identifier that the templates of this crate emit is one that
/// `proc_macro2::Ident::new` accepts.
pub proof fn lemma_template_words()
    ensures
        simple_ident("use"@),
        simple_ident("std"@),
        simple_ident("time"@),
        simple_ident("Duration"@),
        simple_ident("tinykube_graph"@),
        simple_ident("processor"@),
        simple_ident("types"@),
        simple_ident("hybrid_logical_clock"@),
        simple_ident("HybridLogicalClock"@),
        simple_ident("impl"@),
        simple_ident("From"@),
        simple_ident("Timespec"@),
        simple_ident("for"@),
        simple_ident("fn"@),
        simple_ident("from"@),
        simple_ident("timespec"@),
        simple_ident("Self"@),
        simple_ident("new"@),
        simple_ident("secs"@),
        simple_ident("as"@),
        simple_ident("u64"@),
        simple_ident("nanos"@),
        simple_ident("u32"@),
        simple_ident("duration"@),
        simple_ident("as_secs"@),
        simple_ident("subsec_nanos"@),
        simple_ident("Timestamp"@),
        simple_ident("timestamp"@),
        simple_ident("counter"@),
        simple_ident("node_id"@),
        simple_ident("into"@),
        simple_ident("BufferOrString"@),
        simple_ident("String"@),
        simple_ident("buffer_or_string"@),
        simple_ident("match"@),
        simple_ident("Buffer"@),
        simple_ident("buffer"@),
        simple_ident("from_utf8"@),
        simple_ident("read"@),
        simple_ident("unwrap"@),
        simple_ident("string"@),
        simple_ident("BufferOrBytes"@),
        simple_ident("pub"@),
        simple_ident("self"@),
        simple_ident("Vec"@),
        simple_ident("u8"@),
        simple_ident("Bytes"@),
        simple_ident("bytes"@),
        simple_ident("clone"@),
        simple_ident("hybrid_logical_clock_default"@),
{
    reveal_strlit("use");
    reveal_strlit("std");
    reveal_strlit("time");
    reveal_strlit("Duration");
    reveal_strlit("tinykube_graph");
    reveal_strlit("processor");
    reveal_strlit("types");
    reveal_strlit("hybrid_logical_clock");
    reveal_strlit("HybridLogicalClock");
    reveal_strlit("impl");
    reveal_strlit("From");
    reveal_strlit("Timespec");
    reveal_strlit("for");
    reveal_strlit("fn");
    reveal_strlit("from");
    reveal_strlit("timespec");
    reveal_strlit("Self");
    reveal_strlit("new");
    reveal_strlit("secs");
    reveal_strlit("as");
    reveal_strlit("u64");
    reveal_strlit("nanos");
    reveal_strlit("u32");
    reveal_strlit("duration");
    reveal_strlit("as_secs");
    reveal_strlit("subsec_nanos");
    reveal_strlit("Timestamp");
    reveal_strlit("timestamp");
    reveal_strlit("counter");
    reveal_strlit("node_id");
    reveal_strlit("into");
    reveal_strlit("BufferOrString");
    reveal_strlit("String");
    reveal_strlit("buffer_or_string");
    reveal_strlit("match");
    reveal_strlit("Buffer");
    reveal_strlit("buffer");
    reveal_strlit("from_utf8");
    reveal_strlit("read");
    reveal_strlit("unwrap");
    reveal_strlit("string");
    reveal_strlit("BufferOrBytes");
    reveal_strlit("pub");
    reveal_strlit("self");
    reveal_strlit("Vec");
    reveal_strlit("u8");
    reveal_strlit("Bytes");
    reveal_strlit("bytes");
    reveal_strlit("clone");
    reveal_strlit("hybrid_logical_clock_default");
}

// ---------------------------------------------------------------------------
// The templates

/// `use std::time::Duration;`
/// `use tinykube_graph::processor::types::*;`
/// `use tinykube_graph::processor::hybrid_logical_clock::HybridLogicalClock;`
pub open spec fn use_defaults_spec() -> Seq<TokV> {
    seq![id("use"), id("std")] + colons() + seq![id("time")] + colons() + seq![
        id("Duration"),
        p(';'),
        id("use"),
        id("tinykube_graph"),
    ] + colons() + seq![id("processor")] + colons() + seq![id("types")] + colons() + seq![
        p('*'),
        p(';'),
        id("use"),
        id("tinykube_graph"),
    ] + colons() + seq![id("processor")] + colons() + seq![id("hybrid_logical_clock")] + colons()
        + seq![id("HybridLogicalClock"), p(';')]
}

/// `impl From<Src> for Dst { fn from(var: Src) -> Self { body } }`
pub open spec fn from_impl(src: &str, dst: &str, var: &str, body: Seq<TokV>) -> Seq<TokV> {
    seq![
        id("impl"),
        id("From"),
        p('<'),
        id(src),
        p('>'),
        id("for"),
        id(dst),
        brace(
            seq![id("fn"), id("from"), paren(seq![id(var), p(':'), id(src)])] + arrow() + seq![
                id("Self"),
                brace(body),
            ],
        ),
    ]
}

/// `Duration::new(timespec.secs as u64, timespec.nanos as u32)`
pub open spec fn timespec_to_duration_body() -> Seq<TokV> {
    seq![id("Duration")] + colons() + seq![
        id("new"),
        paren(
            seq![
                id("timespec"),
                p('.'),
                id("secs"),
                id("as"),
                id("u64"),
                p(','),
                id("timespec"),
                p('.'),
                id("nanos"),
                id("as"),
                id("u32"),
            ],
        ),
    ]
}

/// `Timespec { secs: duration.as_secs() as u64, nanos: duration.subsec_nanos() as u32, }`
pub open spec fn duration_to_timespec_body() -> Seq<TokV> {
    seq![
        id("Timespec"),
        brace(
            seq![
                id("secs"),
                p(':'),
                id("duration"),
                p('.'),
                id("as_secs"),
                paren(Seq::empty()),
                id("as"),
                id("u64"),
                p(','),
                id("nanos"),
                p(':'),
                id("duration"),
                p('.'),
                id("subsec_nanos"),
                paren(Seq::empty()),
                id("as"),
                id("u32"),
                p(','),
            ],
        ),
    ]
}

/// `impl From<Timespec> for Duration` and `impl From<Duration> for Timespec`.
pub open spec fn timespec_to_duration_spec() -> Seq<TokV> {
    from_impl("Timespec", "Duration", "timespec", timespec_to_duration_body()) + from_impl(
        "Duration",
        "Timespec",
        "duration",
        duration_to_timespec_body(),
    )
}

/// `HybridLogicalClock { timestamp: timestamp.timestamp, counter: timestamp.counter,
/// node_id: timestamp.node_id.into(), }`
pub open spec fn timestamp_to_clock_body() -> Seq<TokV> {
    seq![
        id("HybridLogicalClock"),
        brace(
            seq![
                id("timestamp"),
                p(':'),
                id("timestamp"),
                p('.'),
                id("timestamp"),
                p(','),
                id("counter"),
                p(':'),
                id("timestamp"),
                p('.'),
                id("counter"),
                p(','),
                id("node_id"),
                p(':'),
                id("timestamp"),
                p('.'),
                id("node_id"),
                p('.'),
                id("into"),
                paren(Seq::empty()),
                p(','),
            ],
        ),
    ]
}

/// `impl From<Timestamp> for HybridLogicalClock`.
pub open spec fn timestamp_to_clock_spec() -> Seq<TokV> {
    from_impl("Timestamp", "HybridLogicalClock", "timestamp", timestamp_to_clock_body())
}

/// `match buffer_or_string { BufferOrString::Buffer(buffer) =>
/// String::from_utf8(buffer.read()).unwrap(), BufferOrString::String(string) => string, }`
pub open spec fn buffer_or_string_body() -> Seq<TokV> {
    seq![
        id("match"),
        id("buffer_or_string"),
        brace(
            seq![id("BufferOrString")] + colons() + seq![id("Buffer"), paren(seq![id("buffer")])]
                + fat_arrow() + seq![id("String")] + colons() + seq![
                id("from_utf8"),
                paren(seq![id("buffer"), p('.'), id("read"), paren(Seq::empty())]),
                p('.'),
                id("unwrap"),
                paren(Seq::empty()),
                p(','),
                id("BufferOrString"),
            ] + colons() + seq![id("String"), paren(seq![id("string")])] + fat_arrow() + seq![
                id("string"),
                p(','),
            ],
        ),
    ]
}

/// `impl From<BufferOrString> for String`.
pub open spec fn buffer_or_string_spec() -> Seq<TokV> {
    from_impl("BufferOrString", "String", "buffer_or_string", buffer_or_string_body())
}

/// `match self { BufferOrBytes::Buffer(buffer) => buffer.read(),
/// BufferOrBytes::Bytes(bytes) => bytes.clone(), }`
pub open spec fn buffer_or_bytes_body() -> Seq<TokV> {
    seq![
        id("match"),
        id("self"),
        brace(
            seq![id("BufferOrBytes")] + colons() + seq![id("Buffer"), paren(seq![id("buffer")])]
                + fat_arrow() + seq![
                id("buffer"),
                p('.'),
                id("read"),
                paren(Seq::empty()),
                p(','),
                id("BufferOrBytes"),
            ] + colons() + seq![id("Bytes"), paren(seq![id("bytes")])] + fat_arrow() + seq![
                id("bytes"),
                p('.'),
                id("clone"),
                paren(Seq::empty()),
                p(','),
            ],
        ),
    ]
}

/// `impl BufferOrBytes { pub fn read(&self) -> Vec<u8> { ... } }`
pub open spec fn buffer_or_bytes_spec() -> Seq<TokV> {
    seq![
        id("impl"),
        id("BufferOrBytes"),
        brace(
            seq![id("pub"), id("fn"), id("read"), paren(seq![p('&'), id("self")])] + arrow() + seq![
                id("Vec"),
                p('<'),
                id("u8"),
                p('>'),
                brace(buffer_or_bytes_body()),
            ],
        ),
    ]
}

/// `impl HybridLogicalClock { pub fn new() -> Self { hybrid_logical_clock_default() } }`
pub open spec fn hybrid_logical_clock_spec() -> Seq<TokV> {
    seq![
        id("impl"),
        id("HybridLogicalClock"),
        brace(
            seq![id("pub"), id("fn"), id("new"), paren(Seq::empty())] + arrow() + seq![
                id("Self"),
                brace(seq![id("hybrid_logical_clock_default"), paren(Seq::empty())]),
            ],
        ),
    ]
}

/// The `impl` blocks that every operator module gets, in this order:
/// `BufferOrBytes::read`, `BufferOrString` to `String`, `Timestamp` to
/// `HybridLogicalClock`, and `Timespec` to and from `Duration`.
pub open spec fn impl_defaults_spec() -> Seq<TokV> {
    buffer_or_bytes_spec() + buffer_or_string_spec() + timestamp_to_clock_spec()
        + timespec_to_duration_spec()
}

// ---------------------------------------------------------------------------
// Building the templates

/// `a::`
fn push_segment(s: &mut proc_macro2::TokenStream, name: &str)
    requires
        simple_ident(name@),
    ensures
        stream_trees(*final(s)) == stream_trees(*old(s)) + seq![TokV::Ident(name@)] + colons(),
{
    push_ident(s, name);
    push_colons(s);
    assert(stream_trees(*s) =~= stream_trees(*old(s)) + seq![TokV::Ident(name@)] + colons());
}

/// The `use` items of `use_defaults_spec`.
pub fn use_defaults_2(_input: &proc_macro2::TokenStream) -> (r: proc_macro2::TokenStream)
    ensures
        stream_trees(r) == use_defaults_spec(),
{
    proof {
        lemma_template_words();
    }
    let mut s = stream_new();
    push_ident(&mut s, "use");
    push_segment(&mut s, "std");
    push_segment(&mut s, "time");
    push_ident(&mut s, "Duration");
    push_punct(&mut s, ';', false);
    push_ident(&mut s, "use");
    push_segment(&mut s, "tinykube_graph");
    push_segment(&mut s, "processor");
    push_segment(&mut s, "types");
    push_punct(&mut s, '*', false);
    push_punct(&mut s, ';', false);
    push_ident(&mut s, "use");
    push_segment(&mut s, "tinykube_graph");
    push_segment(&mut s, "processor");
    push_segment(&mut s, "hybrid_logical_clock");
    push_ident(&mut s, "HybridLogicalClock");
    push_punct(&mut s, ';', false);
    assert(stream_trees(s) =~= use_defaults_spec());
    s
}

/// `impl From<src> for dst { fn from(var: src) -> Self { body } }`
fn build_from_impl(src: &str, dst: &str, var: &str, body: proc_macro2::TokenStream) -> (r:
    proc_macro2::TokenStream)
    requires
        simple_ident(src@),
        simple_ident(dst@),
        simple_ident(var@),
    ensures
        stream_trees(r) == from_impl(src, dst, var, stream_trees(body)),
{
    proof {
        lemma_template_words();
    }
    let ghost body_trees = stream_trees(body);
    let mut params = stream_new();
    push_ident(&mut params, var);
    push_punct(&mut params, ':', false);
    push_ident(&mut params, src);
    let ghost params_trees = stream_trees(params);
    let mut func = stream_new();
    push_ident(&mut func, "fn");
    push_ident(&mut func, "from");
    push_group(&mut func, Delim::Paren, params);
    push_arrow(&mut func);
    push_ident(&mut func, "Self");
    push_group(&mut func, Delim::Brace, body);
    assert(params_trees =~= seq![id(var), p(':'), id(src)]);
    assert(stream_trees(func) =~= seq![id("fn"), id("from"), paren(params_trees)] + arrow() + seq![
        id("Self"),
        brace(body_trees),
    ]);
    let ghost func_trees = stream_trees(func);
    let mut s = stream_new();
    push_ident(&mut s, "impl");
    push_ident(&mut s, "From");
    push_punct(&mut s, '<', false);
    push_ident(&mut s, src);
    push_punct(&mut s, '>', false);
    push_ident(&mut s, "for");
    push_ident(&mut s, dst);
    push_group(&mut s, Delim::Brace, func);
    assert(stream_trees(s) =~= from_impl(src, dst, var, body_trees));
    s
}

/// An empty `()` group.
fn push_unit(s: &mut proc_macro2::TokenStream)
    ensures
        stream_trees(*final(s)) == stream_trees(*old(s)).push(paren(Seq::empty())),
{
    push_group(s, Delim::Paren, stream_new());
}

/// `x.field as ty`
fn push_field_cast(s: &mut proc_macro2::TokenStream, x: &str, field: &str, ty: &str)
    requires
        simple_ident(x@),
        simple_ident(field@),
        simple_ident(ty@),
    ensures
        stream_trees(*final(s)) == stream_trees(*old(s)) + seq![
            TokV::Ident(x@),
            p('.'),
            TokV::Ident(field@),
            id("as"),
            TokV::Ident(ty@),
        ],
{
    proof {
        lemma_template_words();
    }
    push_ident(s, x);
    push_punct(s, '.', false);
    push_ident(s, field);
    push_ident(s, "as");
    push_ident(s, ty);
    assert(stream_trees(*s) =~= stream_trees(*old(s)) + seq![
        TokV::Ident(x@),
        p('.'),
        TokV::Ident(field@),
        id("as"),
        TokV::Ident(ty@),
    ]);
}

/// `name: x.method() as ty,`
fn push_method_field(s: &mut proc_macro2::TokenStream, name: &str, x: &str, method: &str, ty: &str)
    requires
        simple_ident(name@),
        simple_ident(x@),
        simple_ident(method@),
        simple_ident(ty@),
    ensures
        stream_trees(*final(s)) == stream_trees(*old(s)) + seq![
            TokV::Ident(name@),
            p(':'),
            TokV::Ident(x@),
            p('.'),
            TokV::Ident(method@),
            paren(Seq::empty()),
            id("as"),
            TokV::Ident(ty@),
            p(','),
        ],
{
    proof {
        lemma_template_words();
    }
    push_ident(s, name);
    push_punct(s, ':', false);
    push_ident(s, x);
    push_punct(s, '.', false);
    push_ident(s, method);
    push_unit(s);
    push_ident(s, "as");
    push_ident(s, ty);
    push_punct(s, ',', false);
    assert(stream_trees(*s) =~= stream_trees(*old(s)) + seq![
        TokV::Ident(name@),
        p(':'),
        TokV::Ident(x@),
        p('.'),
        TokV::Ident(method@),
        paren(Seq::empty()),
        id("as"),
        TokV::Ident(ty@),
        p(','),
    ]);
}

/// The `impl` blocks of `timespec_to_duration_spec`.
pub fn impl_timespec_to_duration_2(_input: &proc_macro2::TokenStream) -> (r:
    proc_macro2::TokenStream)
    ensures
        stream_trees(r) == timespec_to_duration_spec(),
{
    proof {
        lemma_template_words();
    }
    let mut args = stream_new();
    push_field_cast(&mut args, "timespec", "secs", "u64");
    push_punct(&mut args, ',', false);
    push_field_cast(&mut args, "timespec", "nanos", "u32");
    assert(stream_trees(args) =~= seq![
        id("timespec"), p('.'), id("secs"), id("as"), id("u64"), p(','),
        id("timespec"), p('.'), id("nanos"), id("as"), id("u32"),
    ]);
    let mut body1 = stream_new();
    push_segment(&mut body1, "Duration");
    push_ident(&mut body1, "new");
    push_group(&mut body1, Delim::Paren, args);
    assert(stream_trees(body1) =~= timespec_to_duration_body());
    let mut fields = stream_new();
    push_method_field(&mut fields, "secs", "duration", "as_secs", "u64");
    push_method_field(&mut fields, "nanos", "duration", "subsec_nanos", "u32");
    assert(stream_trees(fields) =~= seq![
        id("secs"), p(':'), id("duration"), p('.'), id("as_secs"), paren(Seq::empty()), id("as"),
        id("u64"), p(','), id("nanos"), p(':'), id("duration"), p('.'), id("subsec_nanos"),
        paren(Seq::empty()), id("as"), id("u32"), p(','),
    ]);
    let mut body2 = stream_new();
    push_ident(&mut body2, "Timespec");
    push_group(&mut body2, Delim::Brace, fields);
    assert(stream_trees(body2) =~= duration_to_timespec_body());
    let mut s = build_from_impl("Timespec", "Duration", "timespec", body1);
    push_stream(&mut s, build_from_impl("Duration", "Timespec", "duration", body2));
    s
}

/// `impl_timespec_to_duration!()`: the `impl` blocks between `Timespec` and
/// `Duration`.
pub fn impl_timespec_to_duration(input: &proc_macro2::TokenStream) -> (r: proc_macro2::TokenStream)
    ensures
        stream_trees(r) == timespec_to_duration_spec(),
{
    impl_timespec_to_duration_2(input)
}

/// `name: timestamp.name,`
fn push_copied_field(s: &mut proc_macro2::TokenStream, name: &str)
    requires
        simple_ident(name@),
    ensures
        stream_trees(*final(s)) == stream_trees(*old(s)) + seq![
            TokV::Ident(name@),
            p(':'),
            id("timestamp"),
            p('.'),
            TokV::Ident(name@),
            p(','),
        ],
{
    proof {
        lemma_template_words();
    }
    push_ident(s, name);
    push_punct(s, ':', false);
    push_ident(s, "timestamp");
    push_punct(s, '.', false);
    push_ident(s, name);
    push_punct(s, ',', false);
    assert(stream_trees(*s) =~= stream_trees(*old(s)) + seq![
        TokV::Ident(name@),
        p(':'),
        id("timestamp"),
        p('.'),
        TokV::Ident(name@),
        p(','),
    ]);
}

/// The `impl` block of `timestamp_to_clock_spec`.
pub fn impl_timestamp_to_hybrid_logical_clock_2(_input: &proc_macro2::TokenStream) -> (r:
    proc_macro2::TokenStream)
    ensures
        stream_trees(r) == timestamp_to_clock_spec(),
{
    proof {
        lemma_template_words();
    }
    let mut fields = stream_new();
    push_copied_field(&mut fields, "timestamp");
    push_copied_field(&mut fields, "counter");
    push_ident(&mut fields, "node_id");
    push_punct(&mut fields, ':', false);
    push_ident(&mut fields, "timestamp");
    push_punct(&mut fields, '.', false);
    push_ident(&mut fields, "node_id");
    push_punct(&mut fields, '.', false);
    push_ident(&mut fields, "into");
    push_unit(&mut fields);
    push_punct(&mut fields, ',', false);
    assert(stream_trees(fields) =~= seq![
        id("timestamp"), p(':'), id("timestamp"), p('.'), id("timestamp"), p(','),
        id("counter"), p(':'), id("timestamp"), p('.'), id("counter"), p(','),
        id("node_id"), p(':'), id("timestamp"), p('.'), id("node_id"), p('.'), id("into"),
        paren(Seq::empty()), p(','),
    ]);
    let mut body = stream_new();
    push_ident(&mut body, "HybridLogicalClock");
    push_group(&mut body, Delim::Brace, fields);
    assert(stream_trees(body) =~= timestamp_to_clock_body());
    build_from_impl("Timestamp", "HybridLogicalClock", "timestamp", body)
}

/// `impl_timestamp_to_hybrid_logical_clock!()`: `impl From<Timestamp> for
/// HybridLogicalClock`.
pub fn impl_timestamp_to_hybrid_logical_clock(input: &proc_macro2::TokenStream) -> (r:
    proc_macro2::TokenStream)
    ensures
        stream_trees(r) == timestamp_to_clock_spec(),
{
    impl_timestamp_to_hybrid_logical_clock_2(input)
}

/// `Enum::Variant(binding) =>`
fn push_arm_head(s: &mut proc_macro2::TokenStream, en: &str, variant: &str, binding: &str)
    requires
        simple_ident(en@),
        simple_ident(variant@),
        simple_ident(binding@),
    ensures
        stream_trees(*final(s)) == stream_trees(*old(s)) + seq![TokV::Ident(en@)] + colons() + seq![
            TokV::Ident(variant@),
            paren(seq![TokV::Ident(binding@)]),
        ] + fat_arrow(),
{
    push_segment(s, en);
    push_ident(s, variant);
    let mut b = stream_new();
    push_ident(&mut b, binding);
    push_group(s, Delim::Paren, b);
    push_fat_arrow(s);
    assert(stream_trees(*s) =~= stream_trees(*old(s)) + seq![TokV::Ident(en@)] + colons() + seq![
        TokV::Ident(variant@),
        paren(seq![TokV::Ident(binding@)]),
    ] + fat_arrow());
}

/// `x.method()`
fn push_method_call(s: &mut proc_macro2::TokenStream, x: &str, method: &str)
    requires
        simple_ident(x@),
        simple_ident(method@),
    ensures
        stream_trees(*final(s)) == stream_trees(*old(s)) + seq![
            TokV::Ident(x@),
            p('.'),
            TokV::Ident(method@),
            paren(Seq::empty()),
        ],
{
    push_ident(s, x);
    push_punct(s, '.', false);
    push_ident(s, method);
    push_unit(s);
    assert(stream_trees(*s) =~= stream_trees(*old(s)) + seq![
        TokV::Ident(x@),
        p('.'),
        TokV::Ident(method@),
        paren(Seq::empty()),
    ]);
}

/// The `impl` block of `buffer_or_string_spec`.
pub fn impl_bufferorstring_to_string_2(_input: &proc_macro2::TokenStream) -> (r:
    proc_macro2::TokenStream)
    ensures
        stream_trees(r) == buffer_or_string_spec(),
{
    proof {
        lemma_template_words();
    }
    let mut read = stream_new();
    push_method_call(&mut read, "buffer", "read");
    assert(stream_trees(read) =~= seq![id("buffer"), p('.'), id("read"), paren(Seq::empty())]);
    let mut arms = stream_new();
    push_arm_head(&mut arms, "BufferOrString", "Buffer", "buffer");
    push_segment(&mut arms, "String");
    push_ident(&mut arms, "from_utf8");
    push_group(&mut arms, Delim::Paren, read);
    push_punct(&mut arms, '.', false);
    push_ident(&mut arms, "unwrap");
    push_unit(&mut arms);
    push_punct(&mut arms, ',', false);
    push_arm_head(&mut arms, "BufferOrString", "String", "string");
    push_ident(&mut arms, "string");
    push_punct(&mut arms, ',', false);
    assert(stream_trees(arms) =~= seq![id("BufferOrString")] + colons() + seq![
        id("Buffer"),
        paren(seq![id("buffer")]),
    ] + fat_arrow() + seq![id("String")] + colons() + seq![
        id("from_utf8"),
        paren(seq![id("buffer"), p('.'), id("read"), paren(Seq::empty())]),
        p('.'),
        id("unwrap"),
        paren(Seq::empty()),
        p(','),
        id("BufferOrString"),
    ] + colons() + seq![id("String"), paren(seq![id("string")])] + fat_arrow() + seq![
        id("string"),
        p(','),
    ]);
    let mut body = stream_new();
    push_ident(&mut body, "match");
    push_ident(&mut body, "buffer_or_string");
    push_group(&mut body, Delim::Brace, arms);
    assert(stream_trees(body) =~= buffer_or_string_body());
    build_from_impl("BufferOrString", "String", "buffer_or_string", body)
}

/// `impl_bufferorstring_to_string!()`: `impl From<BufferOrString> for String`.
pub fn impl_bufferorstring_to_string(input: &proc_macro2::TokenStream) -> (r:
    proc_macro2::TokenStream)
    ensures
        stream_trees(r) == buffer_or_string_spec(),
{
    impl_bufferorstring_to_string_2(input)
}

/// The `impl` block of `buffer_or_bytes_spec`.
pub fn impl_bufferorbytes_2(_input: &proc_macro2::TokenStream) -> (r: proc_macro2::TokenStream)
    ensures
        stream_trees(r) == buffer_or_bytes_spec(),
{
    proof {
        lemma_template_words();
    }
    let mut arms = stream_new();
    push_arm_head(&mut arms, "BufferOrBytes", "Buffer", "buffer");
    push_method_call(&mut arms, "buffer", "read");
    push_punct(&mut arms, ',', false);
    push_arm_head(&mut arms, "BufferOrBytes", "Bytes", "bytes");
    push_method_call(&mut arms, "bytes", "clone");
    push_punct(&mut arms, ',', false);
    assert(stream_trees(arms) =~= seq![id("BufferOrBytes")] + colons() + seq![
        id("Buffer"),
        paren(seq![id("buffer")]),
    ] + fat_arrow() + seq![id("buffer"), p('.'), id("read"), paren(Seq::empty()), p(','), id("BufferOrBytes")]
        + colons() + seq![id("Bytes"), paren(seq![id("bytes")])] + fat_arrow() + seq![
        id("bytes"), p('.'), id("clone"), paren(Seq::empty()), p(','),
    ]);
    let mut body = stream_new();
    push_ident(&mut body, "match");
    push_ident(&mut body, "self");
    push_group(&mut body, Delim::Brace, arms);
    assert(stream_trees(body) =~= buffer_or_bytes_body());
    let ghost body_trees = stream_trees(body);
    let mut params = stream_new();
    push_punct(&mut params, '&', false);
    push_ident(&mut params, "self");
    assert(stream_trees(params) =~= seq![p('&'), id("self")]);
    let mut func = stream_new();
    push_ident(&mut func, "pub");
    push_ident(&mut func, "fn");
    push_ident(&mut func, "read");
    push_group(&mut func, Delim::Paren, params);
    push_arrow(&mut func);
    push_ident(&mut func, "Vec");
    push_punct(&mut func, '<', false);
    push_ident(&mut func, "u8");
    push_punct(&mut func, '>', false);
    push_group(&mut func, Delim::Brace, body);
    let ghost func_trees = stream_trees(func);
    let mut s = stream_new();
    push_ident(&mut s, "impl");
    push_ident(&mut s, "BufferOrBytes");
    push_group(&mut s, Delim::Brace, func);
    assert(func_trees =~= seq![id("pub"), id("fn"), id("read"), paren(seq![p('&'), id("self")])]
        + arrow() + seq![id("Vec"), p('<'), id("u8"), p('>'), brace(body_trees)]);
    assert(stream_trees(s) =~= buffer_or_bytes_spec());
    s
}

/// `impl_bufferorbytes!()`: `impl BufferOrBytes { pub fn read(&self) -> Vec<u8> }`.
pub fn impl_bufferorbytes(input: &proc_macro2::TokenStream) -> (r: proc_macro2::TokenStream)
    ensures
        stream_trees(r) == buffer_or_bytes_spec(),
{
    impl_bufferorbytes_2(input)
}

/// The `impl` block of `hybrid_logical_clock_spec`.
pub fn impl_hybrid_logical_clock_2(_input: &proc_macro2::TokenStream) -> (r:
    proc_macro2::TokenStream)
    ensures
        stream_trees(r) == hybrid_logical_clock_spec(),
{
    proof {
        lemma_template_words();
    }
    let mut body = stream_new();
    push_ident(&mut body, "hybrid_logical_clock_default");
    push_unit(&mut body);
    let ghost body_trees = stream_trees(body);
    let mut func = stream_new();
    push_ident(&mut func, "pub");
    push_ident(&mut func, "fn");
    push_ident(&mut func, "new");
    push_unit(&mut func);
    push_arrow(&mut func);
    push_ident(&mut func, "Self");
    push_group(&mut func, Delim::Brace, body);
    let ghost func_trees = stream_trees(func);
    let mut s = stream_new();
    push_ident(&mut s, "impl");
    push_ident(&mut s, "HybridLogicalClock");
    push_group(&mut s, Delim::Brace, func);
    assert(body_trees =~= seq![id("hybrid_logical_clock_default"), paren(Seq::empty())]);
    assert(func_trees =~= seq![id("pub"), id("fn"), id("new"), paren(Seq::empty())] + arrow()
        + seq![id("Self"), brace(body_trees)]);
    assert(stream_trees(s) =~= hybrid_logical_clock_spec());
    s
}

/// `impl_hybrid_logical_clock!()`: `impl HybridLogicalClock { pub fn new() -> Self }`.
pub fn impl_hybrid_logical_clock(input: &proc_macro2::TokenStream) -> (r: proc_macro2::TokenStream)
    ensures
        stream_trees(r) == hybrid_logical_clock_spec(),
{
    impl_hybrid_logical_clock_2(input)
}

/// All the default `impl` blocks, as `impl_defaults_spec` orders them.
pub fn impl_defaults_2(input: &proc_macro2::TokenStream) -> (r: proc_macro2::TokenStream)
    ensures
        stream_trees(r) == impl_defaults_spec(),
{
    let mut s = impl_bufferorbytes_2(input);
    push_stream(&mut s, impl_bufferorstring_to_string_2(input));
    push_stream(&mut s, impl_timestamp_to_hybrid_logical_clock_2(input));
    push_stream(&mut s, impl_timespec_to_duration_2(input));
    s
}

} // verus!
