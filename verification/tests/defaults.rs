use proc_macro2::TokenStream;
use sdk::defaults::{
    impl_bufferorbytes, impl_bufferorstring_to_string, impl_defaults_2,
    impl_hybrid_logical_clock, impl_timespec_to_duration, impl_timestamp_to_hybrid_logical_clock,
    use_defaults_2,
};

const BUFFER_OR_BYTES: &str = "impl BufferOrBytes { pub fn read (& self) -> Vec < u8 > { match self { BufferOrBytes :: Buffer (buffer) => buffer . read () , BufferOrBytes :: Bytes (bytes) => bytes . clone () , } } }";
const BUFFER_OR_STRING: &str = "impl From < BufferOrString > for String { fn from (buffer_or_string : BufferOrString) -> Self { match buffer_or_string { BufferOrString :: Buffer (buffer) => String :: from_utf8 (buffer . read ()) . unwrap () , BufferOrString :: String (string) => string , } } }";
const TIMESTAMP: &str = "impl From < Timestamp > for HybridLogicalClock { fn from (timestamp : Timestamp) -> Self { HybridLogicalClock { timestamp : timestamp . timestamp , counter : timestamp . counter , node_id : timestamp . node_id . into () , } } }";
const TIMESPEC: &str = "impl From < Timespec > for Duration { fn from (timespec : Timespec) -> Self { Duration :: new (timespec . secs as u64 , timespec . nanos as u32) } } impl From < Duration > for Timespec { fn from (duration : Duration) -> Self { Timespec { secs : duration . as_secs () as u64 , nanos : duration . subsec_nanos () as u32 , } } }";

#[test]
fn use_defaults_lists_the_three_imports() {
    assert_eq!(
        use_defaults_2(&TokenStream::new()).to_string(),
        "use std :: time :: Duration ; use tinykube_graph :: processor :: types :: * ; use tinykube_graph :: processor :: hybrid_logical_clock :: HybridLogicalClock ;"
    );
}

#[test]
fn impl_bufferorbytes_reads_either_variant() {
    assert_eq!(impl_bufferorbytes(&TokenStream::new()).to_string(), BUFFER_OR_BYTES);
}

#[test]
fn impl_bufferorstring_converts_to_string() {
    assert_eq!(impl_bufferorstring_to_string(&TokenStream::new()).to_string(), BUFFER_OR_STRING);
}

#[test]
fn impl_timestamp_converts_to_clock() {
    assert_eq!(impl_timestamp_to_hybrid_logical_clock(&TokenStream::new()).to_string(), TIMESTAMP);
}

#[test]
fn impl_timespec_converts_both_ways() {
    assert_eq!(impl_timespec_to_duration(&TokenStream::new()).to_string(), TIMESPEC);
}

#[test]
fn impl_hybrid_logical_clock_has_new() {
    assert_eq!(
        impl_hybrid_logical_clock(&TokenStream::new()).to_string(),
        "impl HybridLogicalClock { pub fn new () -> Self { hybrid_logical_clock_default () } }"
    );
}

#[test]
fn impl_defaults_joins_the_four_impls() {
    assert_eq!(
        impl_defaults_2(&TokenStream::new()).to_string(),
        format!("{BUFFER_OR_BYTES} {BUFFER_OR_STRING} {TIMESTAMP} {TIMESPEC}")
    );
}

#[test]
fn the_templates_ignore_their_input() {
    let input: TokenStream = "anything at all".parse().unwrap();
    assert_eq!(impl_bufferorbytes(&input).to_string(), BUFFER_OR_BYTES);
}
