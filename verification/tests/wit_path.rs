use proc_macro2::TokenStream;
use sdk::wit::{
    default_wit_path2, get_default_wit_path, wasmtime_bindgen, wasmtime_bindgen2, wit_bindgen,
    wit_bindgen2, with_default_path, with_default_path2,
};

const MANIFEST_DIR: &str = "/workspace/sdk/wit";

fn wit() -> String {
    get_default_wit_path(None, MANIFEST_DIR)
}

fn stream(text: &str) -> TokenStream {
    text.parse().unwrap()
}

#[test]
fn test_get_default_path() {
    let path = get_default_wit_path(None, MANIFEST_DIR);
    assert_eq!(path, format!("{MANIFEST_DIR}/graph"));
    let path = get_default_wit_path(Some("/path/to/wit".to_string()), MANIFEST_DIR);
    assert_eq!(path, "/path/to/wit");
}

#[test]
fn test_default_wit_path() {
    let path = default_wit_path2(&wit()).to_string();
    assert_eq!(path, format!("\"{MANIFEST_DIR}/graph\""));
}

#[test]
fn test_wit_bindgen() {
    let input = "\"world_name\"".to_string();
    let output = wit_bindgen2(&input.parse().unwrap(), &wit()).to_string();
    let expected =
        format!("wit_bindgen :: generate ! (\"world_name\" in \"{MANIFEST_DIR}/graph\") ;");
    assert_eq!(output, expected);
}

#[test]
fn test_wasmtime_bindgen() {
    let input = "\"world_name\"".to_string();
    let output = wasmtime_bindgen2(&input.parse().unwrap(), &wit()).to_string();
    let expected = format!(
        "wasmtime :: component :: bindgen ! (\"world_name\" in \"{MANIFEST_DIR}/graph\") ;"
    );
    assert_eq!(output, expected);
}

#[test]
fn test_with_default_path_no_change_if_not_wit_bindgen_or_wasmtime_bindgen() {
    let input = "wasmtime :: component :: something_else ! (\"world_name\") ;";
    let output = with_default_path2(&TokenStream::new(), &stream(input), &wit()).to_string();
    assert_eq!(output, input);
    let input = "something_else :: component :: generate ! (\"world_name\") ;";
    let output = with_default_path2(&TokenStream::new(), &stream(input), &wit()).to_string();
    assert_eq!(output, input);
}

#[test]
fn test_with_default_path_wit_bindgen_no_group() {
    let input = "wit_bindgen::generate!(\"world_name\");";
    let output = with_default_path2(&TokenStream::new(), &stream(input), &wit()).to_string();
    let expected =
        format!("wit_bindgen :: generate ! (\"world_name\" in \"{MANIFEST_DIR}/graph\") ;");
    assert_eq!(output, expected);
}

#[test]
fn test_with_default_path_wasmtime_bindgen_no_group() {
    let input = "wasmtime::component::bindgen!(\"world_name\");";
    let output = with_default_path2(&TokenStream::new(), &stream(input), &wit()).to_string();
    let expected = format!(
        "wasmtime :: component :: bindgen ! (\"world_name\" in \"{MANIFEST_DIR}/graph\") ;"
    );
    assert_eq!(output, expected);
}

#[test]
fn test_with_default_path_wit_bindgen_group() {
    let input = "wit_bindgen::generate!({world: \"world_name\"});";
    let output = with_default_path2(&TokenStream::new(), &stream(input), &wit()).to_string();
    let expected = format!(
        "wit_bindgen :: generate ! ({{ world : \"world_name\" , path : \"{MANIFEST_DIR}/graph\" }}) ;"
    );
    assert_eq!(output, expected);

    let input = "wit_bindgen::generate!({world: \"world_name\", });";
    let output = with_default_path2(&TokenStream::new(), &stream(input), &wit()).to_string();
    let expected = format!(
        "wit_bindgen :: generate ! ({{ world : \"world_name\" , path : \"{MANIFEST_DIR}/graph\" }}) ;"
    );
    assert_eq!(output, expected);

    let input = "wit_bindgen::generate!({world: \"world_name\", with:{}});";
    let output = with_default_path2(&TokenStream::new(), &stream(input), &wit()).to_string();
    let expected = format!(
        "wit_bindgen :: generate ! ({{ world : \"world_name\" , with : {{ }} , path : \"{MANIFEST_DIR}/graph\" }}) ;"
    );
    assert_eq!(output, expected);
}

#[test]
fn test_with_default_path_wasmtime_bindgen_group() {
    let input = "wasmtime::component::bindgen!({world: \"world_name\"});";
    let output = with_default_path2(&TokenStream::new(), &stream(input), &wit()).to_string();
    let expected = format!("wasmtime :: component :: bindgen ! ({{ world : \"world_name\" , path : \"{MANIFEST_DIR}/graph\" }}) ;");
    assert_eq!(output, expected);

    let input = "wasmtime::component::bindgen!({world: \"world_name\", });";
    let output = with_default_path2(&TokenStream::new(), &stream(input), &wit()).to_string();
    let expected = format!("wasmtime :: component :: bindgen ! ({{ world : \"world_name\" , path : \"{MANIFEST_DIR}/graph\" }}) ;");
    assert_eq!(output, expected);

    let input = "wasmtime::component::bindgen!({world: \"world_name\", with:{}});";
    let output = with_default_path2(&TokenStream::new(), &stream(input), &wit()).to_string();
    let expected = format!("wasmtime :: component :: bindgen ! ({{ world : \"world_name\" , with : {{ }} , path : \"{MANIFEST_DIR}/graph\" }}) ;");
    assert_eq!(output, expected);
}

#[test]
fn integraion_wit_bindgen_test_integration_wit_bindgen() {
    let output = wit_bindgen(&stream("\"tinykube-graph:processor/logger-use\""), &wit()).unwrap();
    assert_eq!(
        output.to_string(),
        format!("wit_bindgen :: generate ! (\"tinykube-graph:processor/logger-use\" in \"{MANIFEST_DIR}/graph\") ;")
    );
    let item = stream("wit_bindgen::generate!(\"tinykube-graph:processor/logger-use\");");
    let output = with_default_path(&TokenStream::new(), &item, &wit()).unwrap();
    assert_eq!(
        output.to_string(),
        format!("wit_bindgen :: generate ! (\"tinykube-graph:processor/logger-use\" in \"{MANIFEST_DIR}/graph\") ;")
    );
    let item = stream("wit_bindgen::generate!({world: \"tinykube-graph:processor/logger-use\"});");
    let output = with_default_path(&TokenStream::new(), &item, &wit()).unwrap();
    assert_eq!(
        output.to_string(),
        format!("wit_bindgen :: generate ! ({{ world : \"tinykube-graph:processor/logger-use\" , path : \"{MANIFEST_DIR}/graph\" }}) ;")
    );
}

#[test]
fn test_integration_wasmtime_bindgen() {
    let output =
        wasmtime_bindgen(&stream("\"tinykube-graph:processor/host\""), &wit()).unwrap();
    assert_eq!(
        output.to_string(),
        format!("wasmtime :: component :: bindgen ! (\"tinykube-graph:processor/host\" in \"{MANIFEST_DIR}/graph\") ;")
    );
    let item = stream("wasmtime::component::bindgen!(\"tinykube-graph:processor/host\");");
    let output = with_default_path(&TokenStream::new(), &item, &wit()).unwrap();
    assert_eq!(
        output.to_string(),
        format!("wasmtime :: component :: bindgen ! (\"tinykube-graph:processor/host\" in \"{MANIFEST_DIR}/graph\") ;")
    );
}

#[test]
fn with_default_path_keeps_an_existing_path() {
    let input = "wit_bindgen::generate!({world: \"w\", path: \"here\"});";
    let output = with_default_path(&TokenStream::new(), &stream(input), &wit()).unwrap();
    assert_eq!(output.to_string(), "wit_bindgen :: generate ! ({ world : \"w\" , path : \"here\" }) ;");
}

#[test]
fn with_default_path_adds_to_an_empty_group() {
    let input = "wit_bindgen::generate!({});";
    let output = with_default_path(&TokenStream::new(), &stream(input), "/w").unwrap();
    assert_eq!(output.to_string(), "wit_bindgen :: generate ! ({ , path : \"/w\" }) ;");
}

#[test]
fn with_default_path_keeps_other_items() {
    let input = "fn f () { }";
    let output = with_default_path(&TokenStream::new(), &stream(input), "/w").unwrap();
    assert_eq!(output.to_string(), input);
}

#[test]
fn with_default_path_refuses_what_is_no_item() {
    assert!(with_default_path(&TokenStream::new(), &stream("1 + 2"), "/w").is_none());
    assert!(with_default_path(&TokenStream::new(), &stream("wit_bindgen::generate!();"), "/w").is_none());
}

#[test]
fn with_default_path_keeps_a_bracketed_body() {
    let input = "wit_bindgen :: generate ! ([\"w\"]) ;";
    let output = with_default_path(&TokenStream::new(), &stream(input), "/w").unwrap();
    assert_eq!(output.to_string(), input);
}

#[test]
fn bindgen_refuses_what_is_no_string_literal() {
    assert!(wit_bindgen(&stream("world"), "/w").is_none());
    assert!(wasmtime_bindgen(&stream("1"), "/w").is_none());
}

#[test]
fn default_wit_path_escapes_the_literal() {
    assert_eq!(default_wit_path2("a\"b").to_string(), "\"a\\\"b\"");
}

#[test]
fn with_default_path_twice_is_once() {
    for input in [
        "wit_bindgen::generate!(\"w\");",
        "wit_bindgen::generate!({world: \"w\"});",
        "wasmtime::component::bindgen!({world: \"w\", with: {}});",
    ] {
        let once = with_default_path(&TokenStream::new(), &stream(input), "/w").unwrap();
        let twice = with_default_path(&TokenStream::new(), &once, "/w").unwrap();
        assert_eq!(once.to_string(), twice.to_string());
    }
}

#[test]
fn with_default_path_keeps_only_the_leading_literal() {
    let input = "wit_bindgen::generate!(\"w\" in \"elsewhere\");";
    let output = with_default_path(&TokenStream::new(), &stream(input), "/w").unwrap();
    assert_eq!(output.to_string(), "wit_bindgen :: generate ! (\"w\" in \"/w\") ;");
}

#[test]
fn with_default_path_keeps_what_follows_the_group() {
    let input = "wit_bindgen::generate!({world: \"world_name\"}, with: {});";
    let output = with_default_path(&TokenStream::new(), &stream(input), &wit()).unwrap();
    let expected = format!(
        "wit_bindgen :: generate ! ({{ world : \"world_name\" , path : \"{MANIFEST_DIR}/graph\" }} , with : {{ }}) ;"
    );
    assert_eq!(output.to_string(), expected);
}

#[test]
fn the_graph_directory_is_joined_as_on_unix() {
    assert_eq!(get_default_wit_path(None, "/a/"), "/a/graph");
    assert_eq!(get_default_wit_path(None, ""), "graph");
    assert_eq!(get_default_wit_path(None, "rel"), "rel/graph");
}

#[test]
fn with_default_path_needs_the_exact_bindgen_path() {
    let input = "::wit_bindgen::generate!(\"w\");";
    let output = with_default_path(&TokenStream::new(), &stream(input), "/w").unwrap();
    assert_eq!(output.to_string(), ":: wit_bindgen :: generate ! (\"w\") ;");
}
