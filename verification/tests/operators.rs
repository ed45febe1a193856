use proc_macro2::TokenStream;
use sdk::operator::{
    accumulate_operator, branch_operator, delay_operator, filter_operator, map_operator,
    OperatorError,
};

const WIT: &str = "/workspace/sdk/wit/graph";

fn stream(text: &str) -> TokenStream {
    text.parse().unwrap()
}

fn expand(
    operator: fn(&TokenStream, &TokenStream, &str) -> Result<TokenStream, OperatorError>,
    attr: &str,
    item: &str,
) -> String {
    operator(&stream(attr), &stream(item), WIT).unwrap().to_string()
}

#[test]
fn integration_operators_test_integration_wit_bindgen() {
    let out = expand(map_operator, "", "fn test_map(input: DataModel) -> DataModel { input }");
    assert!(out.starts_with("fn test_map (input : DataModel) -> DataModel { input }"));
    assert!(out.contains("world : \"map-impl\""));
    assert!(out.contains("impl exports :: tinykube_graph :: processor :: map :: Guest for Module { fn process (input : DataModel) -> DataModel { test_map (input) } }"));

    let out = expand(filter_operator, "", "fn test_filter(_input: DataModel) -> bool { true }");
    assert!(out.contains("world : \"filter-impl\""));
    assert!(out.contains("fn process (input : DataModel) -> bool { test_filter (input) }"));

    let out = expand(
        branch_operator,
        "",
        "fn test_branch(_timestamp: HybridLogicalClock, _message: DataModel) -> bool { false }",
    );
    assert!(out.contains("fn process (timestamp : HybridLogicalClock , input : DataModel) -> bool { test_branch (timestamp , input) }"));

    let out = expand(
        delay_operator,
        "",
        "fn test_delay(_data: DataModel, timestamp: HybridLogicalClock) -> HybridLogicalClock { timestamp }",
    );
    assert!(out.contains("fn process (input : DataModel , timestamp : HybridLogicalClock) -> HybridLogicalClock { test_delay (input , timestamp) }"));

    let out = expand(
        accumulate_operator,
        "",
        "fn test_accumulate(staged: DataModel, _input: Vec<DataModel>) -> DataModel { staged }",
    );
    assert!(out.contains("fn process (staged : DataModel , input : Vec < DataModel >) -> DataModel { test_accumulate (staged , input) }"));
    assert!(out.ends_with("export ! (Module) ;"));
}

#[test]
fn integration_operators_enc_dec_test_integration_wit_bindgen() {
    let out = expand(
        map_operator,
        "decode = \"decode_input\", encode = \"encode_output\"",
        "fn test_map(input: UserType) -> UserType { input }",
    );
    assert!(out.contains("{ let user_input = decode_input (& input) ; let user_output = test_map (user_input) ; encode_output (input , user_output) }"));

    let out = expand(
        filter_operator,
        "decode = \"decode_input\"",
        "fn test_filter(_input: UserType) -> bool { true }",
    );
    assert!(out.contains("{ let user_input = decode_input (& input) ; test_filter (user_input) }"));

    let out = expand(
        branch_operator,
        "decode = \"decode_input\"",
        "fn test_branch(_timestamp: HybridLogicalClock, _message: UserType) -> bool { false }",
    );
    assert!(out.contains("{ let user_input = decode_input (& input) ; test_branch (timestamp , user_input) }"));
}

#[test]
fn integration_operators_map_to_option_test_integration_wit_bindgen() {
    let out = expand(
        map_operator,
        "decode = \"decode_input\", encode = \"encode_output\"",
        "fn test_map(_input: UserType) -> Option<UserType> { None }",
    );
    assert!(out.contains("match user_output { Some (user_output) => encode_output (input , user_output) , None => input , }"));
}

#[test]
fn unsupported_settings_are_refused() {
    let f = "fn f(input: DataModel) -> DataModel { input }";
    let refused = |op: fn(&TokenStream, &TokenStream, &str) -> Result<TokenStream, OperatorError>,
                   attr: &str| {
        matches!(op(&stream(attr), &stream(f), WIT), Err(OperatorError::UnsupportedSettings))
    };
    assert!(refused(map_operator, "decode = \"d\""));
    assert!(refused(map_operator, "encode = \"e\""));
    assert!(refused(filter_operator, "encode = \"e\""));
    assert!(refused(branch_operator, "decode = \"d\", encode = \"e\""));
    assert!(refused(accumulate_operator, "decode = \"d\""));
    assert!(refused(delay_operator, "encode = \"e\""));
}

#[test]
fn bad_identifiers_are_refused_before_settings() {
    let f = "fn f(input: DataModel) -> DataModel { input }";
    match delay_operator(&stream("init = \"no good\", encode = \"e\""), &stream(f), WIT) {
        Err(OperatorError::InvalidIdent(name)) => assert_eq!(name, "no good"),
        _ => panic!("expected an invalid identifier"),
    }
}

#[test]
fn encoding_needs_a_return_type() {
    let out = map_operator(
        &stream("decode = \"d\", encode = \"e\""),
        &stream("fn f(input: UserType) { }"),
        WIT,
    );
    assert!(matches!(out, Err(OperatorError::MissingReturnType)));
}

#[test]
fn parse_errors_become_compile_errors() {
    let out = map_operator(&stream(""), &stream("struct NotAFunction;"), WIT).unwrap();
    assert!(out.to_string().contains("compile_error"));
    let out = map_operator(&stream("decode ="), &stream("fn f() {}"), WIT).unwrap();
    assert!(out.to_string().contains("compile_error"));
}

#[test]
fn the_wit_option_replaces_the_default_path() {
    let out = expand(filter_operator, "wit = \"/other/graph\"", "fn f(input: DataModel) -> bool { true }");
    assert!(out.contains("wit_bindgen :: generate ! ({ world : \"filter-impl\" , path : \"/other/graph\" , }) ;"));
    let out = expand(filter_operator, "", "fn f(input: DataModel) -> bool { true }");
    assert!(out.contains(&format!("path : \"{WIT}\" ,")));
}

#[test]
fn the_module_holds_the_defaults() {
    let out = expand(delay_operator, "", "fn f(d: DataModel, t: HybridLogicalClock) -> HybridLogicalClock { t }");
    assert!(out.contains("use std :: time :: Duration ;"));
    assert!(out.contains("impl BufferOrBytes {"));
    assert!(out.contains("impl From < Duration > for Timespec"));
    assert!(out.contains("struct Module ;"));
}

#[test]
fn lifecycle_options_change_nothing() {
    let f = "fn f(input: DataModel) -> DataModel { input }";
    let plain = expand(map_operator, "", f);
    let with_hooks = expand(map_operator, "init = \"guest_init\", destroy = \"guest_destroy\"", f);
    assert_eq!(plain, with_hooks);
}

#[test]
fn a_wit_argument_acts_as_the_default_path() {
    let f = "fn f(input: DataModel) -> bool { true }";
    let with_arg = filter_operator(&stream("wit = \"/x\""), &stream(f), WIT).unwrap().to_string();
    let with_default = filter_operator(&stream(""), &stream(f), "/x").unwrap().to_string();
    assert_eq!(with_arg, with_default);
}
