use proc_macro2::TokenStream;
use sdk::operator::{first_invalid_ident, OperatorInput};
use sdk::options::get_options;
use sdk::syntax::{has_ident_shape, ident_from_lexed, AttrArg};

fn kv(name: &str, value: &str) -> AttrArg {
    AttrArg::NameValue(Some(name.to_string()), Some(value.to_string()))
}

fn input(text: &str) -> OperatorInput {
    let stream: TokenStream = text.parse().unwrap();
    match OperatorInput::parse(&stream) {
        Ok(input) => input,
        Err(_) => panic!("function did not parse"),
    }
}

fn plain() -> OperatorInput {
    input("fn f(input: DataModel) -> DataModel { input }")
}

#[test]
fn no_arguments_give_no_options() {
    let options = get_options(&vec![], &plain(), "/default");
    assert_eq!(options.init, None);
    assert_eq!(options.destroy, None);
    assert_eq!(options.decode, None);
    assert_eq!(options.encode, None);
    assert_eq!(options.wit_path, "/default");
}

#[test]
fn each_key_is_read() {
    let options = get_options(
        &vec![
            kv("init", "guest_init"),
            kv("destroy", "guest_destroy"),
            kv("decode", "dec"),
            kv("encode", "enc"),
            kv("wit", "/my/wit"),
        ],
        &plain(),
        "/default",
    );
    assert_eq!(options.init.as_deref(), Some("guest_init"));
    assert_eq!(options.destroy.as_deref(), Some("guest_destroy"));
    assert_eq!(options.decode.as_deref(), Some("dec"));
    assert_eq!(options.encode.as_deref(), Some("enc"));
    assert_eq!(options.wit_path, "/my/wit");
}

#[test]
fn the_last_value_wins_and_others_are_ignored() {
    let options = get_options(
        &vec![
            kv("decode", "first"),
            kv("other", "x"),
            AttrArg::NameValue(Some("decode".to_string()), None),
            AttrArg::Other,
            AttrArg::NameValue(None, Some("x".to_string())),
            kv("decode", "second"),
        ],
        &plain(),
        "/default",
    );
    assert_eq!(options.decode.as_deref(), Some("second"));
    assert_eq!(options.encode, None);
}

#[test]
fn the_first_bad_identifier_is_reported() {
    let args = vec![kv("decode", "ok"), kv("init", "not ok"), kv("encode", "1x")];
    assert_eq!(first_invalid_ident(&args).as_deref(), Some("not ok"));
    assert_eq!(first_invalid_ident(&vec![kv("decode", "r#raw")]).as_deref(), Some("r#raw"));
    assert_eq!(first_invalid_ident(&vec![kv("destroy", " padded")]).as_deref(), Some(" padded"));
    let args = vec![kv("wit", "not an ident"), kv("decode", "fine"), kv("encode", "fn")];
    assert_eq!(first_invalid_ident(&args), None);
}

#[test]
fn output_type_queries() {
    let f = input("fn f(x: Option<UserType>) -> Option<UserType> { x }");
    assert_eq!(f.output_type_is_option(), Some(true));
    assert_eq!(f.output_type_is_option_of("UserType"), Some(true));
    assert_eq!(f.output_type_is_option_of("Other"), Some(false));
    assert_eq!(f.output_type_is("Option"), Some(true));
    assert_eq!(f.input_type_is("Option"), Some(true));
    assert_eq!(f.input_type().to_string(), "Option < UserType >");

    let g = input("fn g(x: &str) -> (u8, u8) { (1, 2) }");
    assert_eq!(g.output_type_is_option(), Some(false));
    assert_eq!(g.input_type_is("str"), Some(false));

    assert_eq!(f.output_type().to_string(), "Option < UserType >");

    let h = input("fn h(&self) { }");
    assert!(h.func.output.is_none());
    assert_eq!(h.name().to_string(), "h");
}

#[test]
fn what_is_no_function_does_not_parse() {
    let stream: TokenStream = "struct S;".parse().unwrap();
    assert!(OperatorInput::parse(&stream).is_err());
}

#[test]
fn identifiers_beyond_ascii_are_taken() {
    let args = vec![kv("decode", "café"), kv("encode", "e\u{301}tat"), kv("init", "_")];
    assert_eq!(first_invalid_ident(&args), None);
}

#[test]
fn what_no_identifier_holds_is_refused() {
    assert_eq!(first_invalid_ident(&vec![kv("encode", "1x")]).as_deref(), Some("1x"));
    assert_eq!(first_invalid_ident(&vec![kv("encode", "")]).as_deref(), Some(""));
    assert_eq!(first_invalid_ident(&vec![kv("decode", "x//c")]).as_deref(), Some("x//c"));
    assert_eq!(
        first_invalid_ident(&vec![kv("decode", "\u{a0}x")]).as_deref(),
        Some("\u{a0}x")
    );
    assert_eq!(first_invalid_ident(&vec![kv("decode", "x\u{1f600}")]).as_deref(), Some("x\u{1f600}"));
}

#[test]
fn the_shape_of_an_identifier() {
    assert!(has_ident_shape("abc_1"));
    assert!(has_ident_shape("café"));
    assert!(has_ident_shape(""));
    assert!(!has_ident_shape("a b"));
    assert!(!has_ident_shape("r#x"));
    assert!(!has_ident_shape("x/"));
    assert!(!has_ident_shape("\u{feff}x"));
    assert!(!has_ident_shape("x\u{2003}"));
}

#[test]
fn an_identifier_is_read_from_what_the_lexer_gave() {
    let lexed = |t: &str| -> Option<TokenStream> { Some(t.parse().unwrap()) };
    let r = ident_from_lexed("abc", lexed("abc")).unwrap();
    assert_eq!(r.to_string(), "abc");
    let r = ident_from_lexed("abc", lexed("other")).unwrap();
    assert_eq!(r.to_string(), "other");
    assert!(ident_from_lexed("abc", None).is_none());
    assert!(ident_from_lexed("abc", lexed("a b")).is_none());
    assert!(ident_from_lexed("abc", lexed("\"abc\"")).is_none());
    assert!(ident_from_lexed("abc", lexed("")).is_none());
    assert!(ident_from_lexed("a b", lexed("ab")).is_none());
}
