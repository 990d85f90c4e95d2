//! Tests of the attribute token parser, the visibility model, the
//! method-family keywords and the type-shape classifier.

use lombok_core::cfg::Cfg;
use lombok_core::func::FuncType;
use lombok_core::parse::{analyze_attributes, parse_tokens};
use lombok_core::shape::{
    inner_type_argument, is_container_of, render_type, ContainerKind, TypeShape,
};
use lombok_core::strategy::{classify_parameter_expression, ParamStrategy, ReturnStrategy};
use lombok_core::token::{render_tokens, Attr, Delim, Token};
use lombok_core::visibility::{parse_visibility, Visibility};

fn ident(s: &str) -> Token {
    Token::Ident(s.to_string())
}

fn paren(ts: Vec<Token>) -> Token {
    Token::Group(Delim::Paren, ts)
}

fn attr(ts: Vec<Token>) -> Attr {
    Attr { tokens: ts }
}

#[test]
fn test_visibility_round_trip_all_variants() {
    let all = [
        Visibility::Public,
        Visibility::PublicCrate,
        Visibility::PublicSuper,
        Visibility::Private,
    ];
    for v in all {
        let text = v.as_keyword();
        assert_eq!(parse_visibility(text.as_str()), Some(v));
    }
}

#[test]
fn test_visibility_keywords() {
    assert_eq!(parse_visibility("pub"), Some(Visibility::Public));
    assert_eq!(parse_visibility("crate"), Some(Visibility::PublicCrate));
    assert_eq!(parse_visibility("super"), Some(Visibility::PublicSuper));
    assert_eq!(parse_visibility("private"), Some(Visibility::Private));
    assert_eq!(parse_visibility("protected"), None);
    assert!(Visibility::Public.is_public());
    assert!(!Visibility::Private.is_public());
}

#[test]
fn test_visibility_token_stream() {
    let pub_tokens = Visibility::Public.to_token_stream();
    assert_eq!(pub_tokens, vec![ident("pub")]);
    let crate_tokens = Visibility::PublicCrate.to_token_stream();
    assert_eq!(crate_tokens, vec![ident("pub"), paren(vec![ident("crate")])]);
    let super_tokens = Visibility::PublicSuper.to_token_stream();
    assert_eq!(super_tokens, vec![ident("pub"), paren(vec![ident("super")])]);
    let private_tokens = Visibility::Private.to_token_stream();
    assert_eq!(private_tokens, Vec::<Token>::new());
}

#[test]
fn test_func_type_keywords() {
    assert_eq!(FuncType::from_keyword("get"), FuncType::Getter);
    assert_eq!(FuncType::from_keyword("get_mut"), FuncType::MutableGetter);
    assert_eq!(FuncType::from_keyword("set"), FuncType::Setter);
    assert_eq!(FuncType::from_keyword("debug"), FuncType::DebugField);
    assert_eq!(FuncType::from_keyword("new"), FuncType::Constructor);
    assert_eq!(FuncType::from_keyword("misc"), FuncType::Unknown);
    assert!(FuncType::is_known("get"));
    assert!(FuncType::is_known("debug"));
    assert!(!FuncType::is_known("misc"));
    assert!(FuncType::Getter.is_get());
    assert!(FuncType::MutableGetter.is_get_mut());
    assert!(FuncType::Setter.is_set());
    assert!(FuncType::DebugField.is_debug());
    assert!(FuncType::Constructor.is_new());
    assert!(FuncType::Unknown.is_unknown());
}

#[test]
fn test_parse_get_pub_crate() {
    let a = attr(vec![ident("get"), paren(vec![ident("pub"), paren(vec![ident("crate")])])]);
    let cfg = analyze_attributes(&a);
    assert_eq!(cfg.func_type, FuncType::Getter);
    assert_eq!(cfg.visibility, Visibility::PublicCrate);
    assert!(!cfg.skip);
}

#[test]
fn test_parse_pub_lookahead_keeps_next_token() {
    // `pub` followed by something that is no parenthesized group must
    // not consume it: the `skip` after `pub` still takes effect.
    let a = attr(vec![
        ident("get"),
        paren(vec![ident("pub"), Token::Punct(','), ident("skip")]),
    ]);
    let cfg = analyze_attributes(&a);
    assert_eq!(cfg.func_type, FuncType::Getter);
    assert_eq!(cfg.visibility, Visibility::Public);
    assert!(cfg.skip);
}

#[test]
fn test_parse_first_kind_keyword_wins() {
    let a = attr(vec![
        ident("get"),
        paren(vec![ident("set"), Token::Punct(','), ident("private")]),
    ]);
    let cfg = analyze_attributes(&a);
    assert_eq!(cfg.func_type, FuncType::Getter);
    assert_eq!(cfg.visibility, Visibility::Private);
}

#[test]
fn test_parse_unrecognized_text_falls_back_to_defaults() {
    let a = attr(vec![
        ident("whatever"),
        paren(vec![ident("mystery"), Token::Literal("7".to_string())]),
    ]);
    let cfg = analyze_attributes(&a);
    let d = Cfg::default();
    assert_eq!(cfg, d);
}

#[test]
fn test_parse_return_strategy_keywords() {
    let a = attr(vec![ident("get"), paren(vec![ident("pub"), Token::Punct(','), ident("reference")])]);
    assert_eq!(analyze_attributes(&a).return_strategy, ReturnStrategy::ByRef);
    let b = attr(vec![ident("get"), paren(vec![ident("clone")])]);
    assert_eq!(analyze_attributes(&b).return_strategy, ReturnStrategy::ByClone);
    let c = attr(vec![ident("get"), paren(vec![ident("copy")])]);
    assert_eq!(analyze_attributes(&c).return_strategy, ReturnStrategy::ByCopy);
    let d = attr(vec![ident("get"), paren(vec![ident("deref")])]);
    assert_eq!(analyze_attributes(&d).return_strategy, ReturnStrategy::ByDeref);
    let e = attr(vec![ident("get"), paren(vec![ident("pub")])]);
    assert_eq!(analyze_attributes(&e).return_strategy, ReturnStrategy::Inferred);
}

#[test]
fn test_parse_type_directive_strategy_keyword() {
    // `type(clone)` supplies a return strategy for a getter.
    let a = attr(vec![
        ident("get"),
        paren(vec![ident("type"), paren(vec![ident("clone")])]),
    ]);
    let cfg = analyze_attributes(&a);
    assert_eq!(cfg.return_strategy, ReturnStrategy::ByClone);
    assert_eq!(cfg.param_strategy, ParamStrategy::Direct);
}

#[test]
fn test_parse_type_directive_trait_bound() {
    // `type(AsRef<str>)` supplies a setter conversion bound.
    let a = attr(vec![
        ident("set"),
        paren(vec![
            ident("pub"),
            Token::Punct(','),
            ident("type"),
            paren(vec![ident("AsRef"), Token::Punct('<'), ident("str"), Token::Punct('>')]),
        ]),
    ]);
    let cfg = analyze_attributes(&a);
    assert_eq!(cfg.func_type, FuncType::Setter);
    assert_eq!(cfg.param_strategy, ParamStrategy::ViaAsRef);
    assert_eq!(cfg.param_override.as_deref(), Some("AsRef<str>"));
}

#[test]
fn test_parse_tokens_into_existing_cfg() {
    let mut cfg = Cfg::default();
    let tokens = vec![ident("set"), paren(vec![ident("private")])];
    parse_tokens(&tokens, &mut cfg);
    assert_eq!(cfg.func_type, FuncType::Setter);
    assert_eq!(cfg.visibility, Visibility::Private);
}

#[test]
fn test_classify_parameter_expression() {
    assert_eq!(classify_parameter_expression("AsRef<str>"), ParamStrategy::ViaAsRef);
    assert_eq!(classify_parameter_expression("Into<Vec<String>>"), ParamStrategy::ViaInto);
    assert_eq!(classify_parameter_expression("AsMut<[u8]>"), ParamStrategy::ViaAsMut);
    assert_eq!(classify_parameter_expression("Deref<Target = str>"), ParamStrategy::ViaDeref);
    assert_eq!(classify_parameter_expression("MyBound<T>"), ParamStrategy::Custom);
    assert_eq!(classify_parameter_expression("impl MyBound<T>"), ParamStrategy::Direct);
    assert_eq!(classify_parameter_expression("plain"), ParamStrategy::Direct);
}

#[test]
fn test_container_classifier() {
    let opt = TypeShape::Path {
        segments: vec!["Option".to_string()],
        args: vec![TypeShape::Path { segments: vec!["String".to_string()], args: vec![] }],
    };
    assert!(is_container_of(ContainerKind::OptionTag, &opt));
    assert!(!is_container_of(ContainerKind::ResultTag, &opt));
    let inner = inner_type_argument(&opt).expect("one argument");
    assert_eq!(
        *inner,
        TypeShape::Path { segments: vec!["String".to_string()], args: vec![] },
    );
    let map = TypeShape::Path {
        segments: vec!["std".to_string(), "collections".to_string(), "HashMap".to_string()],
        args: vec![
            TypeShape::Path { segments: vec!["String".to_string()], args: vec![] },
            TypeShape::Path { segments: vec!["u32".to_string()], args: vec![] },
        ],
    };
    assert!(inner_type_argument(&map).is_none());
    assert_eq!(render_type(&map), "std::collections::HashMap<String, u32>");
    let verbatim = TypeShape::Verbatim("&'a str".to_string());
    assert!(!is_container_of(ContainerKind::StringTag, &verbatim));
    assert_eq!(render_type(&verbatim), "&'a str");
}

#[test]
fn test_render_tokens_word_separation() {
    let ts = vec![
        ident("impl"),
        ident("AsRef"),
        Token::Punct('<'),
        ident("str"),
        Token::Punct('>'),
    ];
    assert_eq!(render_tokens(&ts), "impl AsRef<str>");
    let grouped = vec![ident("pub"), paren(vec![ident("crate")])];
    assert_eq!(render_tokens(&grouped), "pub(crate)");
}
