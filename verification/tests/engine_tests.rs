//! Tests of the per-field method synthesis engine: defaults, skip,
//! return and parameter strategies, the panic-free companion accessor,
//! tuple fields, and determinism.

use lombok_core::generate::{generate_getter_setter, get_clean_attr_name};
use lombok_core::input::FieldModel;
use lombok_core::method::{
    FieldRef, GetterBody, Method, RetShape, SetterBody, SetterParam,
};
use lombok_core::shape::TypeShape;
use lombok_core::token::{Attr, Delim, Token};
use lombok_core::visibility::Visibility;

fn ident(s: &str) -> Token {
    Token::Ident(s.to_string())
}

fn paren(ts: Vec<Token>) -> Token {
    Token::Group(Delim::Paren, ts)
}

fn attr(ts: Vec<Token>) -> Attr {
    Attr { tokens: ts }
}

fn simple_ty(name: &str) -> TypeShape {
    TypeShape::Path { segments: vec![name.to_string()], args: vec![] }
}

fn option_of(inner: &str) -> TypeShape {
    TypeShape::Path { segments: vec!["Option".to_string()], args: vec![simple_ty(inner)] }
}

fn named_field(name: &str, ty: TypeShape, attrs: Vec<Attr>) -> FieldModel {
    FieldModel { name: Some(name.to_string()), ty, attrs }
}

fn named_ref(name: &str) -> FieldRef {
    FieldRef::NamedField(name.to_string())
}

#[test]
fn test_unannotated_field_gets_public_defaults() {
    let f = named_field("value", simple_ty("String"), vec![]);
    let ms = generate_getter_setter(&f, None, true, true, true);
    let expected = vec![
        Method::Getter {
            name: "get_value".to_string(),
            vis: Visibility::Public,
            ret: RetShape::RefTo(simple_ty("String")),
            body: GetterBody::BorrowField,
            field: named_ref("value"),
        },
        Method::MutGetter {
            name: "get_mut_value".to_string(),
            vis: Visibility::Public,
            ret: RetShape::MutRefTo(simple_ty("String")),
            field: named_ref("value"),
        },
        Method::Setter {
            name: "set_value".to_string(),
            vis: Visibility::Public,
            param: SetterParam::Exact(simple_ty("String")),
            body: SetterBody::AssignDirect,
            field: named_ref("value"),
        },
    ];
    assert_eq!(ms, expected);
}

#[test]
fn test_get_skip_suppresses_only_the_getter() {
    let f = named_field(
        "value",
        simple_ty("String"),
        vec![attr(vec![ident("get"), paren(vec![ident("pub"), Token::Punct(','), ident("skip")])])],
    );
    let ms = generate_getter_setter(&f, None, true, true, true);
    let expected = vec![
        Method::MutGetter {
            name: "get_mut_value".to_string(),
            vis: Visibility::Public,
            ret: RetShape::MutRefTo(simple_ty("String")),
            field: named_ref("value"),
        },
        Method::Setter {
            name: "set_value".to_string(),
            vis: Visibility::Public,
            param: SetterParam::Exact(simple_ty("String")),
            body: SetterBody::AssignDirect,
            field: named_ref("value"),
        },
    ];
    assert_eq!(ms, expected);
}

#[test]
fn test_bare_skip_annotation_is_inert() {
    // An annotation that says skip without naming a method family
    // suppresses nothing: all defaults still appear.
    let f = named_field("value", simple_ty("bool"), vec![attr(vec![ident("skip")])]);
    let ms = generate_getter_setter(&f, None, true, true, true);
    assert_eq!(ms.len(), 3);
}

#[test]
fn test_first_configuration_per_kind_wins() {
    // Two getter annotations: the first claims the getter; the second's
    // visibility does not override it.
    let f = named_field(
        "value",
        simple_ty("u32"),
        vec![
            attr(vec![ident("get"), paren(vec![ident("pub"), paren(vec![ident("crate")])])]),
            attr(vec![ident("get"), paren(vec![ident("private")])]),
        ],
    );
    let ms = generate_getter_setter(&f, None, true, false, false);
    assert_eq!(ms.len(), 1);
    assert_eq!(
        ms[0],
        Method::Getter {
            name: "get_value".to_string(),
            vis: Visibility::PublicCrate,
            ret: RetShape::RefTo(simple_ty("u32")),
            body: GetterBody::BorrowField,
            field: named_ref("value"),
        },
    );
}

#[test]
fn test_getter_setter_chain_scenario() {
    // A `String` field with `get(pub)` and `set(pub)`: the getter
    // borrows the field, the setter takes the field's type and assigns
    // it directly (returning `&mut Self` for chaining by construction).
    let f = named_field(
        "name",
        simple_ty("String"),
        vec![
            attr(vec![ident("get"), paren(vec![ident("pub")])]),
            attr(vec![ident("set"), paren(vec![ident("pub")])]),
        ],
    );
    let ms = generate_getter_setter(&f, None, true, false, true);
    let expected = vec![
        Method::Getter {
            name: "get_name".to_string(),
            vis: Visibility::Public,
            ret: RetShape::RefTo(simple_ty("String")),
            body: GetterBody::BorrowField,
            field: named_ref("name"),
        },
        Method::Setter {
            name: "set_name".to_string(),
            vis: Visibility::Public,
            param: SetterParam::Exact(simple_ty("String")),
            body: SetterBody::AssignDirect,
            field: named_ref("name"),
        },
    ];
    assert_eq!(ms, expected);
}

#[test]
fn test_copy_getter_scenario() {
    // An `i32` field with `get(pub, copy)`: the getter returns the
    // value itself, not a reference, and repeated calls read the field
    // without consuming it.
    let f = named_field(
        "count",
        simple_ty("i32"),
        vec![attr(vec![ident("get"), paren(vec![ident("pub"), Token::Punct(','), ident("copy")])])],
    );
    let ms = generate_getter_setter(&f, None, true, false, false);
    assert_eq!(ms.len(), 1);
    assert_eq!(
        ms[0],
        Method::Getter {
            name: "get_count".to_string(),
            vis: Visibility::Public,
            ret: RetShape::Owned(simple_ty("i32")),
            body: GetterBody::CopyField,
            field: named_ref("count"),
        },
    );
}

#[test]
fn test_option_field_scenario() {
    // An `Option<String>` field with `get(pub)` and no strategy: the
    // primary getter unwraps a clone (and so panics on an absent
    // value); the companion accessor borrows the raw `Option`.
    let f = named_field(
        "email",
        option_of("String"),
        vec![attr(vec![ident("get"), paren(vec![ident("pub")])])],
    );
    let ms = generate_getter_setter(&f, None, true, false, false);
    let expected = vec![
        Method::Getter {
            name: "get_email".to_string(),
            vis: Visibility::Public,
            ret: RetShape::Owned(simple_ty("String")),
            body: GetterBody::CloneUnwrapField,
            field: named_ref("email"),
        },
        Method::TryGetter {
            name: "try_get_email".to_string(),
            vis: Visibility::Public,
            ret: RetShape::RefTo(option_of("String")),
            field: named_ref("email"),
        },
    ];
    assert_eq!(ms, expected);
}

#[test]
fn test_try_companion_for_every_strategy() {
    // The companion accessor appears for an `Option` field whatever
    // the primary getter's strategy is.
    for strategy in ["reference", "clone", "copy", "deref"] {
        let f = named_field(
            "maybe",
            option_of("u64"),
            vec![attr(vec![ident("get"), paren(vec![ident(strategy)])])],
        );
        let ms = generate_getter_setter(&f, None, true, false, false);
        assert_eq!(ms.len(), 2, "strategy {}", strategy);
        match &ms[1] {
            Method::TryGetter { name, ret, .. } => {
                assert_eq!(name, "try_get_maybe");
                assert_eq!(*ret, RetShape::RefTo(option_of("u64")));
            }
            other => panic!("expected the companion accessor, got {:?}", other),
        }
    }
}

#[test]
fn test_deref_strategy_bodies() {
    let box_ty = TypeShape::Path {
        segments: vec!["Box".to_string()],
        args: vec![simple_ty("u8")],
    };
    let f = named_field("boxed", box_ty, vec![attr(vec![ident("get"), paren(vec![ident("deref")])])]);
    let ms = generate_getter_setter(&f, None, true, false, false);
    assert_eq!(ms.len(), 1);
    match &ms[0] {
        Method::Getter { ret, body, .. } => {
            assert_eq!(*ret, RetShape::Owned(simple_ty("u8")));
            assert_eq!(*body, GetterBody::DerefMoveField);
        }
        other => panic!("expected a getter, got {:?}", other),
    }
    let rc_ty = TypeShape::Path {
        segments: vec!["Rc".to_string()],
        args: vec![simple_ty("String")],
    };
    let g = named_field("shared", rc_ty, vec![attr(vec![ident("get"), paren(vec![ident("deref")])])]);
    let ms2 = generate_getter_setter(&g, None, true, false, false);
    match &ms2[0] {
        Method::Getter { ret, body, .. } => {
            assert_eq!(*ret, RetShape::Owned(simple_ty("String")));
            assert_eq!(*body, GetterBody::CloneReferent);
        }
        other => panic!("expected a getter, got {:?}", other),
    }
}

#[test]
fn test_setter_conversion_strategies() {
    // `set(pub, type(AsRef<str>))` on a `String` field converts through
    // `impl AsRef<str>`.
    let f = named_field(
        "name",
        simple_ty("String"),
        vec![attr(vec![
            ident("set"),
            paren(vec![
                ident("pub"),
                Token::Punct(','),
                ident("type"),
                paren(vec![ident("AsRef"), Token::Punct('<'), ident("str"), Token::Punct('>')]),
            ]),
        ])],
    );
    let ms = generate_getter_setter(&f, None, false, false, true);
    assert_eq!(ms.len(), 1);
    assert_eq!(
        ms[0],
        Method::Setter {
            name: "set_name".to_string(),
            vis: Visibility::Public,
            param: SetterParam::ImplBound("AsRef<str>".to_string()),
            body: SetterBody::AssignAsRefOwned,
            field: named_ref("name"),
        },
    );
    // A bare `Into` keyword synthesizes the bound from the field type.
    let g = named_field(
        "value",
        simple_ty("i32"),
        vec![attr(vec![ident("set"), paren(vec![ident("pub"), Token::Punct(','), ident("Into")])])],
    );
    let ms2 = generate_getter_setter(&g, None, false, false, true);
    assert_eq!(
        ms2[0],
        Method::Setter {
            name: "set_value".to_string(),
            vis: Visibility::Public,
            param: SetterParam::ImplBound("Into<i32>".to_string()),
            body: SetterBody::AssignInto,
            field: named_ref("value"),
        },
    );
    // `AsRef` over a `Vec` field converts from a slice of the element
    // type.
    let vec_ty = TypeShape::Path {
        segments: vec!["Vec".to_string()],
        args: vec![simple_ty("u8")],
    };
    let h = named_field(
        "data",
        vec_ty,
        vec![attr(vec![ident("set"), paren(vec![ident("AsRef")])])],
    );
    let ms3 = generate_getter_setter(&h, None, false, false, true);
    match &ms3[0] {
        Method::Setter { param, body, .. } => {
            assert_eq!(*param, SetterParam::ImplBound("AsRef<[u8]>".to_string()));
            assert_eq!(*body, SetterBody::AssignAsRefOwned);
        }
        other => panic!("expected a setter, got {:?}", other),
    }
}

#[test]
fn test_tuple_field_accessors() {
    let f = FieldModel {
        name: None,
        ty: simple_ty("String"),
        attrs: vec![attr(vec![ident("get"), paren(vec![ident("pub")])])],
    };
    let ms = generate_getter_setter(&f, Some(0), true, true, true);
    assert_eq!(ms.len(), 3);
    match &ms[0] {
        Method::Getter { name, field, .. } => {
            assert_eq!(name, "get_0");
            assert_eq!(*field, FieldRef::IndexField(0));
        }
        other => panic!("expected a getter, got {:?}", other),
    }
    match &ms[1] {
        Method::MutGetter { name, .. } => assert_eq!(name, "get_mut_0"),
        other => panic!("expected a mutable getter, got {:?}", other),
    }
    match &ms[2] {
        Method::Setter { name, .. } => assert_eq!(name, "set_0"),
        other => panic!("expected a setter, got {:?}", other),
    }
}

#[test]
fn test_multi_digit_tuple_index() {
    let f = FieldModel { name: None, ty: simple_ty("u8"), attrs: vec![] };
    let ms = generate_getter_setter(&f, Some(12), true, false, false);
    match &ms[0] {
        Method::Getter { name, field, .. } => {
            assert_eq!(name, "get_12");
            assert_eq!(*field, FieldRef::IndexField(12));
        }
        other => panic!("expected a getter, got {:?}", other),
    }
}

#[test]
fn test_raw_identifier_name_is_cleaned() {
    assert_eq!(get_clean_attr_name("r#type"), "type");
    assert_eq!(get_clean_attr_name("plain"), "plain");
    let f = named_field("r#type", simple_ty("u8"), vec![]);
    let ms = generate_getter_setter(&f, None, true, false, false);
    match &ms[0] {
        Method::Getter { name, .. } => assert_eq!(name, "get_type"),
        other => panic!("expected a getter, got {:?}", other),
    }
}

#[test]
fn test_result_field_default_getter() {
    let result_ty = TypeShape::Path {
        segments: vec!["Result".to_string()],
        args: vec![simple_ty("i32"), TypeShape::Verbatim("&'static str".to_string())],
    };
    let f = named_field(
        "outcome",
        result_ty,
        vec![attr(vec![ident("get"), paren(vec![ident("pub")])])],
    );
    let ms = generate_getter_setter(&f, None, true, false, false);
    assert_eq!(ms.len(), 2);
    match &ms[0] {
        Method::Getter { ret, body, .. } => {
            assert_eq!(*ret, RetShape::Owned(simple_ty("i32")));
            assert_eq!(*body, GetterBody::CloneUnwrapField);
        }
        other => panic!("expected a getter, got {:?}", other),
    }
    match &ms[1] {
        Method::TryGetter { name, .. } => assert_eq!(name, "try_get_outcome"),
        other => panic!("expected the companion accessor, got {:?}", other),
    }
}

#[test]
fn test_nested_groups_parsed_with_same_accumulator() {
    // Configuration words wrapped in an extra bracket group still
    // reach the same configuration.
    let f = named_field(
        "value",
        simple_ty("u16"),
        vec![attr(vec![
            ident("get"),
            Token::Group(Delim::Bracket, vec![paren(vec![ident("private")])]),
        ])],
    );
    let ms = generate_getter_setter(&f, None, true, false, false);
    assert_eq!(ms.len(), 1);
    match &ms[0] {
        Method::Getter { vis, .. } => assert_eq!(*vis, Visibility::Private),
        other => panic!("expected a getter, got {:?}", other),
    }
}

#[test]
fn test_engine_is_deterministic() {
    let build = || {
        named_field(
            "value",
            option_of("String"),
            vec![attr(vec![
                ident("get"),
                paren(vec![ident("pub"), Token::Punct(','), ident("reference")]),
            ])],
        )
    };
    let first = generate_getter_setter(&build(), None, true, true, true);
    let second = generate_getter_setter(&build(), None, true, true, true);
    assert_eq!(first, second);
}
