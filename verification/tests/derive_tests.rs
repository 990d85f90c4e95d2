//! Tests of whole-definition synthesis: accessor blocks over several
//! fields with `reference` and `clone` strategies, constructors, debug
//! implementations and display shims.

use lombok_core::data;
use lombok_core::debug::{inner_custom_debug, inner_display_debug, inner_display_debug_format};
use lombok_core::generate::{generate_constructor, inner_lombok_data};
use lombok_core::input::{
    DataModel, FieldModel, FieldsModel, GenericParamModel, InputModel, VariantModel,
};
use lombok_core::method::{
    CtorInit, CtorParam, DebugArm, DebugBody, GetterBody, Method, RetShape,
};
use lombok_core::parse::parse_new_visibility;
use lombok_core::shape::TypeShape;
use lombok_core::token::{Attr, Delim, Token};
use lombok_core::visibility::Visibility;

fn ident(s: &str) -> Token {
    Token::Ident(s.to_string())
}

fn paren(ts: Vec<Token>) -> Token {
    Token::Group(Delim::Paren, ts)
}

fn attr(ts: Vec<Token>) -> Attr {
    Attr { tokens: ts }
}

fn simple_ty(name: &str) -> TypeShape {
    TypeShape::Path { segments: vec![name.to_string()], args: vec![] }
}

fn option_of(inner: &str) -> TypeShape {
    TypeShape::Path { segments: vec!["Option".to_string()], args: vec![simple_ty(inner)] }
}

fn vec_of(inner: &str) -> TypeShape {
    TypeShape::Path { segments: vec!["Vec".to_string()], args: vec![simple_ty(inner)] }
}

fn named_field(name: &str, ty: TypeShape, attrs: Vec<Attr>) -> FieldModel {
    FieldModel { name: Some(name.to_string()), ty, attrs }
}

fn get_attr(words: Vec<Token>) -> Attr {
    attr(vec![ident("get"), paren(words)])
}

fn struct_input(name: &str, fields: Vec<FieldModel>, attrs: Vec<Attr>) -> InputModel {
    InputModel {
        name: name.to_string(),
        generics: vec![],
        where_clause: None,
        attrs,
        data: DataModel::StructData(FieldsModel::Named(fields)),
    }
}

fn getter_of<'a>(ms: &'a [Method], name: &str) -> (&'a RetShape, GetterBody, Visibility) {
    for m in ms {
        if let Method::Getter { name: n, vis, ret, body, .. } = m {
            if n == name {
                return (ret, *body, *vis);
            }
        }
    }
    panic!("no getter named {}", name);
}

#[test]
fn test_reference_clone_getters() {
    let input = struct_input(
        "TestStruct",
        vec![
            named_field("field_ref", simple_ty("String"), vec![get_attr(vec![
                ident("pub"),
                Token::Punct(','),
                ident("reference"),
            ])]),
            named_field("field_clone", simple_ty("String"), vec![get_attr(vec![
                ident("pub"),
                Token::Punct(','),
                ident("clone"),
            ])]),
            named_field("field_default", simple_ty("String"), vec![get_attr(vec![ident("pub")])]),
            named_field("optional_ref", option_of("String"), vec![get_attr(vec![
                ident("pub"),
                Token::Punct(','),
                ident("reference"),
            ])]),
            named_field("optional_clone", option_of("String"), vec![get_attr(vec![
                ident("pub"),
                Token::Punct(','),
                ident("clone"),
            ])]),
        ],
        vec![],
    );
    let block = inner_lombok_data(&input, true, false, false).expect("a struct");
    // reference getter: borrows the String
    let (ret, body, _) = getter_of(&block.methods, "get_field_ref");
    assert_eq!(*ret, RetShape::RefTo(simple_ty("String")));
    assert_eq!(body, GetterBody::BorrowField);
    // clone getter: owns a String
    let (ret, body, _) = getter_of(&block.methods, "get_field_clone");
    assert_eq!(*ret, RetShape::Owned(simple_ty("String")));
    assert_eq!(body, GetterBody::CloneField);
    // default getter over a plain type: borrows
    let (ret, body, _) = getter_of(&block.methods, "get_field_default");
    assert_eq!(*ret, RetShape::RefTo(simple_ty("String")));
    assert_eq!(body, GetterBody::BorrowField);
    // reference getter over an Option: borrows the whole Option
    let (ret, _, _) = getter_of(&block.methods, "get_optional_ref");
    assert_eq!(*ret, RetShape::RefTo(option_of("String")));
    // clone getter over an Option: owns the whole Option
    let (ret, _, _) = getter_of(&block.methods, "get_optional_clone");
    assert_eq!(*ret, RetShape::Owned(option_of("String")));
}

#[test]
fn test_return_type_behavior() {
    let build = || {
        struct_input(
            "TestStruct",
            vec![
                named_field("field_ref", simple_ty("String"), vec![get_attr(vec![
                    ident("pub"),
                    Token::Punct(','),
                    ident("reference"),
                ])]),
                named_field("field_clone", simple_ty("String"), vec![get_attr(vec![
                    ident("pub"),
                    Token::Punct(','),
                    ident("clone"),
                ])]),
            ],
            vec![],
        )
    };
    let block = inner_lombok_data(&build(), true, false, false).expect("a struct");
    // The reference getter hands out the field's own storage; the
    // clone getter produces an owned value each call.
    let (_, body_ref, _) = getter_of(&block.methods, "get_field_ref");
    assert_eq!(body_ref, GetterBody::BorrowField);
    let (_, body_clone, _) = getter_of(&block.methods, "get_field_clone");
    assert_eq!(body_clone, GetterBody::CloneField);
    // Generation itself is repeatable: a second run over the same
    // definition emits the same block.
    let again = inner_lombok_data(&build(), true, false, false).expect("a struct");
    assert_eq!(block, again);
}

#[test]
fn test_comprehensive_reference_clone() {
    let input = struct_input(
        "ComprehensiveTestStruct",
        vec![
            named_field("name_ref", simple_ty("String"), vec![get_attr(vec![
                ident("pub"),
                Token::Punct(','),
                ident("reference"),
            ])]),
            named_field("name_clone", simple_ty("String"), vec![get_attr(vec![
                ident("pub"),
                Token::Punct(','),
                ident("clone"),
            ])]),
            named_field("optional_string_ref", option_of("String"), vec![get_attr(vec![
                ident("pub"),
                Token::Punct(','),
                ident("reference"),
            ])]),
            named_field("optional_string_clone", option_of("String"), vec![get_attr(vec![
                ident("pub"),
                Token::Punct(','),
                ident("clone"),
            ])]),
            named_field("vec_ref", vec_of("i32"), vec![get_attr(vec![
                ident("pub"),
                Token::Punct(','),
                ident("reference"),
            ])]),
            named_field("vec_clone", vec_of("i32"), vec![get_attr(vec![
                ident("pub"),
                Token::Punct(','),
                ident("clone"),
            ])]),
            named_field("_crate_ref", simple_ty("String"), vec![get_attr(vec![
                ident("pub"),
                paren(vec![ident("crate")]),
                Token::Punct(','),
                ident("reference"),
            ])]),
            named_field("_private_clone", simple_ty("String"), vec![get_attr(vec![
                ident("private"),
                Token::Punct(','),
                ident("clone"),
            ])]),
        ],
        vec![],
    );
    let block = inner_lombok_data(&input, true, false, false).expect("a struct");
    let (ret, _, _) = getter_of(&block.methods, "get_name_ref");
    assert_eq!(*ret, RetShape::RefTo(simple_ty("String")));
    let (ret, _, _) = getter_of(&block.methods, "get_name_clone");
    assert_eq!(*ret, RetShape::Owned(simple_ty("String")));
    let (ret, _, _) = getter_of(&block.methods, "get_optional_string_ref");
    assert_eq!(*ret, RetShape::RefTo(option_of("String")));
    let (ret, _, _) = getter_of(&block.methods, "get_optional_string_clone");
    assert_eq!(*ret, RetShape::Owned(option_of("String")));
    let (ret, _, _) = getter_of(&block.methods, "get_vec_ref");
    assert_eq!(*ret, RetShape::RefTo(vec_of("i32")));
    let (ret, _, _) = getter_of(&block.methods, "get_vec_clone");
    assert_eq!(*ret, RetShape::Owned(vec_of("i32")));
    let (_, _, vis) = getter_of(&block.methods, "get__crate_ref");
    assert_eq!(vis, Visibility::PublicCrate);
    let (_, _, vis) = getter_of(&block.methods, "get__private_clone");
    assert_eq!(vis, Visibility::Private);
}

#[test]
fn test_default_behavior() {
    let input = struct_input(
        "TestDefaultBehavior",
        vec![
            named_field("default_field", simple_ty("String"), vec![get_attr(vec![ident("pub")])]),
            named_field("default_option", option_of("String"), vec![get_attr(vec![ident("pub")])]),
        ],
        vec![],
    );
    let block = inner_lombok_data(&input, true, false, false).expect("a struct");
    // Default over a plain type: a reference.
    let (ret, body, _) = getter_of(&block.methods, "get_default_field");
    assert_eq!(*ret, RetShape::RefTo(simple_ty("String")));
    assert_eq!(body, GetterBody::BorrowField);
    // Default over an Option: the cloned, unwrapped inner value.
    let (ret, body, _) = getter_of(&block.methods, "get_default_option");
    assert_eq!(*ret, RetShape::Owned(simple_ty("String")));
    assert_eq!(body, GetterBody::CloneUnwrapField);
    // The panic-free companion accompanies it.
    assert!(block.methods.iter().any(|m| matches!(
        m,
        Method::TryGetter { name, .. } if name == "try_get_default_option"
    )));
}

#[test]
fn test_non_struct_is_rejected() {
    let input = InputModel {
        name: "Choice".to_string(),
        generics: vec![],
        where_clause: None,
        attrs: vec![],
        data: DataModel::EnumData(vec![VariantModel {
            name: "A".to_string(),
            fields: FieldsModel::Unit,
        }]),
    };
    let err = inner_lombok_data(&input, true, true, true).expect_err("an enum");
    assert_eq!(err, "#[derive(Lombok)] is only supported for structs.");
    let err2 = generate_constructor(&input).expect_err("an enum");
    assert_eq!(err2, "#[derive(Lombok)] is only supported for structs.");
}

#[test]
fn test_constructor_skips_designated_fields() {
    let input = struct_input(
        "Account",
        vec![
            named_field("id", simple_ty("u64"), vec![]),
            named_field(
                "description",
                simple_ty("String"),
                vec![attr(vec![ident("new"), paren(vec![ident("skip")])])],
            ),
        ],
        vec![],
    );
    let ctor = generate_constructor(&input).expect("a struct");
    assert_eq!(ctor.vis, Visibility::Public);
    assert!(ctor.named_fields);
    assert_eq!(
        ctor.params,
        vec![CtorParam { name: "id".to_string(), ty: simple_ty("u64") }],
    );
    assert_eq!(
        ctor.inits,
        vec![CtorInit::FromParam("id".to_string()), CtorInit::DefaultInit("description".to_string())],
    );
}

#[test]
fn test_constructor_visibility_directive() {
    let fields = || vec![named_field("name", simple_ty("String"), vec![])];
    let private_input = struct_input(
        "PrivatePerson",
        fields(),
        vec![attr(vec![ident("new"), paren(vec![ident("private")])])],
    );
    assert_eq!(parse_new_visibility(&private_input), Visibility::Private);
    let ctor = generate_constructor(&private_input).expect("a struct");
    assert_eq!(ctor.vis, Visibility::Private);
    let crate_input = struct_input(
        "CratePerson",
        fields(),
        vec![attr(vec![ident("new"), paren(vec![ident("pub"), paren(vec![ident("crate")])])])],
    );
    assert_eq!(parse_new_visibility(&crate_input), Visibility::PublicCrate);
    let plain_input = struct_input("Person", fields(), vec![]);
    assert_eq!(parse_new_visibility(&plain_input), Visibility::Public);
}

#[test]
fn test_tuple_constructor_names_positional_params() {
    let input = InputModel {
        name: "TuplePoint".to_string(),
        generics: vec![],
        where_clause: None,
        attrs: vec![],
        data: DataModel::StructData(FieldsModel::Unnamed(vec![
            FieldModel { name: None, ty: simple_ty("i64"), attrs: vec![] },
            FieldModel {
                name: None,
                ty: simple_ty("i64"),
                attrs: vec![attr(vec![ident("new"), paren(vec![ident("skip")])])],
            },
            FieldModel { name: None, ty: simple_ty("i64"), attrs: vec![] },
        ])),
    };
    let ctor = generate_constructor(&input).expect("a struct");
    assert!(!ctor.named_fields);
    assert_eq!(
        ctor.params,
        vec![
            CtorParam { name: "field_0".to_string(), ty: simple_ty("i64") },
            CtorParam { name: "field_2".to_string(), ty: simple_ty("i64") },
        ],
    );
    assert_eq!(
        ctor.inits,
        vec![
            CtorInit::FromParam("field_0".to_string()),
            CtorInit::DefaultInit("field_1".to_string()),
            CtorInit::FromParam("field_2".to_string()),
        ],
    );
}

#[test]
fn test_debug_skip_omits_field() {
    let input = struct_input(
        "User",
        vec![
            named_field("name", simple_ty("String"), vec![]),
            named_field(
                "password",
                simple_ty("String"),
                vec![attr(vec![ident("debug"), paren(vec![ident("skip")])])],
            ),
            named_field("email", simple_ty("String"), vec![]),
        ],
        vec![],
    );
    let dbg = inner_custom_debug(&input).expect("not a union");
    assert_eq!(
        dbg.body,
        DebugBody::StructBody(vec!["name".to_string(), "email".to_string()]),
    );
}

#[test]
fn test_enum_debug_with_skipped_variant_field() {
    // A struct-like variant with one skipped field: the arm binds all
    // fields but shows only the others.
    let input = InputModel {
        name: "Response".to_string(),
        generics: vec![],
        where_clause: None,
        attrs: vec![],
        data: DataModel::EnumData(vec![
            VariantModel {
                name: "Success".to_string(),
                fields: FieldsModel::Named(vec![named_field("payload", simple_ty("String"), vec![])]),
            },
            VariantModel {
                name: "Failure".to_string(),
                fields: FieldsModel::Named(vec![
                    named_field("message", simple_ty("String"), vec![]),
                    named_field(
                        "internal_code",
                        simple_ty("u32"),
                        vec![attr(vec![ident("debug"), paren(vec![ident("skip")])])],
                    ),
                ]),
            },
            VariantModel {
                name: "Pair".to_string(),
                fields: FieldsModel::Unnamed(vec![
                    FieldModel { name: None, ty: simple_ty("u8"), attrs: vec![] },
                    FieldModel {
                        name: None,
                        ty: simple_ty("u8"),
                        attrs: vec![attr(vec![ident("debug"), paren(vec![ident("skip")])])],
                    },
                ]),
            },
            VariantModel { name: "Empty".to_string(), fields: FieldsModel::Unit },
        ]),
    };
    let dbg = inner_custom_debug(&input).expect("not a union");
    let expected = DebugBody::EnumBody(vec![
        DebugArm::NamedArm {
            variant: "Success".to_string(),
            bound: vec!["payload".to_string()],
            shown: vec!["payload".to_string()],
        },
        DebugArm::NamedArm {
            variant: "Failure".to_string(),
            bound: vec!["message".to_string(), "internal_code".to_string()],
            shown: vec!["message".to_string()],
        },
        DebugArm::TupleArm { variant: "Pair".to_string(), arity: 2, shown: vec![0] },
        DebugArm::UnitArm { variant: "Empty".to_string() },
    ]);
    assert_eq!(dbg.body, expected);
}

#[test]
fn test_unit_struct_gets_no_methods() {
    let input = InputModel {
        name: "Marker".to_string(),
        generics: vec![],
        where_clause: None,
        attrs: vec![],
        data: DataModel::StructData(FieldsModel::Unit),
    };
    let block = data(&input).expect("a struct");
    assert!(block.methods.is_empty());
    let ctor = generate_constructor(&input).expect("a struct");
    assert!(ctor.params.is_empty());
    assert!(ctor.inits.is_empty());
}

#[test]
fn test_union_debug_is_rejected() {
    let input = InputModel {
        name: "Raw".to_string(),
        generics: vec![],
        where_clause: None,
        attrs: vec![],
        data: DataModel::UnionData,
    };
    let err = inner_custom_debug(&input).expect_err("a union");
    assert_eq!(err, "Debug derive is not supported for unions");
}

#[test]
fn test_display_shims_and_generics_carry_over() {
    let input = InputModel {
        name: "Wrapper".to_string(),
        generics: vec![
            GenericParamModel::LifetimeParam("'a".to_string()),
            GenericParamModel::TypeParamDecl {
                name: "T".to_string(),
                bounds: Some("Clone + Debug".to_string()),
            },
        ],
        where_clause: Some("T: Send".to_string()),
        attrs: vec![],
        data: DataModel::StructData(FieldsModel::Named(vec![named_field(
            "inner",
            simple_ty("T"),
            vec![],
        )])),
    };
    let plain = inner_display_debug(&input);
    assert!(!plain.detailed);
    let detailed = inner_display_debug_format(&input);
    assert!(detailed.detailed);
    assert_eq!(plain.header.target_name, "Wrapper");
    assert_eq!(plain.header.lifetimes, vec!["'a".to_string()]);
    assert_eq!(plain.header.type_params.len(), 1);
    assert_eq!(plain.header.type_params[0].name, "T");
    assert_eq!(plain.header.type_params[0].bounds.as_deref(), Some("Clone + Debug"));
    assert_eq!(plain.header.where_clause.as_deref(), Some("T: Send"));
    // The accessor block carries the same generic context.
    let block = data(&input).expect("a struct");
    assert_eq!(block.header.target_name, "Wrapper");
    assert_eq!(block.header.lifetimes, vec!["'a".to_string()]);
    assert_eq!(block.header.where_clause.as_deref(), Some("T: Send"));
}
