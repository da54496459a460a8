use route_codegen::decl::{Arg, Attr, Bound, DeriveInput, Field, FnDecl, ImplBlock, Item, Meta,
    ReturnType, ScopeInput, TypeShape};
use route_codegen::emit::{RouteChain, ScopeOp};
use route_codegen::error::Error;
use route_codegen::parser_derive;
use route_codegen::route::{GuardType, ResourceType};

fn my_scope_aggregate() -> DeriveInput {
    DeriveInput {
        name: "MyScope".to_string(),
        attrs: vec![Meta::NameValueStr("path".to_string(), "/my_scope".to_string())],
        fields: vec![
            Field {
                name: "test".to_string(),
                attrs: vec![Meta::Word("service".to_string())],
            },
            Field {
                name: "guard".to_string(),
                attrs: vec![Meta::Word("guard".to_string())],
            },
        ],
    }
}

fn plain_method(name: &str) -> Item {
    Item::Fn(FnDecl {
        name: name.to_string(),
        is_async: false,
        ret: ReturnType::Type(TypeShape::Other),
        attrs: vec![],
    })
}

#[test]
fn test_my_scope() {
    // The aggregate's accessor: a scope at "/my_scope" fed from the
    // role-annotated fields, in field-declaration order.
    let accessor = parser_derive(&my_scope_aggregate()).unwrap();
    assert_eq!(accessor.name, "MyScope");
    let expected = vec![
        ScopeOp::Create("/my_scope".to_string()),
        ScopeOp::Service("test".to_string()),
        ScopeOp::Guard("guard".to_string()),
    ];
    assert_eq!(accessor.ops, expected);

    // The companion pass over the type's own methods.
    let items = vec![
        plain_method("new"),
        plain_method("init"),
        Item::Fn(FnDecl {
            name: "init_scope".to_string(),
            is_async: false,
            ret: ReturnType::Type(TypeShape::Other),
            attrs: vec![Attr { segs: vec!["hook".to_string()], args: vec![] }],
        }),
        plain_method("init_scope_unused"),
        Item::Fn(FnDecl {
            name: "test_async".to_string(),
            is_async: false,
            ret: ReturnType::Type(TypeShape::ImplTrait(vec![Bound::Trait(vec![
                "Future".to_string(),
            ])])),
            attrs: vec![Attr {
                segs: vec!["get".to_string()],
                args: vec![
                    Arg::Path("/test_async".to_string()),
                    Arg::Flag("async".to_string()),
                ],
            }],
        }),
        plain_method("default_resource"),
    ];
    let input = ScopeInput::Impl(ImplBlock { self_path: vec!["MyScope".to_string()], items });
    let r = route_codegen::scope(&vec![], &input).unwrap();
    assert_eq!(r.name, "MyScope");
    let expected = vec![
        ScopeOp::FromAccessor,
        ScopeOp::Hook("init".to_string()),
        ScopeOp::Hook("init_scope".to_string()),
        ScopeOp::Route(RouteChain {
            handler: "test_async".to_string(),
            path: "/test_async".to_string(),
            method: GuardType::Get,
            guards: vec![],
            dispatch: ResourceType::Async,
        }),
        ScopeOp::DefaultResource("default_resource".to_string()),
        ScopeOp::Register,
    ];
    assert_eq!(r.ops, expected);
}

#[test]
fn derive_path_defaults_to_root() {
    let d = DeriveInput { name: "Bare".to_string(), attrs: vec![], fields: vec![] };
    let r = parser_derive(&d).unwrap();
    assert_eq!(r.ops, vec![ScopeOp::Create("/".to_string())]);
}

#[test]
fn derive_second_path_fails() {
    let d = DeriveInput {
        name: "Twice".to_string(),
        attrs: vec![
            Meta::NameValueStr("path".to_string(), "/a".to_string()),
            Meta::NameValueStr("path".to_string(), "/b".to_string()),
        ],
        fields: vec![],
    };
    assert_eq!(parser_derive(&d), Err(Error::MultiplePaths));
}

#[test]
fn derive_path_value_must_be_string() {
    let d = DeriveInput {
        name: "Bad".to_string(),
        attrs: vec![Meta::NameValueOther("path".to_string())],
        fields: vec![],
    };
    assert_eq!(parser_derive(&d), Err(Error::PathAttrNotString));
}

#[test]
fn derive_path_needs_value() {
    let d = DeriveInput {
        name: "NoVal".to_string(),
        attrs: vec![Meta::Word("path".to_string())],
        fields: vec![],
    };
    assert_eq!(parser_derive(&d), Err(Error::PathAttrNoValue));
    let d = DeriveInput {
        name: "ListVal".to_string(),
        attrs: vec![Meta::List("path".to_string())],
        fields: vec![],
    };
    assert_eq!(parser_derive(&d), Err(Error::PathAttrNoValue));
}

#[test]
fn derive_service_attr_takes_no_value() {
    let d = DeriveInput {
        name: "SvcVal".to_string(),
        attrs: vec![],
        fields: vec![Field {
            name: "f".to_string(),
            attrs: vec![Meta::NameValueStr("service".to_string(), "x".to_string())],
        }],
    };
    assert_eq!(parser_derive(&d), Err(Error::ServiceAttrWithValue("f".to_string())));
}

#[test]
fn derive_guard_attr_takes_no_value() {
    let d = DeriveInput {
        name: "GrdVal".to_string(),
        attrs: vec![],
        fields: vec![Field {
            name: "g".to_string(),
            attrs: vec![Meta::List("guard".to_string())],
        }],
    };
    assert_eq!(parser_derive(&d), Err(Error::GuardAttrWithValue("g".to_string())));
}

#[test]
fn derive_keeps_field_declaration_order() {
    let d = DeriveInput {
        name: "Ordered".to_string(),
        attrs: vec![],
        fields: vec![
            Field { name: "s1".to_string(), attrs: vec![Meta::Word("service".to_string())] },
            Field { name: "g1".to_string(), attrs: vec![Meta::Word("guard".to_string())] },
            Field { name: "s2".to_string(), attrs: vec![Meta::Word("service".to_string())] },
            Field { name: "plain".to_string(), attrs: vec![] },
        ],
    };
    let r = parser_derive(&d).unwrap();
    let expected = vec![
        ScopeOp::Create("/".to_string()),
        ScopeOp::Service("s1".to_string()),
        ScopeOp::Service("s2".to_string()),
        ScopeOp::Guard("g1".to_string()),
    ];
    assert_eq!(r.ops, expected);
}

#[test]
fn derive_transform_is_deterministic() {
    let first = parser_derive(&my_scope_aggregate());
    let second = parser_derive(&my_scope_aggregate());
    assert_eq!(first, second);
}

#[test]
fn derive_unrelated_attrs_are_ignored() {
    let d = DeriveInput {
        name: "Extra".to_string(),
        attrs: vec![
            Meta::Word("doc".to_string()),
            Meta::NameValueStr("path".to_string(), "/e".to_string()),
            Meta::List("derive".to_string()),
        ],
        fields: vec![Field {
            name: "f".to_string(),
            attrs: vec![Meta::NameValueStr("serde".to_string(), "x".to_string())],
        }],
    };
    let r = parser_derive(&d).unwrap();
    assert_eq!(r.ops, vec![ScopeOp::Create("/e".to_string())]);
}
