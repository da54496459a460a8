use route_codegen::decl::{Arg, Attr, Bound, ConstBlock, ConstExpr, FnDecl, ImplBlock, Item,
    ReturnType, ScopeInput, TypeShape};
use route_codegen::emit::{RouteChain, ScopeOp};
use route_codegen::error::{Context, Error};
use route_codegen::route::{GuardType, ResourceType};
use route_codegen::scope::attr::ScopeItems;
use route_codegen::scope;

fn plain_fn(name: &str) -> FnDecl {
    FnDecl {
        name: name.to_string(),
        is_async: false,
        ret: ReturnType::Type(TypeShape::Other),
        attrs: vec![],
    }
}

fn attr_fn(name: &str, segs: Vec<&str>, args: Vec<Arg>, bound: &str) -> FnDecl {
    FnDecl {
        name: name.to_string(),
        is_async: false,
        ret: ReturnType::Type(TypeShape::ImplTrait(vec![Bound::Trait(vec![bound.to_string()])])),
        attrs: vec![Attr {
            segs: segs.into_iter().map(|s| s.to_string()).collect(),
            args,
        }],
    }
}

fn block_scope(name: &str, items: Vec<Item>) -> ScopeInput {
    ScopeInput::Block(ConstBlock { name: name.to_string(), body: ConstExpr::Block(items) })
}

#[test]
fn test_mod_inner() {
    let args = vec![
        Arg::Path("/scope".to_string()),
        Arg::KeyValue("hook".to_string(), "outer_init_scope".to_string()),
        Arg::KeyValue("handler".to_string(), "outer_test".to_string()),
    ];
    let items = vec![
        Item::Fn(attr_fn(
            "test",
            vec!["get"],
            vec![Arg::Path("/test".to_string())],
            "Responder",
        )),
        Item::Fn(attr_fn(
            "auto_sync",
            vec!["get"],
            vec![Arg::Path("/test_async".to_string())],
            "Future",
        )),
        Item::Fn(plain_fn("init")),
        Item::Fn(attr_fn("init_scope", vec!["hook"], vec![], "Responder")),
        Item::Fn(plain_fn("init_scope_unused")),
        Item::Fn(plain_fn("default_resource")),
    ];
    let r = scope::attr::Args::new(&args, &ConstBlock {
        name: "mod_inner".to_string(),
        body: ConstExpr::Block(items),
    })
    .unwrap();
    assert_eq!(r.name, "mod_inner");
    assert_eq!(r.path, "/scope");
    assert_eq!(r.items.hooks, vec!["outer_init_scope".to_string()]);
    assert_eq!(r.items.handlers, vec!["outer_test".to_string()]);
    assert_eq!(r.scope_items.hooks, vec!["init".to_string(), "init_scope".to_string()]);
    assert_eq!(r.scope_items.default, Some("default_resource".to_string()));

    let rendered = r.generate();
    let expected = vec![
        ScopeOp::Create("/scope".to_string()),
        ScopeOp::Hook("outer_init_scope".to_string()),
        ScopeOp::Hook("init".to_string()),
        ScopeOp::Hook("init_scope".to_string()),
        ScopeOp::Service("outer_test".to_string()),
        ScopeOp::Route(RouteChain {
            handler: "test".to_string(),
            path: "/test".to_string(),
            method: GuardType::Get,
            guards: vec![],
            dispatch: ResourceType::Sync,
        }),
        ScopeOp::Route(RouteChain {
            handler: "auto_sync".to_string(),
            path: "/test_async".to_string(),
            method: GuardType::Get,
            guards: vec![],
            dispatch: ResourceType::Async,
        }),
        ScopeOp::DefaultResource("default_resource".to_string()),
        ScopeOp::Register,
    ];
    assert_eq!(rendered.ops, expected);
}

#[test]
fn round_trip_scope_scenario() {
    // One GET handler and one plain `init` in a scope at "/scope": the plan
    // creates the scope, applies `init` as a hook, and attaches a nested
    // GET route at "/test" bound synchronously to `test`.
    let args = vec![Arg::Path("/scope".to_string())];
    let items = vec![
        Item::Fn(attr_fn(
            "test",
            vec!["get"],
            vec![Arg::Path("/test".to_string())],
            "Responder",
        )),
        Item::Fn(plain_fn("init")),
    ];
    let r = route_codegen::scope(&args, &block_scope("s", items)).unwrap();
    let expected = vec![
        ScopeOp::Create("/scope".to_string()),
        ScopeOp::Hook("init".to_string()),
        ScopeOp::Route(RouteChain {
            handler: "test".to_string(),
            path: "/test".to_string(),
            method: GuardType::Get,
            guards: vec![],
            dispatch: ResourceType::Sync,
        }),
        ScopeOp::Register,
    ];
    assert_eq!(r.ops, expected);
}

#[test]
fn ordering_hooks_guards_handlers_default() {
    // Argument-level hook H1 and body hook H2; argument guard G1 and body
    // guard G2: hooks come before guards, guards before attachments, the
    // default last before registration, and each category keeps input order.
    let args = vec![
        Arg::Path("/o".to_string()),
        Arg::KeyValue("hook".to_string(), "h1".to_string()),
        Arg::KeyValue("guard".to_string(), "g1".to_string()),
        Arg::KeyValue("handler".to_string(), "svc".to_string()),
    ];
    let items = vec![
        Item::Fn(attr_fn("g2", vec!["guard"], vec![], "Responder")),
        Item::Fn(attr_fn("h2", vec!["hook"], vec![], "Responder")),
        Item::Fn(plain_fn("default_resource")),
    ];
    let r = route_codegen::scope(&args, &block_scope("o", items)).unwrap();
    let expected = vec![
        ScopeOp::Create("/o".to_string()),
        ScopeOp::Hook("h1".to_string()),
        ScopeOp::Hook("h2".to_string()),
        ScopeOp::Guard("g1".to_string()),
        ScopeOp::Guard("g2".to_string()),
        ScopeOp::Service("svc".to_string()),
        ScopeOp::DefaultResource("default_resource".to_string()),
        ScopeOp::Register,
    ];
    assert_eq!(r.ops, expected);
}

#[test]
fn second_default_resource_fails() {
    let args = vec![Arg::Path("/d".to_string())];
    let items = vec![
        Item::Fn(plain_fn("default_resource")),
        Item::Fn(plain_fn("default_resource")),
    ];
    assert_eq!(
        route_codegen::scope(&args, &block_scope("d", items)),
        Err(Error::SecondDefaultResource)
    );
}

#[test]
fn unknown_key_names_key_and_allowed_set() {
    let args = vec![
        Arg::Path("/u".to_string()),
        Arg::KeyValue("foo".to_string(), "bar".to_string()),
    ];
    let r = route_codegen::scope(&args, &block_scope("u", vec![]));
    assert_eq!(r, Err(Error::UnknownKey("foo".to_string(), Context::Scope)));
    let allowed: Vec<String> = Context::Scope.allowed_keys();
    assert_eq!(
        allowed,
        vec!["guard".to_string(), "hook".to_string(), "handler".to_string()]
    );
}

#[test]
fn scope_transform_is_deterministic() {
    let build = || {
        let args = vec![
            Arg::Path("/det".to_string()),
            Arg::KeyValue("hook".to_string(), "h".to_string()),
        ];
        let items = vec![
            Item::Fn(attr_fn(
                "t",
                vec!["get"],
                vec![Arg::Path("/t".to_string())],
                "Future",
            )),
            Item::Fn(plain_fn("init")),
        ];
        route_codegen::scope(&args, &block_scope("det", items))
    };
    assert_eq!(build(), build());
}

#[test]
fn scope_needs_block_body() {
    let args = vec![Arg::Path("/b".to_string())];
    let input = ScopeInput::Block(ConstBlock {
        name: "b".to_string(),
        body: ConstExpr::Other,
    });
    assert_eq!(route_codegen::scope(&args, &input), Err(Error::ScopeNotBlock));
}

#[test]
fn scope_without_args_needs_impl_block() {
    let input = block_scope("x", vec![]);
    assert_eq!(route_codegen::scope(&vec![], &input), Err(Error::ExpectedImplInput));
}

#[test]
fn scope_with_args_needs_const_block() {
    let args = vec![Arg::Path("/y".to_string())];
    let input = ScopeInput::Impl(ImplBlock { self_path: vec!["Y".to_string()], items: vec![] });
    assert_eq!(route_codegen::scope(&args, &input), Err(Error::ExpectedBlockInput));
}

#[test]
fn scope_path_is_mandatory() {
    let args = vec![Arg::KeyValue("hook".to_string(), "h".to_string())];
    assert_eq!(
        route_codegen::scope(&args, &block_scope("p", vec![])),
        Err(Error::MissingPath)
    );
}

#[test]
fn scope_empty_path_literal_fails() {
    let args = vec![Arg::Path(String::new())];
    assert_eq!(
        route_codegen::scope(&args, &block_scope("e", vec![])),
        Err(Error::MissingPath)
    );
}

#[test]
fn nested_route_needs_path() {
    let args = vec![Arg::Path("/n".to_string())];
    let items = vec![Item::Fn(attr_fn("h", vec!["handler"], vec![], "Responder"))];
    assert_eq!(
        route_codegen::scope(&args, &block_scope("n", items)),
        Err(Error::MissingPath)
    );
}

#[test]
fn first_matching_annotation_wins() {
    let mut f = attr_fn("both", vec!["guard"], vec![], "Responder");
    f.attrs.push(Attr {
        segs: vec!["get".to_string()],
        args: vec![Arg::Path("/b".to_string())],
    });
    let si = ScopeItems::from_items(&vec![Item::Fn(f)]).unwrap();
    assert_eq!(si.guards, vec!["both".to_string()]);
    assert!(si.handlers.is_empty());
    assert!(si.routes.is_empty());
}

#[test]
fn reserved_names_beat_annotations() {
    // A function named `init` is a hook whatever it is annotated as.
    let f = attr_fn(
        "init",
        vec!["get"],
        vec![Arg::Path("/i".to_string())],
        "Responder",
    );
    let si = ScopeItems::from_items(&vec![Item::Fn(f)]).unwrap();
    assert_eq!(si.hooks, vec!["init".to_string()]);
    assert!(si.handlers.is_empty());
}

#[test]
fn unannotated_support_code_is_ignored() {
    let items = vec![Item::Fn(plain_fn("helper")), Item::Other];
    let si = ScopeItems::from_items(&items).unwrap();
    assert!(si.handlers.is_empty());
    assert!(si.guards.is_empty());
    assert!(si.hooks.is_empty());
    assert_eq!(si.default, None);
    assert!(si.routes.is_empty());
}

#[test]
fn generic_handler_mark_keeps_route_unguarded() {
    let args = vec![Arg::Path("/g".to_string())];
    let items = vec![Item::Fn(attr_fn(
        "any",
        vec!["handler"],
        vec![Arg::Path("/any".to_string())],
        "Responder",
    ))];
    let r = route_codegen::scope(&args, &block_scope("g", items)).unwrap();
    let route = r
        .ops
        .iter()
        .find_map(|op| match op {
            ScopeOp::Route(rc) => Some(rc.clone()),
            _ => None,
        })
        .unwrap();
    assert_eq!(route.method, GuardType::Unguarded);
}

#[test]
fn impl_scope_plan_starts_from_accessor() {
    let items = vec![
        Item::Fn(plain_fn("init")),
        Item::Fn(attr_fn(
            "t",
            vec!["get"],
            vec![Arg::Path("/t".to_string()), Arg::Flag("async".to_string())],
            "Future",
        )),
    ];
    let input = ScopeInput::Impl(ImplBlock { self_path: vec!["S".to_string()], items });
    let r = route_codegen::scope(&vec![], &input).unwrap();
    assert_eq!(r.name, "S");
    let expected = vec![
        ScopeOp::FromAccessor,
        ScopeOp::Hook("init".to_string()),
        ScopeOp::Route(RouteChain {
            handler: "t".to_string(),
            path: "/t".to_string(),
            method: GuardType::Get,
            guards: vec![],
            dispatch: ResourceType::Async,
        }),
        ScopeOp::Register,
    ];
    assert_eq!(r.ops, expected);
}

#[test]
fn impl_scope_self_type_must_be_one_segment() {
    let too_many = ImplBlock {
        self_path: vec!["a".to_string(), "B".to_string()],
        items: vec![],
    };
    assert_eq!(
        route_codegen::scope(&vec![], &ScopeInput::Impl(too_many)),
        Err(Error::TooManyTypeSegments)
    );
    let none = ImplBlock { self_path: vec![], items: vec![] };
    assert_eq!(
        route_codegen::scope(&vec![], &ScopeInput::Impl(none)),
        Err(Error::EmptyTypePath)
    );
}

#[test]
fn scope_empty_args_checked_in_arg_form() {
    // The argument-list generator itself also refuses an empty list.
    let cb = ConstBlock { name: "e".to_string(), body: ConstExpr::Block(vec![]) };
    assert_eq!(scope::attr::Args::new(&vec![], &cb), Err(Error::EmptyArgs));
}

#[test]
fn scope_guard_value_must_be_string() {
    let args = vec![Arg::Path("/v".to_string()), Arg::KeyOther("hook".to_string())];
    assert_eq!(
        route_codegen::scope(&args, &block_scope("v", vec![])),
        Err(Error::ValueNotString("hook".to_string()))
    );
}

#[test]
fn scope_multiple_paths_fail() {
    let args = vec![Arg::Path("/a".to_string()), Arg::Path("/b".to_string())];
    assert_eq!(
        route_codegen::scope(&args, &block_scope("m", vec![])),
        Err(Error::MultiplePaths)
    );
}

#[test]
fn nested_route_error_surfaces() {
    // A nested route with a malformed guard value fails the whole scope.
    let args = vec![Arg::Path("/s".to_string())];
    let items = vec![Item::Fn(attr_fn(
        "t",
        vec!["get"],
        vec![Arg::Path("/t".to_string()), Arg::KeyOther("guard".to_string())],
        "Responder",
    ))];
    assert_eq!(
        route_codegen::scope(&args, &block_scope("s", items)),
        Err(Error::ValueNotString("guard".to_string()))
    );
}

#[test]
fn nested_route_keeps_extra_guards() {
    let args = vec![Arg::Path("/s".to_string())];
    let items = vec![Item::Fn(attr_fn(
        "t",
        vec!["get"],
        vec![
            Arg::Path("/t".to_string()),
            Arg::KeyValue("guard".to_string(), "ga".to_string()),
            Arg::KeyValue("guard".to_string(), "gb".to_string()),
        ],
        "Responder",
    ))];
    let r = route_codegen::scope(&args, &block_scope("s", items)).unwrap();
    let route = r
        .ops
        .iter()
        .find_map(|op| match op {
            ScopeOp::Route(rc) => Some(rc.clone()),
            _ => None,
        })
        .unwrap();
    assert_eq!(route.guards, vec!["ga".to_string(), "gb".to_string()]);
}
