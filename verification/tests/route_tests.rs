use route_codegen::decl::{Arg, Bound, FnDecl, ReturnType, TypeShape};
use route_codegen::emit::RouteChain;
use route_codegen::error::{Context, Error};
use route_codegen::route::{guess_resource_type, parse_meta_attrs, Args, GuardType, ResourceType};
use route_codegen::{delete, get, guard, handler, hook, post, put};

fn responder_fn(name: &str) -> FnDecl {
    FnDecl {
        name: name.to_string(),
        is_async: false,
        ret: ReturnType::Type(TypeShape::ImplTrait(vec![Bound::Trait(vec![
            "Responder".to_string(),
        ])])),
        attrs: vec![],
    }
}

fn future_fn(name: &str) -> FnDecl {
    FnDecl {
        name: name.to_string(),
        is_async: false,
        ret: ReturnType::Type(TypeShape::ImplTrait(vec![Bound::Trait(vec![
            "Future".to_string(),
        ])])),
        attrs: vec![],
    }
}

#[test]
fn test_body() {
    let args = vec![Arg::Path("/test".to_string())];
    let rc = get(&args, &responder_fn("test")).unwrap();
    assert_eq!(rc.handler, "test");
    assert_eq!(rc.path, "/test");
    assert_eq!(rc.method, GuardType::Get);
    assert_eq!(rc.dispatch, ResourceType::Sync);
    assert!(rc.guards.is_empty());

    let args = vec![Arg::Path("/test".to_string())];
    let rc = get(&args, &future_fn("auto_sync")).unwrap();
    assert_eq!(rc.handler, "auto_sync");
    assert_eq!(rc.path, "/test");
    assert_eq!(rc.method, GuardType::Get);
}

#[test]
fn test_async() {
    let args = vec![Arg::Path("/test".to_string()), Arg::Flag("async".to_string())];
    let rc = get(&args, &future_fn("async_test")).unwrap();
    assert_eq!(rc.path, "/test");
    assert_eq!(rc.dispatch, ResourceType::Async);
}

#[test]
fn test_auto_async() {
    let args = vec![Arg::Path("/test".to_string())];
    let rc = get(&args, &future_fn("auto_async")).unwrap();
    assert_eq!(rc.path, "/test");
    assert_eq!(rc.dispatch, ResourceType::Async);
}

#[test]
fn explicit_flag_overrides_return_type() {
    // An explicit asynchronous flag wins even over a respondable return type.
    let args = vec![Arg::Path("/r".to_string()), Arg::Flag("async".to_string())];
    let rc = post(&args, &responder_fn("r")).unwrap();
    assert_eq!(rc.dispatch, ResourceType::Async);
    assert_eq!(rc.method, GuardType::Post);
}

#[test]
fn async_marker_resolves_async() {
    let mut f = responder_fn("m");
    f.is_async = true;
    let args = vec![Arg::Path("/m".to_string())];
    let rc = put(&args, &f).unwrap();
    assert_eq!(rc.dispatch, ResourceType::Async);
    assert_eq!(rc.method, GuardType::Put);
}

#[test]
fn missing_return_type_fails() {
    let f = FnDecl {
        name: "bare".to_string(),
        is_async: false,
        ret: ReturnType::Default,
        attrs: vec![],
    };
    let args = vec![Arg::Path("/b".to_string())];
    assert_eq!(delete(&args, &f), Err(Error::NoReturnType("bare".to_string())));
}

#[test]
fn unknown_return_shape_defaults_sync() {
    let f = FnDecl {
        name: "odd".to_string(),
        is_async: false,
        ret: ReturnType::Type(TypeShape::Other),
        attrs: vec![],
    };
    let args = vec![Arg::Path("/o".to_string())];
    let rc = handler(&args, &f).unwrap();
    assert_eq!(rc.dispatch, ResourceType::Sync);
    assert_eq!(rc.method, GuardType::Unguarded);
}

#[test]
fn awaitable_bound_wins_in_mixed_bounds() {
    // The awaitable capability is checked before the respondable one, so an
    // awaitable vote settles asynchronous in either declaration order.
    let t = TypeShape::ImplTrait(vec![
        Bound::Trait(vec!["Future".to_string()]),
        Bound::Trait(vec!["Responder".to_string()]),
    ]);
    assert_eq!(guess_resource_type(&t), ResourceType::Async);
    let t = TypeShape::ImplTrait(vec![
        Bound::Trait(vec!["Responder".to_string()]),
        Bound::Trait(vec!["Future".to_string()]),
    ]);
    assert_eq!(guess_resource_type(&t), ResourceType::Async);
    let t = TypeShape::ImplTrait(vec![
        Bound::Other,
        Bound::Trait(vec!["Responder".to_string()]),
    ]);
    assert_eq!(guess_resource_type(&t), ResourceType::Sync);
}

#[test]
fn later_segments_vote_too() {
    let t = TypeShape::ImplTrait(vec![Bound::Trait(vec![
        "futures".to_string(),
        "Future".to_string(),
    ])]);
    assert_eq!(guess_resource_type(&t), ResourceType::Async);
}

#[test]
fn multiple_paths_fail() {
    let args = vec![Arg::Path("/a".to_string()), Arg::Path("/b".to_string())];
    assert_eq!(get(&args, &responder_fn("f")), Err(Error::MultiplePaths));
}

#[test]
fn unknown_flag_fails() {
    let args = vec![Arg::Path("/a".to_string()), Arg::Flag("sync".to_string())];
    assert_eq!(get(&args, &responder_fn("f")), Err(Error::UnknownFlag("sync".to_string())));
}

#[test]
fn unknown_key_fails_in_route_context() {
    let args = vec![
        Arg::Path("/a".to_string()),
        Arg::KeyValue("hook".to_string(), "h".to_string()),
    ];
    assert_eq!(
        get(&args, &responder_fn("f")),
        Err(Error::UnknownKey("hook".to_string(), Context::Route))
    );
    let allowed: Vec<String> = Context::Route.allowed_keys();
    assert_eq!(allowed, vec!["guard".to_string()]);
}

#[test]
fn guard_value_must_be_string() {
    let args = vec![Arg::Path("/a".to_string()), Arg::KeyOther("guard".to_string())];
    assert_eq!(get(&args, &responder_fn("f")), Err(Error::ValueNotString("guard".to_string())));
}

#[test]
fn unrecognized_token_fails() {
    let args = vec![Arg::Path("/a".to_string()), Arg::Other];
    assert_eq!(get(&args, &responder_fn("f")), Err(Error::UnknownAttribute));
}

#[test]
fn empty_args_fail() {
    let args: Vec<Arg> = vec![];
    assert_eq!(get(&args, &responder_fn("f")), Err(Error::EmptyArgs));
}

#[test]
fn missing_path_fails() {
    let args = vec![Arg::Flag("async".to_string())];
    assert_eq!(get(&args, &responder_fn("f")), Err(Error::MissingPath));
}

#[test]
fn empty_path_literal_fails() {
    // A path is a non-empty literal; an empty one supplies no path.
    let args = vec![Arg::Path(String::new())];
    assert_eq!(get(&args, &responder_fn("f")), Err(Error::MissingPath));
}

#[test]
fn extra_guards_keep_order() {
    let args = vec![
        Arg::Path("/g".to_string()),
        Arg::KeyValue("guard".to_string(), "g1".to_string()),
        Arg::KeyValue("guard".to_string(), "g2".to_string()),
    ];
    let rc = get(&args, &responder_fn("f")).unwrap();
    assert_eq!(rc.guards, vec!["g1".to_string(), "g2".to_string()]);
}

#[test]
fn keys_and_flags_fold_case() {
    let args = vec![
        Arg::Path("/c".to_string()),
        Arg::Flag("ASYNC".to_string()),
        Arg::KeyValue("Guard".to_string(), "g1".to_string()),
    ];
    let rc = get(&args, &responder_fn("f")).unwrap();
    assert_eq!(rc.dispatch, ResourceType::Async);
    assert_eq!(rc.guards, vec!["g1".to_string()]);
}

#[test]
fn route_transform_is_deterministic() {
    let mk_args = || {
        vec![
            Arg::Path("/d".to_string()),
            Arg::KeyValue("guard".to_string(), "g".to_string()),
        ]
    };
    let first = get(&mk_args(), &future_fn("f"));
    let second = get(&mk_args(), &future_fn("f"));
    assert_eq!(first, second);
}

#[test]
fn parse_meta_attrs_returns_parts() {
    let args = vec![
        Arg::Path("/p".to_string()),
        Arg::KeyValue("guard".to_string(), "g".to_string()),
    ];
    let (path, rt, guards) = parse_meta_attrs(&responder_fn("f"), &args).unwrap();
    assert_eq!(path, Some("/p".to_string()));
    assert_eq!(rt, ResourceType::Sync);
    assert_eq!(guards, vec!["g".to_string()]);
}

#[test]
fn args_model_generates_chain() {
    let args = vec![Arg::Path("/m".to_string())];
    let model = Args::new(&args, &responder_fn("h"), GuardType::Delete).unwrap();
    assert_eq!(model.name, "h");
    assert_eq!(model.path, "/m");
    assert_eq!(model.guard, GuardType::Delete);
    let rc: RouteChain = model.generate();
    assert_eq!(rc.handler, "h");
    assert_eq!(rc.path, "/m");
    assert_eq!(rc.method, GuardType::Delete);
}

#[test]
fn markers_pass_declarations_through() {
    let f = responder_fn("g");
    let g = guard(f);
    assert_eq!(g.name, "g");
    let f = responder_fn("h");
    let h = hook(f);
    assert_eq!(h.name, "h");
}

#[test]
fn dispatch_and_guard_render_names() {
    assert_eq!(ResourceType::Async.render(), "to_async");
    assert_eq!(ResourceType::Sync.render(), "to");
    assert_eq!(GuardType::Unguarded.render(), "Handler");
    assert_eq!(GuardType::Get.render(), "Get");
    assert_eq!(GuardType::Post.render(), "Post");
    assert_eq!(GuardType::Put.render(), "Put");
    assert_eq!(GuardType::Delete.render(), "Delete");
}
