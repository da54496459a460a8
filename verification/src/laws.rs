//! The laws the transformer keeps, each proved from the specifications its
//! public functions are verified against.

use vstd::prelude::*;
use crate::args::{all_keys_recognized, empty_parse, key_recognized, parse_args_rec, path_count,
    spec_parse_args, ParsedArgsView};
use crate::decl::{ArgView, ConstBlockView, ConstExprView, DeriveInputView, FnDeclView, ItemView,
    ReturnTypeView, ScopeInputView, TypeShapeView, BoundView};
use crate::error::{Context, ErrorView};
use crate::route::{bound_verdict, guess_rec, spec_resolve, GuardType, ResourceType};
use crate::scope::attr::{classify_rec, empty_lists, impl_scope_ops, scope_ops,
    spec_classify, spec_from_items, spec_scope_new, Classified, ClassListsView, ImplScopeView,
    ScopeArgsView};
use crate::emit::{default_ops, guard_ops, hook_ops, route_ops, service_ops, ScopeOpView};

verus! {

// ---------------------------------------------------------------------------
// Determinism
// ---------------------------------------------------------------------------

/// The transformation is a pure function of its input declarations: equal
/// route inputs yield equal plans.
pub proof fn lemma_route_deterministic(
    args1: Seq<ArgView>,
    args2: Seq<ArgView>,
    f1: FnDeclView,
    f2: FnDeclView,
    g1: GuardType,
    g2: GuardType,
)
    requires
        args1 == args2,
        f1 == f2,
        g1 == g2,
    ensures
        crate::spec_route(args1, f1, g1) == crate::spec_route(args2, f2, g2),
{
}

/// Equal scope inputs yield equal plans.
pub proof fn lemma_scope_deterministic(
    args1: Seq<ArgView>,
    args2: Seq<ArgView>,
    in1: ScopeInputView,
    in2: ScopeInputView,
)
    requires
        args1 == args2,
        in1 == in2,
    ensures
        crate::spec_scope(args1, in1) == crate::spec_scope(args2, in2),
{
}

/// Equal aggregates yield equal accessor plans.
pub proof fn lemma_derive_deterministic(d1: DeriveInputView, d2: DeriveInputView)
    requires
        d1 == d2,
    ensures
        crate::spec_parser_derive(d1) == crate::spec_parser_derive(d2),
{
}

// ---------------------------------------------------------------------------
// Path uniqueness
// ---------------------------------------------------------------------------

proof fn lemma_parse_rec_paths(ctx: Context, args: Seq<ArgView>, st: ParsedArgsView)
    requires
        path_count(args) + (if st.path is Some {
            1int
        } else {
            0int
        }) >= 2,
    ensures
        parse_args_rec(ctx, args, st).is_err(),
    decreases args.len(),
{
    if args.len() == 0 {
    } else {
        match args[0] {
            ArgView::Path(p) => {
                if st.path is Some {
                } else if p.len() == 0 {
                } else {
                    lemma_parse_rec_paths(
                        ctx,
                        args.drop_first(),
                        ParsedArgsView { path: Some(p), ..st },
                    );
                }
            },
            _ => {
                match crate::args::parse_step(ctx, st, args[0]) {
                    Ok(st2) => {
                        assert(st2.path == st.path);
                        lemma_parse_rec_paths(ctx, args.drop_first(), st2);
                    },
                    Err(_) => {},
                }
            },
        }
    }
}

/// Two bare path literals in one argument list fail the parse, whatever else
/// the list holds.
pub proof fn lemma_multiple_paths_rejected(ctx: Context, args: Seq<ArgView>)
    requires
        path_count(args) >= 2,
    ensures
        spec_parse_args(ctx, args).is_err(),
{
    lemma_parse_rec_paths(ctx, args, empty_parse());
}

/// A route invocation with two path literals emits nothing.
pub proof fn lemma_route_multiple_paths(args: Seq<ArgView>, f: FnDeclView, g: GuardType)
    requires
        path_count(args) >= 2,
    ensures
        crate::spec_route(args, f, g).is_err(),
{
    lemma_multiple_paths_rejected(Context::Route, args);
}

/// A scope invocation with two path literals emits nothing.
pub proof fn lemma_scope_multiple_paths(args: Seq<ArgView>, input: ScopeInputView)
    requires
        path_count(args) >= 2,
    ensures
        crate::spec_scope(args, input).is_err(),
{
    assert(args.len() >= 1);
    lemma_multiple_paths_rejected(Context::Scope, args);
}

// ---------------------------------------------------------------------------
// Default-handler uniqueness
// ---------------------------------------------------------------------------

/// How many declarations of a body carry the reserved default-handler name.
pub open spec fn default_count(items: Seq<ItemView>) -> nat
    decreases items.len(),
{
    if items.len() == 0 {
        0
    } else {
        (match items[0] {
            ItemView::Fn(f) => if f.name == "default_resource"@ {
                1nat
            } else {
                0nat
            },
            ItemView::Other => 0nat,
        }) + default_count(items.drop_first())
    }
}

proof fn lemma_attrs_class_not_default(attrs: Seq<crate::decl::AttrView>)
    ensures
        crate::scope::attr::attrs_class(attrs) != Classified::DefaultRes,
    decreases attrs.len(),
{
    if attrs.len() == 0 {
    } else {
        match crate::scope::attr::segs_role(attrs[0].segs) {
            Some(_) => {},
            None => {
                lemma_attrs_class_not_default(attrs.drop_first());
            },
        }
    }
}

proof fn lemma_classify_rec_default(items: Seq<ItemView>, acc: ClassListsView)
    ensures
        classify_rec(items, acc).is_err() <==> default_count(items) + (if acc.default is Some {
            1int
        } else {
            0int
        }) >= 2,
        classify_rec(items, acc).is_err() ==> classify_rec(items, acc) == Err::<
            ClassListsView,
            ErrorView,
        >(ErrorView::SecondDefaultResource),
    decreases items.len(),
{
    if items.len() == 0 {
    } else {
        match items[0] {
            ItemView::Fn(f) => {
                match crate::scope::attr::class_step(acc, f) {
                    Ok(a2) => {
                        lemma_attrs_class_not_default(f.attrs);
                        assert(a2.default is Some <==> (acc.default is Some || f.name
                            == "default_resource"@));
                        lemma_classify_rec_default(items.drop_first(), a2);
                    },
                    Err(_) => {
                        lemma_attrs_class_not_default(f.attrs);
                    },
                }
            },
            ItemView::Other => {
                lemma_classify_rec_default(items.drop_first(), acc);
            },
        }
    }
}

/// The classifier fails exactly when a body holds two declarations named as
/// the default handler, and then with the second-default error.
pub proof fn lemma_default_uniqueness(items: Seq<ItemView>)
    ensures
        spec_classify(items).is_err() <==> default_count(items) >= 2,
        default_count(items) >= 2 ==> spec_classify(items) == Err::<ClassListsView, ErrorView>(
            ErrorView::SecondDefaultResource,
        ),
{
    lemma_classify_rec_default(items, empty_lists());
}

/// A body with two default handlers fails the whole scope with the
/// second-default error, before any route of the body is looked at.
pub proof fn lemma_scope_default_uniqueness(args: Seq<ArgView>, cb: ConstBlockView)
    requires
        args.len() > 0,
        cb.body matches ConstExprView::Block(items) && default_count(items) >= 2,
    ensures
        spec_scope_new(args, cb) == Err::<ScopeArgsView, ErrorView>(
            ErrorView::SecondDefaultResource,
        ),
{
    let items = cb.body->Block_0;
    lemma_default_uniqueness(items);
    assert(spec_from_items(items) == Err::<crate::scope::attr::ScopeItemsView, ErrorView>(
        ErrorView::SecondDefaultResource,
    ));
}

// ---------------------------------------------------------------------------
// Dispatch resolution
// ---------------------------------------------------------------------------

/// An explicit dispatch flag always wins, whatever the return type says.
pub proof fn lemma_dispatch_explicit(
    rt: ResourceType,
    is_async: bool,
    ret: ReturnTypeView,
    name: Seq<char>,
)
    ensures
        spec_resolve(Some(rt), is_async, ret, name) == Ok::<ResourceType, ErrorView>(rt),
{
}

/// A function's own asynchronous marker settles asynchronous dispatch when
/// no flag overrides it.
pub proof fn lemma_dispatch_async_marker(ret: ReturnTypeView, name: Seq<char>)
    ensures
        spec_resolve(None, true, ret, name) == Ok::<ResourceType, ErrorView>(
            ResourceType::Async,
        ),
{
}

/// A handler without flag, marker or return type is refused: it owes a
/// response.
pub proof fn lemma_dispatch_missing_return(name: Seq<char>)
    ensures
        spec_resolve(None, false, ReturnTypeView::Default, name) == Err::<
            ResourceType,
            ErrorView,
        >(ErrorView::NoReturnType(name)),
{
}

proof fn lemma_guess_rec_awaitable(bounds: Seq<BoundView>)
    requires
        exists|i: int| 0 <= i < bounds.len() && bound_verdict(#[trigger] bounds[i]) == Some(
            ResourceType::Async,
        ),
    ensures
        guess_rec(bounds) == ResourceType::Async,
    decreases bounds.len(),
{
    if bound_verdict(bounds[0]) == Some(ResourceType::Async) {
    } else {
        let w = choose|i: int|
            0 <= i < bounds.len() && bound_verdict(#[trigger] bounds[i]) == Some(
                ResourceType::Async,
            );
        assert(w >= 1);
        assert(bounds.drop_first()[w - 1] == bounds[w]);
        lemma_guess_rec_awaitable(bounds.drop_first());
    }
}

proof fn lemma_guess_rec_no_awaitable(bounds: Seq<BoundView>)
    requires
        forall|i: int| 0 <= i < bounds.len() ==> bound_verdict(#[trigger] bounds[i]) != Some(
            ResourceType::Async,
        ),
    ensures
        guess_rec(bounds) == ResourceType::Sync,
    decreases bounds.len(),
{
    if bounds.len() == 0 {
    } else {
        assert forall|i: int| 0 <= i < bounds.drop_first().len() implies bound_verdict(
            #[trigger] bounds.drop_first()[i],
        ) != Some(ResourceType::Async) by {
            assert(bounds.drop_first()[i] == bounds[i + 1]);
        }
        lemma_guess_rec_no_awaitable(bounds.drop_first());
    }
}

/// A return type with any bound voting awaitable resolves asynchronous,
/// whatever its other bounds vote: the awaitable capability is checked
/// before the respondable one.
pub proof fn lemma_dispatch_awaitable(bounds: Seq<BoundView>, name: Seq<char>)
    requires
        exists|i: int| 0 <= i < bounds.len() && bound_verdict(#[trigger] bounds[i]) == Some(
            ResourceType::Async,
        ),
    ensures
        spec_resolve(
            None,
            false,
            ReturnTypeView::Type(TypeShapeView::ImplTrait(bounds)),
            name,
        ) == Ok::<ResourceType, ErrorView>(ResourceType::Async),
{
    lemma_guess_rec_awaitable(bounds);
}

/// A return type with a bound voting respondable, and none voting awaitable
/// — which would take precedence — resolves synchronous.
pub proof fn lemma_dispatch_respondable(bounds: Seq<BoundView>, name: Seq<char>)
    requires
        exists|i: int| 0 <= i < bounds.len() && bound_verdict(#[trigger] bounds[i]) == Some(
            ResourceType::Sync,
        ),
        forall|i: int| 0 <= i < bounds.len() ==> bound_verdict(#[trigger] bounds[i]) != Some(
            ResourceType::Async,
        ),
    ensures
        spec_resolve(
            None,
            false,
            ReturnTypeView::Type(TypeShapeView::ImplTrait(bounds)),
            name,
        ) == Ok::<ResourceType, ErrorView>(ResourceType::Sync),
{
    lemma_guess_rec_no_awaitable(bounds);
}

// ---------------------------------------------------------------------------
// Ordering preservation
// ---------------------------------------------------------------------------

/// A hook call in a scope plan.
pub open spec fn is_hook_op(op: ScopeOpView) -> bool {
    op matches ScopeOpView::Hook(_)
}

/// A guard call in a scope plan.
pub open spec fn is_guard_op(op: ScopeOpView) -> bool {
    op matches ScopeOpView::Guard(_)
}

/// A handler attachment in a scope plan: a service or a nested route.
pub open spec fn is_attach_op(op: ScopeOpView) -> bool {
    op matches ScopeOpView::Service(_) || op matches ScopeOpView::Route(_)
}

/// The default-resource call in a scope plan.
pub open spec fn is_default_op(op: ScopeOpView) -> bool {
    op matches ScopeOpView::DefaultResource(_)
}

/// The emitted chain of a scope applies every hook before every guard,
/// every guard before every handler attachment, every attachment before the
/// default handler; within each category the argument-declared names come
/// first and each list keeps its declaration order; the chain opens by
/// creating the scope node and closes by registering it.
pub proof fn lemma_scope_ordering(a: ScopeArgsView)
    ensures
        ({
            let ops = scope_ops(a);
            let nh1 = 1 + a.items.hooks.len();
            let nh = nh1 + a.scope_items.hooks.len();
            let ng1 = nh + a.items.guards.len();
            let ng = ng1 + a.scope_items.guards.len();
            let ns1 = ng + a.items.handlers.len();
            let ns = ns1 + a.scope_items.routes.len();
            &&& ops[0] == ScopeOpView::Create(a.path)
            &&& ops[ops.len() - 1] == ScopeOpView::Register
            &&& forall|k: int|
                0 <= k < a.items.hooks.len() ==> ops[1 + k] == ScopeOpView::Hook(
                    a.items.hooks[k],
                )
            &&& forall|k: int|
                0 <= k < a.scope_items.hooks.len() ==> ops[nh1 + k] == ScopeOpView::Hook(
                    a.scope_items.hooks[k],
                )
            &&& forall|k: int|
                0 <= k < a.items.guards.len() ==> ops[nh + k] == ScopeOpView::Guard(
                    a.items.guards[k],
                )
            &&& forall|k: int|
                0 <= k < a.scope_items.guards.len() ==> ops[ng1 + k] == ScopeOpView::Guard(
                    a.scope_items.guards[k],
                )
            &&& forall|k: int|
                0 <= k < a.items.handlers.len() ==> ops[ng + k] == ScopeOpView::Service(
                    a.items.handlers[k],
                )
            &&& forall|k: int|
                0 <= k < a.scope_items.routes.len() ==> ops[ns1 + k] == ScopeOpView::Route(
                    a.scope_items.routes[k],
                )
            &&& forall|i: int, j: int|
                0 <= i < ops.len() && 0 <= j < ops.len() && is_hook_op(#[trigger] ops[i])
                    && is_guard_op(#[trigger] ops[j]) ==> i < j
            &&& forall|i: int, j: int|
                0 <= i < ops.len() && 0 <= j < ops.len() && is_guard_op(#[trigger] ops[i])
                    && is_attach_op(#[trigger] ops[j]) ==> i < j
            &&& forall|i: int, j: int|
                0 <= i < ops.len() && 0 <= j < ops.len() && is_attach_op(#[trigger] ops[i])
                    && is_default_op(#[trigger] ops[j]) ==> i < j
        }),
{
    let ops = scope_ops(a);
    let nh1 = 1 + a.items.hooks.len();
    let nh = nh1 + a.scope_items.hooks.len();
    let ng1 = nh + a.items.guards.len();
    let ng = ng1 + a.scope_items.guards.len();
    let ns1 = ng + a.items.handlers.len();
    let ns = ns1 + a.scope_items.routes.len();
    let nd = ns + default_ops(a.scope_items.default).len();
    assert(ops.len() == nd + 1);
    assert forall|i: int| 0 <= i < ops.len() implies {
        &&& (is_hook_op(#[trigger] ops[i]) ==> 1 <= i < nh)
        &&& (is_guard_op(ops[i]) ==> nh <= i < ng)
        &&& (is_attach_op(ops[i]) ==> ng <= i < ns)
        &&& (is_default_op(ops[i]) ==> ns <= i < nd)
    } by {
        if i == 0 {
            assert(ops[i] == ScopeOpView::Create(a.path));
        } else if i < nh1 {
            assert(ops[i] == hook_ops(a.items.hooks)[i - 1]);
            assert(ops[i] == ScopeOpView::Hook(a.items.hooks[i - 1]));
        } else if i < nh {
            assert(ops[i] == hook_ops(a.scope_items.hooks)[i - nh1]);
            assert(ops[i] == ScopeOpView::Hook(a.scope_items.hooks[i - nh1]));
        } else if i < ng1 {
            assert(ops[i] == guard_ops(a.items.guards)[i - nh]);
            assert(ops[i] == ScopeOpView::Guard(a.items.guards[i - nh]));
        } else if i < ng {
            assert(ops[i] == guard_ops(a.scope_items.guards)[i - ng1]);
            assert(ops[i] == ScopeOpView::Guard(a.scope_items.guards[i - ng1]));
        } else if i < ns1 {
            assert(ops[i] == service_ops(a.items.handlers)[i - ng]);
            assert(ops[i] == ScopeOpView::Service(a.items.handlers[i - ng]));
        } else if i < ns {
            assert(ops[i] == route_ops(a.scope_items.routes)[i - ns1]);
            assert(ops[i] == ScopeOpView::Route(a.scope_items.routes[i - ns1]));
        } else if i < nd {
            assert(ops[i] == default_ops(a.scope_items.default)[i - ns]);
            assert(ops[i] == ScopeOpView::DefaultResource(a.scope_items.default->0));
        } else {
            assert(ops[i] == ScopeOpView::Register);
        }
    }
}


/// The emitted chain of an impl-block scope keeps the same discipline: its
/// hooks before its guards, its guards before its nested routes, the routes
/// before the default handler; each list keeps declaration order; the chain
/// opens from the accessor and closes by registering.
pub proof fn lemma_impl_scope_ordering(s: ImplScopeView)
    ensures
        ({
            let ops = impl_scope_ops(s);
            let nh = 1 + s.scope_items.hooks.len();
            let ng = nh + s.scope_items.guards.len();
            let ns = ng + s.scope_items.routes.len();
            &&& ops[0] == ScopeOpView::FromAccessor
            &&& ops[ops.len() - 1] == ScopeOpView::Register
            &&& forall|k: int|
                0 <= k < s.scope_items.hooks.len() ==> ops[1 + k] == ScopeOpView::Hook(
                    s.scope_items.hooks[k],
                )
            &&& forall|k: int|
                0 <= k < s.scope_items.guards.len() ==> ops[nh + k] == ScopeOpView::Guard(
                    s.scope_items.guards[k],
                )
            &&& forall|k: int|
                0 <= k < s.scope_items.routes.len() ==> ops[ng + k] == ScopeOpView::Route(
                    s.scope_items.routes[k],
                )
            &&& forall|i: int, j: int|
                0 <= i < ops.len() && 0 <= j < ops.len() && is_hook_op(#[trigger] ops[i])
                    && is_guard_op(#[trigger] ops[j]) ==> i < j
            &&& forall|i: int, j: int|
                0 <= i < ops.len() && 0 <= j < ops.len() && is_guard_op(#[trigger] ops[i])
                    && is_attach_op(#[trigger] ops[j]) ==> i < j
            &&& forall|i: int, j: int|
                0 <= i < ops.len() && 0 <= j < ops.len() && is_attach_op(#[trigger] ops[i])
                    && is_default_op(#[trigger] ops[j]) ==> i < j
        }),
{
    let ops = impl_scope_ops(s);
    let nh = 1 + s.scope_items.hooks.len();
    let ng = nh + s.scope_items.guards.len();
    let ns = ng + s.scope_items.routes.len();
    let nd = ns + default_ops(s.scope_items.default).len();
    assert(ops.len() == nd + 1);
    assert forall|i: int| 0 <= i < ops.len() implies {
        &&& (is_hook_op(#[trigger] ops[i]) ==> 1 <= i < nh)
        &&& (is_guard_op(ops[i]) ==> nh <= i < ng)
        &&& (is_attach_op(ops[i]) ==> ng <= i < ns)
        &&& (is_default_op(ops[i]) ==> ns <= i < nd)
    } by {
        if i == 0 {
            assert(ops[i] == ScopeOpView::FromAccessor);
        } else if i < nh {
            assert(ops[i] == hook_ops(s.scope_items.hooks)[i - 1]);
            assert(ops[i] == ScopeOpView::Hook(s.scope_items.hooks[i - 1]));
        } else if i < ng {
            assert(ops[i] == guard_ops(s.scope_items.guards)[i - nh]);
            assert(ops[i] == ScopeOpView::Guard(s.scope_items.guards[i - nh]));
        } else if i < ns {
            assert(ops[i] == route_ops(s.scope_items.routes)[i - ng]);
            assert(ops[i] == ScopeOpView::Route(s.scope_items.routes[i - ng]));
        } else if i < nd {
            assert(ops[i] == default_ops(s.scope_items.default)[i - ns]);
            assert(ops[i] == ScopeOpView::DefaultResource(s.scope_items.default->0));
        } else {
            assert(ops[i] == ScopeOpView::Register);
        }
    }
}

// ---------------------------------------------------------------------------
// Unknown-key rejection
// ---------------------------------------------------------------------------

proof fn lemma_parse_rec_keys(ctx: Context, args: Seq<ArgView>, st: ParsedArgsView)
    requires
        parse_args_rec(ctx, args, st) is Ok,
    ensures
        all_keys_recognized(ctx, args),
    decreases args.len(),
{
    if args.len() == 0 {
    } else {
        match crate::args::parse_step(ctx, st, args[0]) {
            Ok(st2) => {
                lemma_parse_rec_keys(ctx, args.drop_first(), st2);
                assert forall|i: int| 0 <= i < args.len() implies (#[trigger] args[i] matches
                    ArgView::KeyValue(k, _) ==> key_recognized(ctx, k)) by {
                    if i > 0 {
                        assert(args.drop_first()[i - 1] == args[i]);
                    }
                }
            },
            Err(_) => {
                assert(false);
            },
        }
    }
}

/// A parse that succeeds vouches for every `key="value"` key: each one is
/// recognized in its context. An unrecognized key fails the whole parse.
pub proof fn lemma_unknown_key_rejected(ctx: Context, args: Seq<ArgView>)
    requires
        spec_parse_args(ctx, args) is Ok,
    ensures
        all_keys_recognized(ctx, args),
{
    lemma_parse_rec_keys(ctx, args, empty_parse());
}

} // verus!
