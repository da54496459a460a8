//! Scopes declared by annotation: classification of the declarations inside
//! a scope body or an `impl` block, and the two scope generators built on it.

use vstd::prelude::*;
use crate::args::{parse_args, spec_parse_args};
use crate::decl::{Arg, ArgView, AttrView, ConstBlock, ConstBlockView, ConstExpr, ConstExprView,
    FnDecl, FnDeclView, ImplBlock, ImplBlockView, Item, ItemView, res_view};
use crate::emit::{default_ops, guard_ops, hook_ops, push_default, push_guards,
    push_hooks, push_register, push_routes, push_services, route_ops, service_ops, RouteChain,
    RouteChainView, ScopeOpView, ScopeOp, ScopeRender};
use crate::error::{Context, Error, ErrorView};
use crate::route::{spec_parse_meta, parse_meta_attrs, GuardType};
use crate::text::str_eq;

verus! {

// ---------------------------------------------------------------------------
// Classification of one declaration
// ---------------------------------------------------------------------------

/// The role one annotation name votes for.
#[derive(Clone, Copy, Debug, PartialEq, Eq, Structural)]
pub enum RoleTag {
    Handler(GuardType),
    Guard,
    Hook,
}

/// The role one annotation name segment carries, if any: a route method or
/// the generic handler mark, the guard mark, or the hook mark.
pub open spec fn seg_role(seg: Seq<char>) -> Option<RoleTag> {
    if seg == "get"@ {
        Some(RoleTag::Handler(GuardType::Get))
    } else if seg == "post"@ {
        Some(RoleTag::Handler(GuardType::Post))
    } else if seg == "put"@ {
        Some(RoleTag::Handler(GuardType::Put))
    } else if seg == "delete"@ {
        Some(RoleTag::Handler(GuardType::Delete))
    } else if seg == "handler"@ {
        Some(RoleTag::Handler(GuardType::Unguarded))
    } else if seg == "guard"@ {
        Some(RoleTag::Guard)
    } else if seg == "hook"@ {
        Some(RoleTag::Hook)
    } else {
        None
    }
}

/// The role an annotation's name path votes for: its first recognized
/// segment decides.
pub open spec fn segs_role(segs: Seq<Seq<char>>) -> Option<RoleTag>
    decreases segs.len(),
{
    if segs.len() == 0 {
        None
    } else {
        match seg_role(segs[0]) {
            Some(r) => Some(r),
            None => segs_role(segs.drop_first()),
        }
    }
}

/// How a declaration is classified: the reserved default-handler name, a
/// hook, a guard, a handler retaining its route annotation's method and
/// arguments, or ignored support code.
#[verifier::ext_equal]
pub enum Classified {
    DefaultRes,
    HookItem,
    GuardItem,
    HandlerItem(GuardType, Seq<ArgView>),
    Ignored,
}

/// The vote of a declaration's annotations: the first annotation with a
/// recognized role wins; a handler keeps that annotation's arguments.
pub open spec fn attrs_class(attrs: Seq<AttrView>) -> Classified
    decreases attrs.len(),
{
    if attrs.len() == 0 {
        Classified::Ignored
    } else {
        match segs_role(attrs[0].segs) {
            Some(RoleTag::Handler(g)) => Classified::HandlerItem(g, attrs[0].args),
            Some(RoleTag::Guard) => Classified::GuardItem,
            Some(RoleTag::Hook) => Classified::HookItem,
            None => attrs_class(attrs.drop_first()),
        }
    }
}

/// Classify one function declaration: reserved names first — the default
/// handler, then the implicit initializer hook — and the annotations after.
pub open spec fn classify_fn(f: FnDeclView) -> Classified {
    if f.name == "default_resource"@ {
        Classified::DefaultRes
    } else if f.name == "init"@ {
        Classified::HookItem
    } else {
        attrs_class(f.attrs)
    }
}

fn seg_role_exec(seg: &String) -> (r: Option<RoleTag>)
    ensures
        r == seg_role(seg@),
{
    if str_eq(seg.as_str(), "get") {
        Some(RoleTag::Handler(GuardType::Get))
    } else if str_eq(seg.as_str(), "post") {
        Some(RoleTag::Handler(GuardType::Post))
    } else if str_eq(seg.as_str(), "put") {
        Some(RoleTag::Handler(GuardType::Put))
    } else if str_eq(seg.as_str(), "delete") {
        Some(RoleTag::Handler(GuardType::Delete))
    } else if str_eq(seg.as_str(), "handler") {
        Some(RoleTag::Handler(GuardType::Unguarded))
    } else if str_eq(seg.as_str(), "guard") {
        Some(RoleTag::Guard)
    } else if str_eq(seg.as_str(), "hook") {
        Some(RoleTag::Hook)
    } else {
        None
    }
}

#[verifier::loop_isolation(false)]
fn segs_role_exec(segs: &Vec<String>) -> (r: Option<RoleTag>)
    ensures
        r == segs_role(segs.deep_view()),
{
    let ghost all = segs.deep_view();
    let mut i: usize = 0;
    proof {
        assert(all.skip(0) =~~= all);
    }
    while i < segs.len()
        invariant
            i <= all.len(),
            segs_role(all) == segs_role(all.skip(i as int)),
        decreases all.len() - i,
    {
        proof {
            assert(all.skip(i as int)[0] == all[i as int]);
            assert(all.skip(i as int).drop_first() =~~= all.skip(i + 1));
        }
        let role = seg_role_exec(&segs[i]);
        if role.is_some() {
            return role;
        }
        i = i + 1;
    }
    proof {
        assert(all.skip(all.len() as int) =~~= Seq::<Seq<char>>::empty());
    }
    None
}

/// A declaration's classification, with a handler's deciding annotation
/// named by index.
enum FnRole {
    DefaultRes,
    HookItem,
    GuardItem,
    HandlerItem(GuardType, usize),
    Ignored,
}

#[verifier::loop_isolation(false)]
fn classify_fn_exec(f: &FnDecl) -> (r: FnRole)
    ensures
        (match r {
            FnRole::DefaultRes => classify_fn(f.deep_view()) == Classified::DefaultRes,
            FnRole::HookItem => classify_fn(f.deep_view()) == Classified::HookItem,
            FnRole::GuardItem => classify_fn(f.deep_view()) == Classified::GuardItem,
            FnRole::HandlerItem(g, idx) => idx < f.attrs@.len() && classify_fn(f.deep_view())
                == Classified::HandlerItem(g, f.deep_view().attrs[idx as int].args),
            FnRole::Ignored => classify_fn(f.deep_view()) == Classified::Ignored,
        }),
{
    if str_eq(f.name.as_str(), "default_resource") {
        return FnRole::DefaultRes;
    }
    if str_eq(f.name.as_str(), "init") {
        return FnRole::HookItem;
    }
    let ghost all = f.deep_view().attrs;
    let mut i: usize = 0;
    proof {
        assert(all.skip(0) =~~= all);
    }
    while i < f.attrs.len()
        invariant
            i <= all.len(),
            attrs_class(all) == attrs_class(all.skip(i as int)),
        decreases all.len() - i,
    {
        proof {
            assert(all.skip(i as int)[0] == all[i as int]);
            assert(all.skip(i as int).drop_first() =~~= all.skip(i + 1));
        }
        let role = segs_role_exec(&f.attrs[i].segs);
        match role {
            Some(RoleTag::Handler(g)) => {
                return FnRole::HandlerItem(g, i);
            },
            Some(RoleTag::Guard) => {
                return FnRole::GuardItem;
            },
            Some(RoleTag::Hook) => {
                return FnRole::HookItem;
            },
            None => {},
        }
        i = i + 1;
    }
    proof {
        assert(all.skip(all.len() as int) =~~= Seq::<AttrView>::empty());
    }
    FnRole::Ignored
}

// ---------------------------------------------------------------------------
// Classification of a whole body
// ---------------------------------------------------------------------------

/// The classifier's accumulated name lists.
#[verifier::ext_equal]
pub struct ClassListsView {
    pub handlers: Seq<Seq<char>>,
    pub guards: Seq<Seq<char>>,
    pub hooks: Seq<Seq<char>>,
    pub default: Option<Seq<char>>,
}

/// The lists before any declaration is seen.
pub open spec fn empty_lists() -> ClassListsView {
    ClassListsView {
        handlers: Seq::empty(),
        guards: Seq::empty(),
        hooks: Seq::empty(),
        default: None,
    }
}

/// How one function declaration extends the lists, or fails: a second
/// default handler is the one classification error.
pub open spec fn class_step(acc: ClassListsView, f: FnDeclView) -> Result<
    ClassListsView,
    ErrorView,
> {
    match classify_fn(f) {
        Classified::DefaultRes => {
            if acc.default is Some {
                Err(ErrorView::SecondDefaultResource)
            } else {
                Ok(ClassListsView { default: Some(f.name), ..acc })
            }
        },
        Classified::HookItem => Ok(ClassListsView { hooks: acc.hooks.push(f.name), ..acc }),
        Classified::GuardItem => Ok(ClassListsView { guards: acc.guards.push(f.name), ..acc }),
        Classified::HandlerItem(_, _) => Ok(
            ClassListsView { handlers: acc.handlers.push(f.name), ..acc },
        ),
        Classified::Ignored => Ok(acc),
    }
}

/// Classify the remaining declarations, front first, extending `acc`.
pub open spec fn classify_rec(items: Seq<ItemView>, acc: ClassListsView) -> Result<
    ClassListsView,
    ErrorView,
>
    decreases items.len(),
{
    if items.len() == 0 {
        Ok(acc)
    } else {
        match items[0] {
            ItemView::Fn(f) => match class_step(acc, f) {
                Ok(a2) => classify_rec(items.drop_first(), a2),
                Err(e) => Err(e),
            },
            ItemView::Other => classify_rec(items.drop_first(), acc),
        }
    }
}

/// The classifier's verdict over a whole body.
pub open spec fn spec_classify(items: Seq<ItemView>) -> Result<ClassListsView, ErrorView> {
    classify_rec(items, empty_lists())
}

struct ClassLists {
    handlers: Vec<String>,
    guards: Vec<String>,
    hooks: Vec<String>,
    default: Option<String>,
}

impl DeepView for ClassLists {
    type V = ClassListsView;

    closed spec fn deep_view(&self) -> ClassListsView {
        ClassListsView {
            handlers: self.handlers.deep_view(),
            guards: self.guards.deep_view(),
            hooks: self.hooks.deep_view(),
            default: self.default.deep_view(),
        }
    }
}

#[verifier::loop_isolation(false)]
fn classify_items(items: &Vec<Item>) -> (r: Result<ClassLists, Error>)
    ensures
        res_view(r) == spec_classify(items.deep_view()),
{
    let ghost all = items.deep_view();
    let mut st = ClassLists { handlers: Vec::new(), guards: Vec::new(), hooks: Vec::new(),
        default: None };
    proof {
        assert(st.deep_view() =~~= empty_lists());
        assert(all.skip(0) =~~= all);
    }
    let mut i: usize = 0;
    while i < items.len()
        invariant
            i <= all.len(),
            spec_classify(all) == classify_rec(all.skip(i as int), st.deep_view()),
        decreases all.len() - i,
    {
        let ghost pre = st.deep_view();
        proof {
            assert(all.skip(i as int)[0] == all[i as int]);
            assert(all.skip(i as int).drop_first() =~~= all.skip(i + 1));
        }
        match &items[i] {
            Item::Fn(f) => {
                match classify_fn_exec(f) {
                    FnRole::DefaultRes => {
                        if st.default.is_some() {
                            return Err(Error::SecondDefaultResource);
                        }
                        st.default = Some(f.name.clone());
                        proof {
                            assert(st.deep_view() =~~= (ClassListsView {
                                default: Some(f.deep_view().name),
                                ..pre
                            }));
                        }
                    },
                    FnRole::HookItem => {
                        st.hooks.push(f.name.clone());
                        proof {
                            assert(st.deep_view() =~~= (ClassListsView {
                                hooks: pre.hooks.push(f.deep_view().name),
                                ..pre
                            }));
                        }
                    },
                    FnRole::GuardItem => {
                        st.guards.push(f.name.clone());
                        proof {
                            assert(st.deep_view() =~~= (ClassListsView {
                                guards: pre.guards.push(f.deep_view().name),
                                ..pre
                            }));
                        }
                    },
                    FnRole::HandlerItem(_, _) => {
                        st.handlers.push(f.name.clone());
                        proof {
                            assert(st.deep_view() =~~= (ClassListsView {
                                handlers: pre.handlers.push(f.deep_view().name),
                                ..pre
                            }));
                        }
                    },
                    FnRole::Ignored => {},
                }
            },
            Item::Other => {},
        }
        i = i + 1;
    }
    proof {
        assert(all.skip(all.len() as int) =~~= Seq::<ItemView>::empty());
    }
    Ok(st)
}

// ---------------------------------------------------------------------------
// Nested routes of a body
// ---------------------------------------------------------------------------

/// The nested route a classified handler declaration yields: its deciding
/// annotation's arguments are parsed in route context, and a path is owed.
pub open spec fn route_for_fn(f: FnDeclView, g: GuardType, rargs: Seq<ArgView>) -> Result<
    RouteChainView,
    ErrorView,
> {
    match spec_parse_meta(f, rargs) {
        Err(e) => Err(e),
        Ok(t) => match t.0 {
            None => Err(ErrorView::MissingPath),
            Some(path) => Ok(
                RouteChainView {
                    handler: f.name,
                    path: path,
                    method: g,
                    guards: t.2,
                    dispatch: t.1,
                },
            ),
        },
    }
}

/// The nested routes of the remaining declarations, in declaration order.
pub open spec fn routes_rec(items: Seq<ItemView>) -> Result<Seq<RouteChainView>, ErrorView>
    decreases items.len(),
{
    if items.len() == 0 {
        Ok(Seq::empty())
    } else {
        match items[0] {
            ItemView::Fn(f) => match classify_fn(f) {
                Classified::HandlerItem(g, rargs) => match route_for_fn(f, g, rargs) {
                    Err(e) => Err(e),
                    Ok(rc) => match routes_rec(items.drop_first()) {
                        Err(e) => Err(e),
                        Ok(rs) => Ok(seq![rc] + rs),
                    },
                },
                _ => routes_rec(items.drop_first()),
            },
            ItemView::Other => routes_rec(items.drop_first()),
        }
    }
}

#[verifier::loop_isolation(false)]
fn build_routes(items: &Vec<Item>) -> (r: Result<Vec<RouteChain>, Error>)
    ensures
        res_view(r) == routes_rec(items.deep_view()),
{
    let ghost all = items.deep_view();
    let mut out: Vec<RouteChain> = Vec::new();
    proof {
        assert(all.skip(0) =~~= all);
        assert(out.deep_view() =~~= Seq::<RouteChainView>::empty());
    }
    let mut i: usize = 0;
    while i < items.len()
        invariant
            i <= all.len(),
            (match routes_rec(all.skip(i as int)) {
                Ok(rest) => routes_rec(all) == Ok::<_, ErrorView>(out.deep_view() + rest),
                Err(e) => routes_rec(all) == Err::<Seq<RouteChainView>, ErrorView>(e),
            }),
        decreases all.len() - i,
    {
        let ghost pre = out.deep_view();
        proof {
            assert(all.skip(i as int)[0] == all[i as int]);
            assert(all.skip(i as int).drop_first() =~~= all.skip(i + 1));
        }
        match &items[i] {
            Item::Fn(f) => {
                match classify_fn_exec(f) {
                    FnRole::HandlerItem(g, idx) => {
                        match parse_meta_attrs(f, &f.attrs[idx].args) {
                            Err(e) => {
                                return Err(e);
                            },
                            Ok((path, dispatch, extra_guards)) => match path {
                                None => {
                                    return Err(Error::MissingPath);
                                },
                                Some(path) => {
                                    let rc = RouteChain {
                                        handler: f.name.clone(),
                                        path,
                                        method: g,
                                        guards: extra_guards,
                                        dispatch,
                                    };
                                    let ghost rargs = f.deep_view().attrs[idx as int].args;
                                    proof {
                                        assert(rc.deep_view() =~~= (route_for_fn(
                                            f.deep_view(),
                                            g,
                                            rargs,
                                        )->Ok_0));
                                    }
                                    out.push(rc);
                                    proof {
                                        assert(out.deep_view() =~~= pre.push(rc.deep_view()));
                                        if routes_rec(all.skip(i + 1)) is Ok {
                                            let rest2 = routes_rec(all.skip(i + 1))->Ok_0;
                                            assert(pre + (seq![rc.deep_view()] + rest2)
                                                =~~= out.deep_view() + rest2);
                                        }
                                    }
                                },
                            },
                        }
                    },
                    _ => {},
                }
            },
            Item::Other => {},
        }
        i = i + 1;
    }
    proof {
        assert(all.skip(all.len() as int) =~~= Seq::<ItemView>::empty());
        assert(out.deep_view() + Seq::<RouteChainView>::empty() =~~= out.deep_view());
    }
    Ok(out)
}

// ---------------------------------------------------------------------------
// The classified contents of a scope
// ---------------------------------------------------------------------------

/// What the classifier makes of a scope body: the ordered name lists per
/// role, the optional default handler, and the nested routes the handler
/// declarations carry.
#[derive(Debug, PartialEq)]
pub struct ScopeItems {
    pub handlers: Vec<String>,
    pub guards: Vec<String>,
    pub hooks: Vec<String>,
    pub default: Option<String>,
    pub routes: Vec<RouteChain>,
}

#[verifier::ext_equal]
pub struct ScopeItemsView {
    pub handlers: Seq<Seq<char>>,
    pub guards: Seq<Seq<char>>,
    pub hooks: Seq<Seq<char>>,
    pub default: Option<Seq<char>>,
    pub routes: Seq<RouteChainView>,
}

impl DeepView for ScopeItems {
    type V = ScopeItemsView;

    open spec fn deep_view(&self) -> ScopeItemsView {
        ScopeItemsView {
            handlers: self.handlers.deep_view(),
            guards: self.guards.deep_view(),
            hooks: self.hooks.deep_view(),
            default: self.default.deep_view(),
            routes: self.routes.deep_view(),
        }
    }
}

/// What a whole body classifies to: the name lists, then the nested routes;
/// a duplicate default handler is found before any route is parsed.
pub open spec fn spec_from_items(items: Seq<ItemView>) -> Result<ScopeItemsView, ErrorView> {
    match spec_classify(items) {
        Err(e) => Err(e),
        Ok(acc) => match routes_rec(items) {
            Err(e) => Err(e),
            Ok(rs) => Ok(
                ScopeItemsView {
                    handlers: acc.handlers,
                    guards: acc.guards,
                    hooks: acc.hooks,
                    default: acc.default,
                    routes: rs,
                },
            ),
        },
    }
}

impl ScopeItems {
    /// Classify the declarations of a scope body.
    pub fn from_items(items: &Vec<Item>) -> (r: Result<ScopeItems, Error>)
        ensures
            res_view(r) == spec_from_items(items.deep_view()),
    {
        match classify_items(items) {
            Err(e) => Err(e),
            Ok(acc) => match build_routes(items) {
                Err(e) => Err(e),
                Ok(routes) => {
                    let si = ScopeItems {
                        handlers: acc.handlers,
                        guards: acc.guards,
                        hooks: acc.hooks,
                        default: acc.default,
                        routes,
                    };
                    proof {
                        assert(si.deep_view() =~~= (spec_from_items(items.deep_view())->Ok_0));
                    }
                    Ok(si)
                },
            },
        }
    }
}

// ---------------------------------------------------------------------------
// The argument-list scope generator
// ---------------------------------------------------------------------------

/// The names a scope's own argument list declares, per role.
#[derive(Debug, PartialEq)]
pub struct Items {
    pub guards: Vec<String>,
    pub hooks: Vec<String>,
    pub handlers: Vec<String>,
}

#[verifier::ext_equal]
pub struct ItemsView {
    pub guards: Seq<Seq<char>>,
    pub hooks: Seq<Seq<char>>,
    pub handlers: Seq<Seq<char>>,
}

impl DeepView for Items {
    type V = ItemsView;

    open spec fn deep_view(&self) -> ItemsView {
        ItemsView {
            guards: self.guards.deep_view(),
            hooks: self.hooks.deep_view(),
            handlers: self.handlers.deep_view(),
        }
    }
}

/// A scope built from a path argument and a constant's block body.
#[derive(Debug, PartialEq)]
pub struct Args {
    pub name: String,
    pub path: String,
    pub items: Items,
    pub scope_items: ScopeItems,
}

#[verifier::ext_equal]
pub struct ScopeArgsView {
    pub name: Seq<char>,
    pub path: Seq<char>,
    pub items: ItemsView,
    pub scope_items: ScopeItemsView,
}

impl DeepView for Args {
    type V = ScopeArgsView;

    open spec fn deep_view(&self) -> ScopeArgsView {
        ScopeArgsView {
            name: self.name@,
            path: self.path@,
            items: self.items.deep_view(),
            scope_items: self.scope_items.deep_view(),
        }
    }
}

/// What the argument-list scope generator makes of its inputs: arguments are
/// demanded, the body must be a block, the body is classified, the arguments
/// are parsed in scope context, and the path is mandatory.
pub open spec fn spec_scope_new(args: Seq<ArgView>, cb: ConstBlockView) -> Result<
    ScopeArgsView,
    ErrorView,
> {
    if args.len() == 0 {
        Err(ErrorView::EmptyArgs)
    } else {
        match cb.body {
            ConstExprView::Other => Err(ErrorView::ScopeNotBlock),
            ConstExprView::Block(items) => match spec_from_items(items) {
                Err(e) => Err(e),
                Ok(si) => match spec_parse_args(Context::Scope, args) {
                    Err(e) => Err(e),
                    Ok(p) => match p.path {
                        None => Err(ErrorView::MissingPath),
                        Some(path) => Ok(
                            ScopeArgsView {
                                name: cb.name,
                                path: path,
                                items: ItemsView {
                                    guards: p.guards,
                                    hooks: p.hooks,
                                    handlers: p.handlers,
                                },
                                scope_items: si,
                            },
                        ),
                    },
                },
            },
        }
    }
}

/// The ordered registration plan of a scope: create the node at its path,
/// apply argument-declared hooks then body-declared hooks, attach
/// argument-declared guards then body-declared guards, attach the
/// argument-declared services, attach the body's nested routes, set the
/// default handler where one stands, and register.
pub open spec fn scope_ops(a: ScopeArgsView) -> Seq<ScopeOpView> {
    seq![ScopeOpView::Create(a.path)] + hook_ops(a.items.hooks) + hook_ops(a.scope_items.hooks)
        + guard_ops(a.items.guards) + guard_ops(a.scope_items.guards) + service_ops(
        a.items.handlers,
    ) + route_ops(a.scope_items.routes) + default_ops(a.scope_items.default) + seq![
        ScopeOpView::Register,
    ]
}

impl Args {
    /// Build the scope model of an annotated constant with a block body.
    pub fn new(args: &Vec<Arg>, input: &ConstBlock) -> (r: Result<Args, Error>)
        ensures
            res_view(r) == spec_scope_new(args.deep_view(), input.deep_view()),
    {
        if args.len() == 0 {
            return Err(Error::EmptyArgs);
        }
        match &input.body {
            ConstExpr::Other => Err(Error::ScopeNotBlock),
            ConstExpr::Block(body_items) => match ScopeItems::from_items(body_items) {
                Err(e) => Err(e),
                Ok(si) => match parse_args(Context::Scope, args) {
                    Err(e) => Err(e),
                    Ok(p) => match p.path {
                        None => Err(Error::MissingPath),
                        Some(path) => {
                            let r = Args {
                                name: input.name.clone(),
                                path,
                                items: Items {
                                    guards: p.guards,
                                    hooks: p.hooks,
                                    handlers: p.handlers,
                                },
                                scope_items: si,
                            };
                            proof {
                                assert(r.deep_view() =~~= (spec_scope_new(
                                    args.deep_view(),
                                    input.deep_view(),
                                )->Ok_0));
                            }
                            Ok(r)
                        },
                    },
                },
            },
        }
    }

    /// Render the scope's registration plan under the scope's name.
    pub fn generate(&self) -> (r: ScopeRender)
        ensures
            r.deep_view().name == self.deep_view().name,
            r.deep_view().ops == scope_ops(self.deep_view()),
    {
        let mut ops: Vec<ScopeOp> = Vec::new();
        ops.push(ScopeOp::Create(self.path.clone()));
        proof {
            assert(ops.deep_view() =~~= seq![ScopeOpView::Create(self.path@)]);
        }
        push_hooks(&mut ops, &self.items.hooks);
        push_hooks(&mut ops, &self.scope_items.hooks);
        push_guards(&mut ops, &self.items.guards);
        push_guards(&mut ops, &self.scope_items.guards);
        push_services(&mut ops, &self.items.handlers);
        push_routes(&mut ops, &self.scope_items.routes);
        push_default(&mut ops, &self.scope_items.default);
        push_register(&mut ops);
        proof {
            assert(ops.deep_view() =~~= scope_ops(self.deep_view()));
        }
        ScopeRender { name: self.name.clone(), ops }
    }
}

// ---------------------------------------------------------------------------
// The impl-block scope generator
// ---------------------------------------------------------------------------

/// A scope built from an annotated `impl` block: the scope node itself comes
/// from the aggregate's accessor, and the block's methods fill it.
#[derive(Debug, PartialEq)]
pub struct ImplScope {
    pub name: String,
    pub scope_items: ScopeItems,
}

#[verifier::ext_equal]
pub struct ImplScopeView {
    pub name: Seq<char>,
    pub scope_items: ScopeItemsView,
}

impl DeepView for ImplScope {
    type V = ImplScopeView;

    open spec fn deep_view(&self) -> ImplScopeView {
        ImplScopeView { name: self.name@, scope_items: self.scope_items.deep_view() }
    }
}

/// What the impl-block scope generator makes of its input: the self type
/// must name exactly one path segment, and the members are classified.
pub open spec fn spec_impl_new(ib: ImplBlockView) -> Result<ImplScopeView, ErrorView> {
    if ib.self_path.len() > 1 {
        Err(ErrorView::TooManyTypeSegments)
    } else if ib.self_path.len() == 0 {
        Err(ErrorView::EmptyTypePath)
    } else {
        match spec_from_items(ib.items) {
            Err(e) => Err(e),
            Ok(si) => Ok(ImplScopeView { name: ib.self_path[0], scope_items: si }),
        }
    }
}

/// The ordered registration plan of an impl-block scope: take the node from
/// the accessor, apply the body's hooks, attach its guards, attach its
/// nested routes, set the default handler where one stands, and register.
pub open spec fn impl_scope_ops(s: ImplScopeView) -> Seq<ScopeOpView> {
    seq![ScopeOpView::FromAccessor] + hook_ops(s.scope_items.hooks) + guard_ops(
        s.scope_items.guards,
    ) + route_ops(s.scope_items.routes) + default_ops(s.scope_items.default) + seq![
        ScopeOpView::Register,
    ]
}

impl ImplScope {
    /// Build the scope model of an annotated `impl` block.
    pub fn new(input: &ImplBlock) -> (r: Result<ImplScope, Error>)
        ensures
            res_view(r) == spec_impl_new(input.deep_view()),
    {
        if input.self_path.len() > 1 {
            return Err(Error::TooManyTypeSegments);
        }
        if input.self_path.len() == 0 {
            return Err(Error::EmptyTypePath);
        }
        match ScopeItems::from_items(&input.items) {
            Err(e) => Err(e),
            Ok(si) => {
                let r = ImplScope { name: input.self_path[0].clone(), scope_items: si };
                proof {
                    assert(r.deep_view() =~~= (spec_impl_new(input.deep_view())->Ok_0));
                }
                Ok(r)
            },
        }
    }

    /// Render the scope's registration plan under the self type's name.
    pub fn generate(&self) -> (r: ScopeRender)
        ensures
            r.deep_view().name == self.deep_view().name,
            r.deep_view().ops == impl_scope_ops(self.deep_view()),
    {
        let mut ops: Vec<ScopeOp> = Vec::new();
        ops.push(ScopeOp::FromAccessor);
        proof {
            assert(ops.deep_view() =~~= seq![ScopeOpView::FromAccessor]);
        }
        push_hooks(&mut ops, &self.scope_items.hooks);
        push_guards(&mut ops, &self.scope_items.guards);
        push_routes(&mut ops, &self.scope_items.routes);
        push_default(&mut ops, &self.scope_items.default);
        push_register(&mut ops);
        proof {
            assert(ops.deep_view() =~~= impl_scope_ops(self.deep_view()));
        }
        ScopeRender { name: self.name.clone(), ops }
    }
}

} // verus!
