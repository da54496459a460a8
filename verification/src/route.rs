//! Route handlers: dispatch-mode resolution and the registration model of a
//! single route bound to one handler function.

use vstd::prelude::*;
use crate::args::{parse_args, spec_parse_args};
use crate::decl::{Arg, ArgView, Bound, BoundView, FnDecl, FnDeclView, ReturnTypeView, TypeShape,
    TypeShapeView, res_view};
use crate::emit::{copy_names, RouteChain, RouteChainView};
use crate::error::{Context, Error, ErrorView};
use crate::text::str_eq;

verus! {

/// How a handler produces its response: immediately, or as a deferred
/// computation that the registration target must await.
#[derive(Clone, Copy, Debug, PartialEq, Eq, Structural)]
pub enum ResourceType {
    Async,
    Sync,
}

/// Name of the registration call that binds a handler of this dispatch mode.
pub open spec fn dispatch_call(rt: ResourceType) -> Seq<char> {
    match rt {
        ResourceType::Async => "to_async"@,
        ResourceType::Sync => "to"@,
    }
}

impl ResourceType {
    /// The registration call this dispatch mode binds with.
    pub fn render(&self) -> (r: String)
        ensures
            r@ == dispatch_call(*self),
    {
        match self {
            ResourceType::Async => "to_async".to_owned(),
            ResourceType::Sync => "to".to_owned(),
        }
    }
}

/// The method guard a route entry point imposes: none for an unconditional
/// handler, or one fixed HTTP method.
#[derive(Clone, Copy, Debug, PartialEq, Eq, Structural)]
pub enum GuardType {
    Unguarded,
    Get,
    Post,
    Put,
    Delete,
}

/// Name of a method guard, as the registration target spells it.
pub open spec fn method_guard_name(g: GuardType) -> Seq<char> {
    match g {
        GuardType::Unguarded => "Handler"@,
        GuardType::Get => "Get"@,
        GuardType::Post => "Post"@,
        GuardType::Put => "Put"@,
        GuardType::Delete => "Delete"@,
    }
}

impl GuardType {
    /// The guard name, as the registration target spells it.
    pub fn render(&self) -> (r: String)
        ensures
            r@ == method_guard_name(*self),
    {
        match self {
            GuardType::Unguarded => "Handler".to_owned(),
            GuardType::Get => "Get".to_owned(),
            GuardType::Post => "Post".to_owned(),
            GuardType::Put => "Put".to_owned(),
            GuardType::Delete => "Delete".to_owned(),
        }
    }
}

impl vstd::view::DeepView for ResourceType {
    type V = ResourceType;

    open spec fn deep_view(&self) -> ResourceType {
        *self
    }
}

impl vstd::view::DeepView for GuardType {
    type V = GuardType;

    open spec fn deep_view(&self) -> GuardType {
        *self
    }
}

// ---------------------------------------------------------------------------
// Dispatch-mode inference from a return type
// ---------------------------------------------------------------------------

/// Scan one trait bound's name segments, front first: the first segment
/// naming the awaitable capability votes asynchronous, the first naming the
/// respondable capability votes synchronous, any other segment is passed
/// over.
pub open spec fn seg_scan(segs: Seq<Seq<char>>) -> Option<ResourceType>
    decreases segs.len(),
{
    if segs.len() == 0 {
        None
    } else if segs[0] == "Future"@ {
        Some(ResourceType::Async)
    } else if segs[0] == "Responder"@ {
        Some(ResourceType::Sync)
    } else {
        seg_scan(segs.drop_first())
    }
}

/// The dispatch mode one bound votes for, if any.
pub open spec fn bound_verdict(b: BoundView) -> Option<ResourceType> {
    match b {
        BoundView::Trait(segs) => seg_scan(segs),
        BoundView::Other => None,
    }
}

/// The guess over a whole bound list, by resolution precedence: an awaitable
/// vote anywhere settles asynchronous; otherwise the type is taken as
/// synchronous, whether a respondable vote stands or none does.
pub open spec fn guess_rec(bounds: Seq<BoundView>) -> ResourceType
    decreases bounds.len(),
{
    if bounds.len() == 0 {
        ResourceType::Sync
    } else if bound_verdict(bounds[0]) == Some(ResourceType::Async) {
        ResourceType::Async
    } else {
        guess_rec(bounds.drop_first())
    }
}

/// The dispatch mode a declared return type suggests: bounds of an
/// `impl Trait` type are scanned, anything else defaults to synchronous.
pub open spec fn spec_guess(t: TypeShapeView) -> ResourceType {
    match t {
        TypeShapeView::ImplTrait(bounds) => guess_rec(bounds),
        TypeShapeView::Other => ResourceType::Sync,
    }
}

#[verifier::loop_isolation(false)]
fn bound_verdict_exec(b: &Bound) -> (r: Option<ResourceType>)
    ensures
        r == bound_verdict(b.deep_view()),
{
    match b {
        Bound::Trait(segs) => {
            let ghost all = segs.deep_view();
            let mut i: usize = 0;
            proof {
                assert(all.skip(0) =~~= all);
            }
            while i < segs.len()
                invariant
                    i <= all.len(),
                    seg_scan(all) == seg_scan(all.skip(i as int)),
                decreases all.len() - i,
            {
                proof {
                    assert(all.skip(i as int)[0] == all[i as int]);
                    assert(all.skip(i as int).drop_first() =~~= all.skip(i + 1));
                }
                let s = &segs[i];
                if str_eq(s.as_str(), "Future") {
                    return Some(ResourceType::Async);
                }
                if str_eq(s.as_str(), "Responder") {
                    return Some(ResourceType::Sync);
                }
                i = i + 1;
            }
            proof {
                assert(all.skip(all.len() as int) =~~= Seq::<Seq<char>>::empty());
            }
            None
        },
        Bound::Other => None,
    }
}

/// Guess the dispatch mode from a declared return type.
#[verifier::loop_isolation(false)]
pub fn guess_resource_type(typ: &TypeShape) -> (r: ResourceType)
    ensures
        r == spec_guess(typ.deep_view()),
{
    match typ {
        TypeShape::ImplTrait(bounds) => {
            let ghost all = bounds.deep_view();
            let mut i: usize = 0;
            proof {
                assert(all.skip(0) =~~= all);
            }
            while i < bounds.len()
                invariant
                    i <= all.len(),
                    guess_rec(all) == guess_rec(all.skip(i as int)),
                decreases all.len() - i,
            {
                proof {
                    assert(all.skip(i as int)[0] == all[i as int]);
                    assert(all.skip(i as int).drop_first() =~~= all.skip(i + 1));
                }
                match bound_verdict_exec(&bounds[i]) {
                    Some(ResourceType::Async) => {
                        return ResourceType::Async;
                    },
                    _ => {},
                }
                i = i + 1;
            }
            proof {
                assert(all.skip(all.len() as int) =~~= Seq::<BoundView>::empty());
            }
            ResourceType::Sync
        },
        TypeShape::Other => ResourceType::Sync,
    }
}

// ---------------------------------------------------------------------------
// Dispatch-mode resolution
// ---------------------------------------------------------------------------

/// How a handler's dispatch mode is settled, first match winning: an explicit
/// argument, the function's own asynchronous marker, then the return type —
/// whose absence is an error, a handler owing a response.
pub open spec fn spec_resolve(
    explicit: Option<ResourceType>,
    is_async: bool,
    ret: ReturnTypeView,
    name: Seq<char>,
) -> Result<ResourceType, ErrorView> {
    match explicit {
        Some(rt) => Ok(rt),
        None => {
            if is_async {
                Ok(ResourceType::Async)
            } else {
                match ret {
                    ReturnTypeView::Default => Err(ErrorView::NoReturnType(name)),
                    ReturnTypeView::Type(t) => Ok(spec_guess(t)),
                }
            }
        },
    }
}

/// Settle a handler's dispatch mode from an explicit override and its
/// declaration.
pub fn resolve_dispatch(explicit: Option<ResourceType>, fun: &FnDecl) -> (r: Result<
    ResourceType,
    Error,
>)
    ensures
        res_view(r) == spec_resolve(
            explicit,
            fun.deep_view().is_async,
            fun.deep_view().ret,
            fun.deep_view().name,
        ),
{
    match explicit {
        Some(rt) => Ok(rt),
        None => {
            if fun.is_async {
                Ok(ResourceType::Async)
            } else {
                match &fun.ret {
                    crate::decl::ReturnType::Default => Err(
                        Error::NoReturnType(fun.name.clone()),
                    ),
                    crate::decl::ReturnType::Type(t) => Ok(guess_resource_type(t)),
                }
            }
        },
    }
}

// ---------------------------------------------------------------------------
// Route argument parsing
// ---------------------------------------------------------------------------

/// What a route entry point's arguments and handler declaration yield: the
/// optional path, the resolved dispatch mode, and the extra guard names.
pub open spec fn spec_parse_meta(f: FnDeclView, args: Seq<ArgView>) -> Result<
    (Option<Seq<char>>, ResourceType, Seq<Seq<char>>),
    ErrorView,
> {
    match spec_parse_args(Context::Route, args) {
        Err(e) => Err(e),
        Ok(p) => match spec_resolve(p.dispatch, f.is_async, f.ret, f.name) {
            Err(e) => Err(e),
            Ok(rt) => Ok((p.path, rt, p.guards)),
        },
    }
}

/// Parse a route's argument tokens against its handler declaration: the
/// optional path, the resolved dispatch mode, and the extra guards in
/// declaration order.
pub fn parse_meta_attrs(fun: &FnDecl, args: &Vec<Arg>) -> (r: Result<
    (Option<String>, ResourceType, Vec<String>),
    Error,
>)
    ensures
        res_view(r) == spec_parse_meta(fun.deep_view(), args.deep_view()),
{
    match parse_args(Context::Route, args) {
        Err(e) => Err(e),
        Ok(p) => match resolve_dispatch(p.dispatch, fun) {
            Err(e) => Err(e),
            Ok(rt) => Ok((p.path, rt, p.guards)),
        },
    }
}

// ---------------------------------------------------------------------------
// The route model
// ---------------------------------------------------------------------------

/// One route's resolved registration inputs: the handler's name, the
/// mandatory path, the dispatch mode, the entry point's method guard, and the
/// extra guards in declaration order.
#[derive(Debug, PartialEq)]
pub struct Args {
    pub name: String,
    pub path: String,
    pub resource_type: ResourceType,
    pub guard: GuardType,
    pub extra_guards: Vec<String>,
}

#[verifier::ext_equal]
pub struct RouteArgsView {
    pub name: Seq<char>,
    pub path: Seq<char>,
    pub resource_type: ResourceType,
    pub guard: GuardType,
    pub extra_guards: Seq<Seq<char>>,
}

impl DeepView for Args {
    type V = RouteArgsView;

    open spec fn deep_view(&self) -> RouteArgsView {
        RouteArgsView {
            name: self.name@,
            path: self.path@,
            resource_type: self.resource_type,
            guard: self.guard,
            extra_guards: self.extra_guards.deep_view(),
        }
    }
}

/// What a route entry point makes of its arguments: an argument list is
/// demanded, then parsed, and the path is mandatory.
pub open spec fn spec_route_new(args: Seq<ArgView>, f: FnDeclView, g: GuardType) -> Result<
    RouteArgsView,
    ErrorView,
> {
    if args.len() == 0 {
        Err(ErrorView::EmptyArgs)
    } else {
        match spec_parse_meta(f, args) {
            Err(e) => Err(e),
            Ok(t) => match t.0 {
                None => Err(ErrorView::MissingPath),
                Some(path) => Ok(
                    RouteArgsView {
                        name: f.name,
                        path: path,
                        resource_type: t.1,
                        guard: g,
                        extra_guards: t.2,
                    },
                ),
            },
        }
    }
}

/// The registration plan a route model renders to.
pub open spec fn spec_route_chain(a: RouteArgsView) -> RouteChainView {
    RouteChainView {
        handler: a.name,
        path: a.path,
        method: a.guard,
        guards: a.extra_guards,
        dispatch: a.resource_type,
    }
}

impl Args {
    /// Build the route model of one annotated handler.
    pub fn new(args: &Vec<Arg>, input: &FnDecl, guard: GuardType) -> (r: Result<Args, Error>)
        ensures
            res_view(r) == spec_route_new(args.deep_view(), input.deep_view(), guard),
    {
        if args.len() == 0 {
            return Err(Error::EmptyArgs);
        }
        match parse_meta_attrs(input, args) {
            Err(e) => Err(e),
            Ok((path, resource_type, extra_guards)) => match path {
                None => Err(Error::MissingPath),
                Some(path) => {
                    let r = Args {
                        name: input.name.clone(),
                        path,
                        resource_type,
                        guard,
                        extra_guards,
                    };
                    proof {
                        assert(r.deep_view() =~~= (spec_route_new(
                            args.deep_view(),
                            input.deep_view(),
                            guard,
                        )->Ok_0));
                    }
                    Ok(r)
                },
            },
        }
    }

    /// Render the route's registration plan.
    pub fn generate(&self) -> (r: RouteChain)
        ensures
            r.deep_view() == spec_route_chain(self.deep_view()),
    {
        let r = RouteChain {
            handler: self.name.clone(),
            path: self.path.clone(),
            method: self.guard,
            guards: copy_names(&self.extra_guards),
            dispatch: self.resource_type,
        };
        proof {
            assert(r.deep_view() =~~= spec_route_chain(self.deep_view()));
        }
        r
    }
}

} // verus!
