//! The emission model: what a transformed unit registers, as an ordered plan
//! of registration-builder calls. Rendering this plan as source text is the
//! host's concern; the ordering and contents here are the contract.

use vstd::prelude::*;
use crate::route::{GuardType, ResourceType};

verus! {

/// The registration plan of one route unit: build a route node at `path`,
/// attach the method guard if any, attach the extra guards in order, bind
/// `handler` with the call `dispatch` selects, and register the node.
#[derive(Debug, PartialEq)]
pub struct RouteChain {
    pub handler: String,
    pub path: String,
    pub method: GuardType,
    pub guards: Vec<String>,
    pub dispatch: ResourceType,
}

#[verifier::ext_equal]
pub struct RouteChainView {
    pub handler: Seq<char>,
    pub path: Seq<char>,
    pub method: GuardType,
    pub guards: Seq<Seq<char>>,
    pub dispatch: ResourceType,
}

impl DeepView for RouteChain {
    type V = RouteChainView;

    open spec fn deep_view(&self) -> RouteChainView {
        RouteChainView {
            handler: self.handler@,
            path: self.path@,
            method: self.method,
            guards: self.guards.deep_view(),
            dispatch: self.dispatch,
        }
    }
}

/// One registration-builder call in a scope's plan, in emission order.
#[derive(Debug, PartialEq)]
pub enum ScopeOp {
    /// Build a scope node at this path.
    Create(String),
    /// Take the scope node from the aggregate's accessor.
    FromAccessor,
    /// Pass the scope through a hook.
    Hook(String),
    /// Attach a guard predicate by name.
    Guard(String),
    /// Attach a pre-built service by name.
    Service(String),
    /// Attach a nested route entry.
    Route(RouteChain),
    /// Set the default resource.
    DefaultResource(String),
    /// Register the finished scope into the enclosing configuration.
    Register,
}

#[verifier::ext_equal]
pub enum ScopeOpView {
    Create(Seq<char>),
    FromAccessor,
    Hook(Seq<char>),
    Guard(Seq<char>),
    Service(Seq<char>),
    Route(RouteChainView),
    DefaultResource(Seq<char>),
    Register,
}

impl DeepView for ScopeOp {
    type V = ScopeOpView;

    open spec fn deep_view(&self) -> ScopeOpView {
        match self {
            ScopeOp::Create(p) => ScopeOpView::Create(p@),
            ScopeOp::FromAccessor => ScopeOpView::FromAccessor,
            ScopeOp::Hook(h) => ScopeOpView::Hook(h@),
            ScopeOp::Guard(g) => ScopeOpView::Guard(g@),
            ScopeOp::Service(s) => ScopeOpView::Service(s@),
            ScopeOp::Route(r) => ScopeOpView::Route(r.deep_view()),
            ScopeOp::DefaultResource(d) => ScopeOpView::DefaultResource(d@),
            ScopeOp::Register => ScopeOpView::Register,
        }
    }
}

/// A transformed scope unit: the name the emitted unit carries, and its
/// ordered registration plan.
#[derive(Debug, PartialEq)]
pub struct ScopeRender {
    pub name: String,
    pub ops: Vec<ScopeOp>,
}

#[verifier::ext_equal]
pub struct ScopeRenderView {
    pub name: Seq<char>,
    pub ops: Seq<ScopeOpView>,
}

impl DeepView for ScopeRender {
    type V = ScopeRenderView;

    open spec fn deep_view(&self) -> ScopeRenderView {
        ScopeRenderView { name: self.name@, ops: self.ops.deep_view() }
    }
}

// ---------------------------------------------------------------------------
// Plan-building helpers
// ---------------------------------------------------------------------------

/// The hook calls of the given names, in order.
pub open spec fn hook_ops(names: Seq<Seq<char>>) -> Seq<ScopeOpView> {
    names.map_values(|n: Seq<char>| ScopeOpView::Hook(n))
}

/// The guard calls of the given names, in order.
pub open spec fn guard_ops(names: Seq<Seq<char>>) -> Seq<ScopeOpView> {
    names.map_values(|n: Seq<char>| ScopeOpView::Guard(n))
}

/// The service calls of the given names, in order.
pub open spec fn service_ops(names: Seq<Seq<char>>) -> Seq<ScopeOpView> {
    names.map_values(|n: Seq<char>| ScopeOpView::Service(n))
}

/// The nested route entries of the given chains, in order.
pub open spec fn route_ops(routes: Seq<RouteChainView>) -> Seq<ScopeOpView> {
    routes.map_values(|r: RouteChainView| ScopeOpView::Route(r))
}

/// The default-resource call, if a default handler was classified.
pub open spec fn default_ops(default: Option<Seq<char>>) -> Seq<ScopeOpView> {
    match default {
        Some(d) => seq![ScopeOpView::DefaultResource(d)],
        None => Seq::empty(),
    }
}

/// Append one hook call per name, in order.
#[verifier::loop_isolation(false)]
pub fn push_hooks(ops: &mut Vec<ScopeOp>, names: &Vec<String>)
    ensures
        final(ops).deep_view() == old(ops).deep_view() + hook_ops(names.deep_view()),
{
    let ghost base_vec = ops@;
    let ghost base_dv = ops.deep_view();
    let ghost base_len = ops@.len();
    let mut i: usize = 0;
    while i < names.len()
        invariant
            i <= names@.len(),
            ops@.len() == base_len + i,
            forall|j: int| 0 <= j < base_len ==> ops@[j] == base_vec[j],
            forall|k: int| 0 <= k < i ==> ops@[base_len + k] == ScopeOp::Hook(names@[k]),
        decreases names@.len() - i,
    {
        ops.push(ScopeOp::Hook(names[i].clone()));
        i = i + 1;
    }
    proof {
        let rhs = base_dv + hook_ops(names.deep_view());
        assert forall|j: int| 0 <= j < ops@.len() implies ops.deep_view()[j] == rhs[j] by {
            assert(ops.deep_view()[j] == ops@[j].deep_view());
            if j < base_len {
                assert(ops@[j] == base_vec[j]);
                assert(base_dv[j] == base_vec[j].deep_view());
            } else {
                let k = j - base_len;
                assert(ops@[j] == ScopeOp::Hook(names@[k]));
                assert(hook_ops(names.deep_view())[k] == ScopeOpView::Hook(
                    names.deep_view()[k],
                ));
                assert(names.deep_view()[k] == names@[k]@);
            }
        }
        assert(ops.deep_view() =~~= rhs);
    }
}

/// Append one guard call per name, in order.
#[verifier::loop_isolation(false)]
pub fn push_guards(ops: &mut Vec<ScopeOp>, names: &Vec<String>)
    ensures
        final(ops).deep_view() == old(ops).deep_view() + guard_ops(names.deep_view()),
{
    let ghost base_vec = ops@;
    let ghost base_dv = ops.deep_view();
    let ghost base_len = ops@.len();
    let mut i: usize = 0;
    while i < names.len()
        invariant
            i <= names@.len(),
            ops@.len() == base_len + i,
            forall|j: int| 0 <= j < base_len ==> ops@[j] == base_vec[j],
            forall|k: int| 0 <= k < i ==> ops@[base_len + k] == ScopeOp::Guard(names@[k]),
        decreases names@.len() - i,
    {
        ops.push(ScopeOp::Guard(names[i].clone()));
        i = i + 1;
    }
    proof {
        let rhs = base_dv + guard_ops(names.deep_view());
        assert forall|j: int| 0 <= j < ops@.len() implies ops.deep_view()[j] == rhs[j] by {
            assert(ops.deep_view()[j] == ops@[j].deep_view());
            if j < base_len {
                assert(ops@[j] == base_vec[j]);
                assert(base_dv[j] == base_vec[j].deep_view());
            } else {
                let k = j - base_len;
                assert(ops@[j] == ScopeOp::Guard(names@[k]));
                assert(guard_ops(names.deep_view())[k] == ScopeOpView::Guard(
                    names.deep_view()[k],
                ));
                assert(names.deep_view()[k] == names@[k]@);
            }
        }
        assert(ops.deep_view() =~~= rhs);
    }
}

/// Append one service call per name, in order.
#[verifier::loop_isolation(false)]
pub fn push_services(ops: &mut Vec<ScopeOp>, names: &Vec<String>)
    ensures
        final(ops).deep_view() == old(ops).deep_view() + service_ops(names.deep_view()),
{
    let ghost base_vec = ops@;
    let ghost base_dv = ops.deep_view();
    let ghost base_len = ops@.len();
    let mut i: usize = 0;
    while i < names.len()
        invariant
            i <= names@.len(),
            ops@.len() == base_len + i,
            forall|j: int| 0 <= j < base_len ==> ops@[j] == base_vec[j],
            forall|k: int| 0 <= k < i ==> ops@[base_len + k] == ScopeOp::Service(names@[k]),
        decreases names@.len() - i,
    {
        ops.push(ScopeOp::Service(names[i].clone()));
        i = i + 1;
    }
    proof {
        let rhs = base_dv + service_ops(names.deep_view());
        assert forall|j: int| 0 <= j < ops@.len() implies ops.deep_view()[j] == rhs[j] by {
            assert(ops.deep_view()[j] == ops@[j].deep_view());
            if j < base_len {
                assert(ops@[j] == base_vec[j]);
                assert(base_dv[j] == base_vec[j].deep_view());
            } else {
                let k = j - base_len;
                assert(ops@[j] == ScopeOp::Service(names@[k]));
                assert(service_ops(names.deep_view())[k] == ScopeOpView::Service(
                    names.deep_view()[k],
                ));
                assert(names.deep_view()[k] == names@[k]@);
            }
        }
        assert(ops.deep_view() =~~= rhs);
    }
}

/// Copy a route plan.
pub fn copy_route(r: &RouteChain) -> (c: RouteChain)
    ensures
        c.deep_view() == r.deep_view(),
{
    let c = RouteChain {
        handler: r.handler.clone(),
        path: r.path.clone(),
        method: r.method,
        guards: copy_names(&r.guards),
        dispatch: r.dispatch,
    };
    proof {
        assert(c.deep_view() =~~= r.deep_view());
    }
    c
}

/// Append one nested route entry per chain, in order.
#[verifier::loop_isolation(false)]
pub fn push_routes(ops: &mut Vec<ScopeOp>, routes: &Vec<RouteChain>)
    ensures
        final(ops).deep_view() == old(ops).deep_view() + route_ops(routes.deep_view()),
{
    let ghost base_vec = ops@;
    let ghost base_dv = ops.deep_view();
    let ghost base_len = ops@.len();
    let mut i: usize = 0;
    while i < routes.len()
        invariant
            i <= routes@.len(),
            ops@.len() == base_len + i,
            forall|j: int| 0 <= j < base_len ==> ops@[j] == base_vec[j],
            forall|k: int|
                0 <= k < i ==> (#[trigger] ops@[base_len + k]).deep_view()
                    == ScopeOpView::Route(routes.deep_view()[k]),
        decreases routes@.len() - i,
    {
        let c = copy_route(&routes[i]);
        proof {
            assert(c.deep_view() == routes.deep_view()[i as int]);
        }
        ops.push(ScopeOp::Route(c));
        i = i + 1;
    }
    proof {
        let rhs = base_dv + route_ops(routes.deep_view());
        assert forall|j: int| 0 <= j < ops@.len() implies ops.deep_view()[j] == rhs[j] by {
            assert(ops.deep_view()[j] == ops@[j].deep_view());
            if j < base_len {
                assert(ops@[j] == base_vec[j]);
                assert(base_dv[j] == base_vec[j].deep_view());
            } else {
                let k = j - base_len;
                assert(ops@[base_len + k].deep_view() == ScopeOpView::Route(
                    routes.deep_view()[k],
                ));
                assert(route_ops(routes.deep_view())[k] == ScopeOpView::Route(
                    routes.deep_view()[k],
                ));
            }
        }
        assert(ops.deep_view() =~~= rhs);
    }
}

/// Append the default-resource call where a default handler stands.
pub fn push_default(ops: &mut Vec<ScopeOp>, default: &Option<String>)
    ensures
        final(ops).deep_view() == old(ops).deep_view() + default_ops(default.deep_view()),
{
    let ghost base_dv = ops.deep_view();
    match default {
        Some(d) => {
            ops.push(ScopeOp::DefaultResource(d.clone()));
            proof {
                assert(ops.deep_view() =~~= base_dv + default_ops(Some(d@)));
            }
        },
        None => {
            proof {
                assert(ops.deep_view() =~~= base_dv + default_ops(
                    None::<Seq<char>>,
                ));
            }
        },
    }
}

/// Append the registration call that finishes a plan.
pub fn push_register(ops: &mut Vec<ScopeOp>)
    ensures
        final(ops).deep_view() == old(ops).deep_view() + seq![ScopeOpView::Register],
{
    let ghost base_dv = ops.deep_view();
    ops.push(ScopeOp::Register);
    proof {
        assert(ops.deep_view() =~~= base_dv + seq![ScopeOpView::Register]);
    }
}

/// Copy a list of names.
#[verifier::loop_isolation(false)]
pub fn copy_names(names: &Vec<String>) -> (r: Vec<String>)
    ensures
        r.deep_view() == names.deep_view(),
{
    let mut out: Vec<String> = Vec::new();
    let mut i: usize = 0;
    while i < names.len()
        invariant
            i <= names.len(),
            out.deep_view() == names.deep_view().take(i as int),
        decreases names.len() - i,
    {
        out.push(names[i].clone());
        proof {
            assert(out.deep_view() =~~= names.deep_view().take(i + 1));
        }
        i = i + 1;
    }
    proof {
        assert(out.deep_view() =~~= names.deep_view());
    }
    out
}

} // verus!
