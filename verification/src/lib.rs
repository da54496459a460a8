//! A compile-time route-registration transformer, modelled structurally.
//!
//! Annotated function and scope declarations — described by plain data types
//! rather than host-language syntax trees — are parsed, classified and turned
//! into a deterministic, ordered plan of registration-builder calls for a
//! routing runtime: create a route or scope at a path, apply hooks, attach
//! guards, attach services and nested routes, set a default handler, register.

pub mod args;
pub mod decl;
pub mod emit;
pub mod error;
pub mod laws;
pub mod route;
pub mod scope;
pub mod text;

use vstd::prelude::*;
use crate::decl::{Arg, ArgView, DeriveInput, DeriveInputView, FnDecl, FnDeclView, ScopeInput,
    ScopeInputView, res_view};
use crate::emit::{RouteChain, RouteChainView, ScopeRender, ScopeRenderView};
use crate::error::{Error, ErrorView};
use crate::route::{spec_route_chain, spec_route_new, GuardType};
use crate::scope::attr::{impl_scope_ops, scope_ops, spec_impl_new, spec_scope_new};
use crate::scope::derive::{accessor_ops, spec_derive_new};

verus! {

/// What a route entry point emits for one annotated handler: the
/// registration plan of its route, under the entry point's method guard.
pub open spec fn spec_route(args: Seq<ArgView>, input: FnDeclView, g: GuardType) -> Result<
    RouteChainView,
    ErrorView,
> {
    match spec_route_new(args, input, g) {
        Err(e) => Err(e),
        Ok(a) => Ok(spec_route_chain(a)),
    }
}

fn route_entry(args: &Vec<Arg>, input: &FnDecl, g: GuardType) -> (r: Result<RouteChain, Error>)
    ensures
        res_view(r) == spec_route(args.deep_view(), input.deep_view(), g),
{
    match route::Args::new(args, input, g) {
        Err(e) => Err(e),
        Ok(a) => Ok(a.generate()),
    }
}

/// Transform an annotated handler with no method guard.
pub fn handler(args: &Vec<Arg>, input: &FnDecl) -> (r: Result<RouteChain, Error>)
    ensures
        res_view(r) == spec_route(args.deep_view(), input.deep_view(), GuardType::Unguarded),
{
    route_entry(args, input, GuardType::Unguarded)
}

/// Transform an annotated handler under the GET method guard.
pub fn get(args: &Vec<Arg>, input: &FnDecl) -> (r: Result<RouteChain, Error>)
    ensures
        res_view(r) == spec_route(args.deep_view(), input.deep_view(), GuardType::Get),
{
    route_entry(args, input, GuardType::Get)
}

/// Transform an annotated handler under the POST method guard.
pub fn post(args: &Vec<Arg>, input: &FnDecl) -> (r: Result<RouteChain, Error>)
    ensures
        res_view(r) == spec_route(args.deep_view(), input.deep_view(), GuardType::Post),
{
    route_entry(args, input, GuardType::Post)
}

/// Transform an annotated handler under the PUT method guard.
pub fn put(args: &Vec<Arg>, input: &FnDecl) -> (r: Result<RouteChain, Error>)
    ensures
        res_view(r) == spec_route(args.deep_view(), input.deep_view(), GuardType::Put),
{
    route_entry(args, input, GuardType::Put)
}

/// Transform an annotated handler under the DELETE method guard.
pub fn delete(args: &Vec<Arg>, input: &FnDecl) -> (r: Result<RouteChain, Error>)
    ensures
        res_view(r) == spec_route(args.deep_view(), input.deep_view(), GuardType::Delete),
{
    route_entry(args, input, GuardType::Delete)
}

/// Mark a function as a guard predicate: the declaration passes through
/// unchanged.
pub fn guard(input: FnDecl) -> (r: FnDecl)
    ensures
        r == input,
{
    input
}

/// Mark a function as a hook: the declaration passes through unchanged.
pub fn hook(input: FnDecl) -> (r: FnDecl)
    ensures
        r == input,
{
    input
}

/// What the scope entry point emits: without arguments the declaration must
/// be an `impl` block; with arguments it must be a constant with a block
/// body.
pub open spec fn spec_scope(args: Seq<ArgView>, input: ScopeInputView) -> Result<
    ScopeRenderView,
    ErrorView,
> {
    if args.len() == 0 {
        match input {
            ScopeInputView::Impl(ib) => match spec_impl_new(ib) {
                Err(e) => Err(e),
                Ok(s) => Ok(ScopeRenderView { name: s.name, ops: impl_scope_ops(s) }),
            },
            ScopeInputView::Block(_) => Err(ErrorView::ExpectedImplInput),
        }
    } else {
        match input {
            ScopeInputView::Block(cb) => match spec_scope_new(args, cb) {
                Err(e) => Err(e),
                Ok(a) => Ok(ScopeRenderView { name: a.name, ops: scope_ops(a) }),
            },
            ScopeInputView::Impl(_) => Err(ErrorView::ExpectedBlockInput),
        }
    }
}

/// Transform an annotated scope declaration.
pub fn scope(args: &Vec<Arg>, input: &ScopeInput) -> (r: Result<ScopeRender, Error>)
    ensures
        res_view(r) == spec_scope(args.deep_view(), input.deep_view()),
{
    if args.len() == 0 {
        match input {
            ScopeInput::Impl(ib) => match scope::attr::ImplScope::new(ib) {
                Err(e) => Err(e),
                Ok(s) => {
                    let r = s.generate();
                    proof {
                        assert(r.deep_view() =~~= (spec_scope(
                            args.deep_view(),
                            input.deep_view(),
                        )->Ok_0));
                    }
                    Ok(r)
                },
            },
            ScopeInput::Block(_) => Err(Error::ExpectedImplInput),
        }
    } else {
        match input {
            ScopeInput::Block(cb) => match scope::attr::Args::new(args, cb) {
                Err(e) => Err(e),
                Ok(a) => {
                    let r = a.generate();
                    proof {
                        assert(r.deep_view() =~~= (spec_scope(
                            args.deep_view(),
                            input.deep_view(),
                        )->Ok_0));
                    }
                    Ok(r)
                },
            },
            ScopeInput::Impl(_) => Err(Error::ExpectedBlockInput),
        }
    }
}

/// What the aggregate bridge emits: the accessor plan that builds a scope
/// from an instance's role-annotated fields.
pub open spec fn spec_parser_derive(d: DeriveInputView) -> Result<ScopeRenderView, ErrorView> {
    match spec_derive_new(d) {
        Err(e) => Err(e),
        Ok(a) => Ok(ScopeRenderView { name: a.name, ops: accessor_ops(a) }),
    }
}

/// Transform a role-annotated aggregate into its scope-accessor plan.
pub fn parser_derive(input: &DeriveInput) -> (r: Result<ScopeRender, Error>)
    ensures
        res_view(r) == spec_parser_derive(input.deep_view()),
{
    match scope::derive::Args::new(input) {
        Err(e) => Err(e),
        Ok(a) => {
            let r = a.generate();
            proof {
                assert(r.deep_view() =~~= (spec_parser_derive(input.deep_view())->Ok_0));
            }
            Ok(r)
        },
    }
}

} // verus!
