//! The aggregate-to-scope bridge: a data aggregate whose fields carry
//! service and guard role annotations, and whose type-level path annotation
//! places the scope, becomes an accessor plan that builds the scope from an
//! instance's fields.

use vstd::prelude::*;
use crate::decl::{DeriveInput, DeriveInputView, FieldView, Meta, MetaView, res_view};
use crate::emit::{guard_ops, push_guards, push_services, service_ops, ScopeOp,
    ScopeOpView, ScopeRender};
use crate::error::{Error, ErrorView};
use crate::text::str_eq;

verus! {

/// The path the aggregate's type-level annotations settle on: the single
/// `path="..."` value, the root path when none stands, an error on a second
/// one or on a malformed one.
pub open spec fn path_rec(attrs: Seq<MetaView>, found: Option<Seq<char>>) -> Result<
    Option<Seq<char>>,
    ErrorView,
>
    decreases attrs.len(),
{
    if attrs.len() == 0 {
        Ok(found)
    } else {
        match attrs[0] {
            MetaView::NameValueStr(n, v) => {
                if n == "path"@ {
                    if found is Some {
                        Err(ErrorView::MultiplePaths)
                    } else {
                        path_rec(attrs.drop_first(), Some(v))
                    }
                } else {
                    path_rec(attrs.drop_first(), found)
                }
            },
            MetaView::NameValueOther(n) => {
                if n == "path"@ {
                    Err(ErrorView::PathAttrNotString)
                } else {
                    path_rec(attrs.drop_first(), found)
                }
            },
            MetaView::Word(n) => {
                if n == "path"@ {
                    Err(ErrorView::PathAttrNoValue)
                } else {
                    path_rec(attrs.drop_first(), found)
                }
            },
            MetaView::List(n) => {
                if n == "path"@ {
                    Err(ErrorView::PathAttrNoValue)
                } else {
                    path_rec(attrs.drop_first(), found)
                }
            },
        }
    }
}

/// How one field's annotations extend the service and guard lists, or fail:
/// a role annotation that carries any value is malformed.
pub open spec fn field_rec(
    attrs: Seq<MetaView>,
    field: Seq<char>,
    service: Seq<Seq<char>>,
    guards: Seq<Seq<char>>,
) -> Result<(Seq<Seq<char>>, Seq<Seq<char>>), ErrorView>
    decreases attrs.len(),
{
    if attrs.len() == 0 {
        Ok((service, guards))
    } else {
        let rest = attrs.drop_first();
        match attrs[0] {
            MetaView::Word(n) => {
                if n == "service"@ {
                    field_rec(rest, field, service.push(field), guards)
                } else if n == "guard"@ {
                    field_rec(rest, field, service, guards.push(field))
                } else {
                    field_rec(rest, field, service, guards)
                }
            },
            MetaView::NameValueStr(n, _) => {
                if n == "service"@ {
                    Err(ErrorView::ServiceAttrWithValue(field))
                } else if n == "guard"@ {
                    Err(ErrorView::GuardAttrWithValue(field))
                } else {
                    field_rec(rest, field, service, guards)
                }
            },
            MetaView::NameValueOther(n) => {
                if n == "service"@ {
                    Err(ErrorView::ServiceAttrWithValue(field))
                } else if n == "guard"@ {
                    Err(ErrorView::GuardAttrWithValue(field))
                } else {
                    field_rec(rest, field, service, guards)
                }
            },
            MetaView::List(n) => {
                if n == "service"@ {
                    Err(ErrorView::ServiceAttrWithValue(field))
                } else if n == "guard"@ {
                    Err(ErrorView::GuardAttrWithValue(field))
                } else {
                    field_rec(rest, field, service, guards)
                }
            },
        }
    }
}

/// The service and guard field names over all fields, in field-declaration
/// order.
pub open spec fn fields_rec(
    fields: Seq<FieldView>,
    service: Seq<Seq<char>>,
    guards: Seq<Seq<char>>,
) -> Result<(Seq<Seq<char>>, Seq<Seq<char>>), ErrorView>
    decreases fields.len(),
{
    if fields.len() == 0 {
        Ok((service, guards))
    } else {
        match field_rec(fields[0].attrs, fields[0].name, service, guards) {
            Err(e) => Err(e),
            Ok(t) => fields_rec(fields.drop_first(), t.0, t.1),
        }
    }
}

/// The accessor model of an aggregate: its name, the settled path, and the
/// service and guard fields in declaration order.
#[derive(Debug, PartialEq)]
pub struct Args {
    pub name: String,
    pub path: String,
    pub service: Vec<String>,
    pub guards: Vec<String>,
}

#[verifier::ext_equal]
pub struct DeriveArgsView {
    pub name: Seq<char>,
    pub path: Seq<char>,
    pub service: Seq<Seq<char>>,
    pub guards: Seq<Seq<char>>,
}

impl DeepView for Args {
    type V = DeriveArgsView;

    open spec fn deep_view(&self) -> DeriveArgsView {
        DeriveArgsView {
            name: self.name@,
            path: self.path@,
            service: self.service.deep_view(),
            guards: self.guards.deep_view(),
        }
    }
}

/// What the bridge makes of an aggregate: the settled path — the root path
/// when no annotation stands — and the role-annotated fields.
pub open spec fn spec_derive_new(d: DeriveInputView) -> Result<DeriveArgsView, ErrorView> {
    match path_rec(d.attrs, None) {
        Err(e) => Err(e),
        Ok(found) => {
            let path = match found {
                Some(p) => p,
                None => "/"@,
            };
            match fields_rec(d.fields, Seq::empty(), Seq::empty()) {
                Err(e) => Err(e),
                Ok(t) => Ok(
                    DeriveArgsView { name: d.name, path: path, service: t.0, guards: t.1 },
                ),
            }
        },
    }
}

/// The accessor's plan: build the scope node at the path, attach each
/// service field, then each guard field, in field-declaration order — and
/// hand the unfinished builder on, so no registration call ends it.
pub open spec fn accessor_ops(a: DeriveArgsView) -> Seq<ScopeOpView> {
    seq![ScopeOpView::Create(a.path)] + service_ops(a.service) + guard_ops(a.guards)
}

#[verifier::loop_isolation(false)]
fn settle_path(attrs: &Vec<Meta>) -> (r: Result<Option<String>, Error>)
    ensures
        res_view(r) == path_rec(attrs.deep_view(), None),
{
    let ghost all = attrs.deep_view();
    let mut found: Option<String> = None;
    proof {
        assert(all.skip(0) =~~= all);
    }
    let mut i: usize = 0;
    while i < attrs.len()
        invariant
            i <= all.len(),
            path_rec(all, None) == path_rec(all.skip(i as int), found.deep_view()),
        decreases all.len() - i,
    {
        proof {
            assert(all.skip(i as int)[0] == all[i as int]);
            assert(all.skip(i as int).drop_first() =~~= all.skip(i + 1));
        }
        match &attrs[i] {
            Meta::NameValueStr(n, v) => {
                if str_eq(n.as_str(), "path") {
                    if found.is_some() {
                        return Err(Error::MultiplePaths);
                    }
                    found = Some(v.clone());
                }
            },
            Meta::NameValueOther(n) => {
                if str_eq(n.as_str(), "path") {
                    return Err(Error::PathAttrNotString);
                }
            },
            Meta::Word(n) => {
                if str_eq(n.as_str(), "path") {
                    return Err(Error::PathAttrNoValue);
                }
            },
            Meta::List(n) => {
                if str_eq(n.as_str(), "path") {
                    return Err(Error::PathAttrNoValue);
                }
            },
        }
        i = i + 1;
    }
    proof {
        assert(all.skip(all.len() as int) =~~= Seq::<MetaView>::empty());
    }
    Ok(found)
}

#[verifier::loop_isolation(false)]
fn field_roles(
    attrs: &Vec<Meta>,
    field: &String,
    service: &mut Vec<String>,
    guards: &mut Vec<String>,
) -> (r: Result<(), Error>)
    ensures
        (match r {
            Ok(_) => field_rec(
                attrs.deep_view(),
                field@,
                old(service).deep_view(),
                old(guards).deep_view(),
            ) == Ok::<_, ErrorView>(
                (final(service).deep_view(), final(guards).deep_view()),
            ),
            Err(e) => field_rec(
                attrs.deep_view(),
                field@,
                old(service).deep_view(),
                old(guards).deep_view(),
            ) == Err::<(Seq<Seq<char>>, Seq<Seq<char>>), _>(e.deep_view()),
        }),
{
    let ghost all = attrs.deep_view();
    proof {
        assert(all.skip(0) =~~= all);
    }
    let mut i: usize = 0;
    while i < attrs.len()
        invariant
            i <= all.len(),
            field_rec(all, field@, old(service).deep_view(), old(guards).deep_view())
                == field_rec(
                all.skip(i as int),
                field@,
                service.deep_view(),
                guards.deep_view(),
            ),
        decreases all.len() - i,
    {
        let ghost pre_s = service.deep_view();
        let ghost pre_g = guards.deep_view();
        proof {
            assert(all.skip(i as int)[0] == all[i as int]);
            assert(all.skip(i as int).drop_first() =~~= all.skip(i + 1));
        }
        let (is_service, is_guard, has_value) = match &attrs[i] {
            Meta::Word(n) => (str_eq(n.as_str(), "service"), str_eq(n.as_str(), "guard"), false),
            Meta::NameValueStr(n, _) => (
                str_eq(n.as_str(), "service"),
                str_eq(n.as_str(), "guard"),
                true,
            ),
            Meta::NameValueOther(n) => (
                str_eq(n.as_str(), "service"),
                str_eq(n.as_str(), "guard"),
                true,
            ),
            Meta::List(n) => (str_eq(n.as_str(), "service"), str_eq(n.as_str(), "guard"), true),
        };
        if is_service {
            if has_value {
                return Err(Error::ServiceAttrWithValue(field.clone()));
            }
            service.push(field.clone());
            proof {
                assert(service.deep_view() =~~= pre_s.push(field@));
            }
        } else if is_guard {
            if has_value {
                return Err(Error::GuardAttrWithValue(field.clone()));
            }
            guards.push(field.clone());
            proof {
                assert(guards.deep_view() =~~= pre_g.push(field@));
            }
        }
        i = i + 1;
    }
    proof {
        assert(all.skip(all.len() as int) =~~= Seq::<MetaView>::empty());
    }
    Ok(())
}

impl Args {
    /// Build the accessor model of a role-annotated aggregate.
    #[verifier::loop_isolation(false)]
    pub fn new(input: &DeriveInput) -> (r: Result<Args, Error>)
        ensures
            res_view(r) == spec_derive_new(input.deep_view()),
    {
        let found = match settle_path(&input.attrs) {
            Err(e) => {
                return Err(e);
            },
            Ok(found) => found,
        };
        let path = match found {
            Some(p) => p,
            None => "/".to_owned(),
        };
        let mut service: Vec<String> = Vec::new();
        let mut guards: Vec<String> = Vec::new();
        let ghost all = input.fields.deep_view();
        proof {
            assert(all.skip(0) =~~= all);
            assert(service.deep_view() =~~= Seq::<Seq<char>>::empty());
            assert(guards.deep_view() =~~= Seq::<Seq<char>>::empty());
        }
        let mut i: usize = 0;
        while i < input.fields.len()
            invariant
                i <= all.len(),
                fields_rec(all, Seq::empty(), Seq::empty()) == fields_rec(
                    all.skip(i as int),
                    service.deep_view(),
                    guards.deep_view(),
                ),
            decreases all.len() - i,
        {
            proof {
                assert(all.skip(i as int)[0] == all[i as int]);
                assert(all.skip(i as int).drop_first() =~~= all.skip(i + 1));
            }
            let field = &input.fields[i];
            match field_roles(&field.attrs, &field.name, &mut service, &mut guards) {
                Err(e) => {
                    return Err(e);
                },
                Ok(_) => {},
            }
            i = i + 1;
        }
        proof {
            assert(all.skip(all.len() as int) =~~= Seq::<FieldView>::empty());
        }
        let r = Args { name: input.name.clone(), path, service, guards };
        proof {
            assert(r.deep_view() =~~= (spec_derive_new(input.deep_view())->Ok_0));
        }
        Ok(r)
    }

    /// Render the accessor's plan under the aggregate's name.
    pub fn generate(&self) -> (r: ScopeRender)
        ensures
            r.deep_view().name == self.deep_view().name,
            r.deep_view().ops == accessor_ops(self.deep_view()),
    {
        let mut ops: Vec<ScopeOp> = Vec::new();
        ops.push(ScopeOp::Create(self.path.clone()));
        proof {
            assert(ops.deep_view() =~~= seq![ScopeOpView::Create(self.path@)]);
        }
        push_services(&mut ops, &self.service);
        push_guards(&mut ops, &self.guards);
        proof {
            assert(ops.deep_view() =~~= accessor_ops(self.deep_view()));
        }
        ScopeRender { name: self.name.clone(), ops }
    }
}

} // verus!
