//! The attribute-argument parser, shared by every entry point: an ordered
//! list of argument tokens becomes an optional path, an optional explicit
//! dispatch mode, and the ordered values of the recognized keys.

use vstd::prelude::*;
use crate::decl::{Arg, ArgView, res_view};
use crate::error::{Context, Error, ErrorView};
use crate::route::ResourceType;
use crate::text::{eq_lower, lower};

verus! {

/// What one argument list yields: at most one path, at most one explicit
/// dispatch mode, and the values of each recognized key in listed order.
#[derive(Debug, PartialEq)]
pub struct ParsedArgs {
    pub path: Option<String>,
    pub dispatch: Option<ResourceType>,
    pub guards: Vec<String>,
    pub hooks: Vec<String>,
    pub handlers: Vec<String>,
}

#[verifier::ext_equal]
pub struct ParsedArgsView {
    pub path: Option<Seq<char>>,
    pub dispatch: Option<ResourceType>,
    pub guards: Seq<Seq<char>>,
    pub hooks: Seq<Seq<char>>,
    pub handlers: Seq<Seq<char>>,
}

impl DeepView for ParsedArgs {
    type V = ParsedArgsView;

    open spec fn deep_view(&self) -> ParsedArgsView {
        ParsedArgsView {
            path: self.path.deep_view(),
            dispatch: self.dispatch,
            guards: self.guards.deep_view(),
            hooks: self.hooks.deep_view(),
            handlers: self.handlers.deep_view(),
        }
    }
}

/// The result of parsing no arguments at all.
pub open spec fn empty_parse() -> ParsedArgsView {
    ParsedArgsView {
        path: None,
        dispatch: None,
        guards: Seq::empty(),
        hooks: Seq::empty(),
        handlers: Seq::empty(),
    }
}

/// Whether a `key="value"` key is recognized in this context, after case
/// folding.
pub open spec fn key_recognized(ctx: Context, k: Seq<char>) -> bool {
    lower(k) == "guard"@ || (ctx == Context::Scope && (lower(k) == "hook"@ || lower(k)
        == "handler"@))
}

/// How one argument token changes the parse, or fails it. A path literal
/// must be non-empty: an empty one supplies no path at all.
pub open spec fn parse_step(ctx: Context, st: ParsedArgsView, a: ArgView) -> Result<
    ParsedArgsView,
    ErrorView,
> {
    match a {
        ArgView::Path(p) => {
            if st.path is Some {
                Err(ErrorView::MultiplePaths)
            } else if p.len() == 0 {
                Err(ErrorView::MissingPath)
            } else {
                Ok(ParsedArgsView { path: Some(p), ..st })
            }
        },
        ArgView::Flag(f) => {
            if lower(f) == "async"@ {
                Ok(ParsedArgsView { dispatch: Some(ResourceType::Async), ..st })
            } else {
                Err(ErrorView::UnknownFlag(f))
            }
        },
        ArgView::KeyValue(k, v) => {
            if lower(k) == "guard"@ {
                Ok(ParsedArgsView { guards: st.guards.push(v), ..st })
            } else if ctx == Context::Scope && lower(k) == "hook"@ {
                Ok(ParsedArgsView { hooks: st.hooks.push(v), ..st })
            } else if ctx == Context::Scope && lower(k) == "handler"@ {
                Ok(ParsedArgsView { handlers: st.handlers.push(v), ..st })
            } else {
                Err(ErrorView::UnknownKey(k, ctx))
            }
        },
        ArgView::KeyOther(k) => {
            if key_recognized(ctx, k) {
                Err(ErrorView::ValueNotString(k))
            } else {
                Err(ErrorView::UnknownKey(k, ctx))
            }
        },
        ArgView::Other => Err(ErrorView::UnknownAttribute),
    }
}

/// Parse the remaining tokens, front first, starting from `st`.
pub open spec fn parse_args_rec(ctx: Context, args: Seq<ArgView>, st: ParsedArgsView) -> Result<
    ParsedArgsView,
    ErrorView,
>
    decreases args.len(),
{
    if args.len() == 0 {
        Ok(st)
    } else {
        match parse_step(ctx, st, args[0]) {
            Ok(st2) => parse_args_rec(ctx, args.drop_first(), st2),
            Err(e) => Err(e),
        }
    }
}

/// What a whole argument list parses to in the given context.
pub open spec fn spec_parse_args(ctx: Context, args: Seq<ArgView>) -> Result<
    ParsedArgsView,
    ErrorView,
> {
    parse_args_rec(ctx, args, empty_parse())
}

/// Parse an argument list: the path, the explicit dispatch mode, and the
/// recognized key values, or the first offending token's error.
#[verifier::loop_isolation(false)]
pub fn parse_args(ctx: Context, args: &Vec<Arg>) -> (r: Result<ParsedArgs, Error>)
    ensures
        res_view(r) == spec_parse_args(ctx, args.deep_view()),
{
    let ghost all = args.deep_view();
    let mut st = ParsedArgs {
        path: None,
        dispatch: None,
        guards: Vec::new(),
        hooks: Vec::new(),
        handlers: Vec::new(),
    };
    proof {
        assert(st.deep_view() =~~= empty_parse());
        assert(all.skip(0) =~~= all);
    }
    let mut i: usize = 0;
    while i < args.len()
        invariant
            i <= all.len(),
            spec_parse_args(ctx, all) == parse_args_rec(ctx, all.skip(i as int), st.deep_view()),
        decreases all.len() - i,
    {
        let ghost pre = st.deep_view();
        proof {
            assert(all.skip(i as int)[0] == all[i as int]);
            assert(all.skip(i as int).drop_first() =~~= all.skip(i + 1));
        }
        let a = &args[i];
        match a {
            Arg::Path(p) => {
                if st.path.is_some() {
                    return Err(Error::MultiplePaths);
                }
                if p.as_str().is_empty() {
                    return Err(Error::MissingPath);
                }
                st.path = Some(p.clone());
                proof {
                    assert(st.deep_view() =~~= (ParsedArgsView { path: Some(p@), ..pre }));
                }
            },
            Arg::Flag(f) => {
                if eq_lower(f.as_str(), "async") {
                    st.dispatch = Some(ResourceType::Async);
                    proof {
                        assert(st.deep_view() =~~= (ParsedArgsView {
                            dispatch: Some(ResourceType::Async),
                            ..pre
                        }));
                    }
                } else {
                    return Err(Error::UnknownFlag(f.clone()));
                }
            },
            Arg::KeyValue(k, v) => {
                if eq_lower(k.as_str(), "guard") {
                    st.guards.push(v.clone());
                    proof {
                        assert(st.deep_view() =~~= (ParsedArgsView {
                            guards: pre.guards.push(v@),
                            ..pre
                        }));
                    }
                } else if matches!(ctx, Context::Scope) && eq_lower(k.as_str(), "hook") {
                    st.hooks.push(v.clone());
                    proof {
                        assert(st.deep_view() =~~= (ParsedArgsView {
                            hooks: pre.hooks.push(v@),
                            ..pre
                        }));
                    }
                } else if matches!(ctx, Context::Scope) && eq_lower(k.as_str(), "handler") {
                    st.handlers.push(v.clone());
                    proof {
                        assert(st.deep_view() =~~= (ParsedArgsView {
                            handlers: pre.handlers.push(v@),
                            ..pre
                        }));
                    }
                } else {
                    return Err(Error::UnknownKey(k.clone(), ctx));
                }
            },
            Arg::KeyOther(k) => {
                if eq_lower(k.as_str(), "guard") || (matches!(ctx, Context::Scope) && (eq_lower(
                    k.as_str(),
                    "hook",
                ) || eq_lower(k.as_str(), "handler"))) {
                    return Err(Error::ValueNotString(k.clone()));
                } else {
                    return Err(Error::UnknownKey(k.clone(), ctx));
                }
            },
            Arg::Other => {
                return Err(Error::UnknownAttribute);
            },
        }
        i = i + 1;
    }
    proof {
        assert(all.skip(all.len() as int) =~~= Seq::<ArgView>::empty());
    }
    Ok(st)
}

/// How many bare path literals an argument list holds.
pub open spec fn path_count(args: Seq<ArgView>) -> nat
    decreases args.len(),
{
    if args.len() == 0 {
        0
    } else {
        (match args[0] {
            ArgView::Path(_) => 1 as nat,
            _ => 0 as nat,
        }) + path_count(args.drop_first())
    }
}

/// The keys of an argument list that a successful parse vouches for: every
/// `key="value"` token's key is recognized in the context.
pub open spec fn all_keys_recognized(ctx: Context, args: Seq<ArgView>) -> bool {
    forall|i: int|
        0 <= i < args.len() ==> (#[trigger] args[i] matches ArgView::KeyValue(k, _)
            ==> key_recognized(ctx, k))
}

} // verus!
