//! Expansion errors. Every failure aborts the whole transformation of one
//! annotated unit; the variant names the offending construct.

use vstd::prelude::*;

verus! {

/// The argument context an entry point parses in, which fixes the set of
/// recognized `key="value"` keys.
#[derive(Clone, Copy, Debug, PartialEq, Eq, Structural)]
pub enum Context {
    Route,
    Scope,
}

impl Context {
    /// The recognized keys of this context, in the order diagnostics list
    /// them.
    pub fn allowed_keys(&self) -> (r: Vec<String>)
        ensures
            r.deep_view() == allowed_key_list(*self),
    {
        let mut keys: Vec<String> = Vec::new();
        keys.push("guard".to_owned());
        if let Context::Scope = self {
            keys.push("hook".to_owned());
            keys.push("handler".to_owned());
            proof {
                assert(keys.deep_view() =~= allowed_key_list(*self));
            }
        } else {
            proof {
                assert(keys.deep_view() =~= allowed_key_list(*self));
            }
        }
        keys
    }
}

/// The recognized keys of a context, in listing order.
pub open spec fn allowed_key_list(ctx: Context) -> Seq<Seq<char>> {
    match ctx {
        Context::Route => seq!["guard"@],
        Context::Scope => seq!["guard"@, "hook"@, "handler"@],
    }
}

impl DeepView for Context {
    type V = Context;

    open spec fn deep_view(&self) -> Context {
        *self
    }
}

/// Why an expansion was aborted.
#[derive(Debug, PartialEq)]
pub enum Error {
    /// A second bare path literal in one argument list.
    MultiplePaths,
    /// A bare identifier flag other than the asynchronous-dispatch flag.
    UnknownFlag(String),
    /// A `key="value"` pair whose key the context does not recognize.
    UnknownKey(String, Context),
    /// A recognized key whose value is not a string literal.
    ValueNotString(String),
    /// An argument token of no recognized shape.
    UnknownAttribute,
    /// An entry point that demands arguments was given none.
    EmptyArgs,
    /// No path where one is mandatory: no path literal at all, or an empty
    /// one, which supplies no path.
    MissingPath,
    /// A handler with no declared return type; the name is the function's.
    NoReturnType(String),
    /// A second default-resource declaration in one scope.
    SecondDefaultResource,
    /// A scope body that is not a block of declarations.
    ScopeNotBlock,
    /// An `impl` block whose self type path has no segment.
    EmptyTypePath,
    /// An `impl` block whose self type path has more than one segment.
    TooManyTypeSegments,
    /// A type-level path annotation whose value is not a string literal.
    PathAttrNotString,
    /// A type-level path annotation that carries no value.
    PathAttrNoValue,
    /// A field service annotation that carries a value; the name is the
    /// field's.
    ServiceAttrWithValue(String),
    /// A field guard annotation that carries a value; the name is the
    /// field's.
    GuardAttrWithValue(String),
    /// A scope invocation with arguments on a declaration that is not a
    /// constant with a block body.
    ExpectedBlockInput,
    /// A scope invocation without arguments on a declaration that is not an
    /// `impl` block.
    ExpectedImplInput,
}

#[verifier::ext_equal]
pub enum ErrorView {
    MultiplePaths,
    UnknownFlag(Seq<char>),
    UnknownKey(Seq<char>, Context),
    ValueNotString(Seq<char>),
    UnknownAttribute,
    EmptyArgs,
    MissingPath,
    NoReturnType(Seq<char>),
    SecondDefaultResource,
    ScopeNotBlock,
    EmptyTypePath,
    TooManyTypeSegments,
    PathAttrNotString,
    PathAttrNoValue,
    ServiceAttrWithValue(Seq<char>),
    GuardAttrWithValue(Seq<char>),
    ExpectedBlockInput,
    ExpectedImplInput,
}

impl DeepView for Error {
    type V = ErrorView;

    open spec fn deep_view(&self) -> ErrorView {
        match self {
            Error::MultiplePaths => ErrorView::MultiplePaths,
            Error::UnknownFlag(s) => ErrorView::UnknownFlag(s@),
            Error::UnknownKey(k, c) => ErrorView::UnknownKey(k@, *c),
            Error::ValueNotString(k) => ErrorView::ValueNotString(k@),
            Error::UnknownAttribute => ErrorView::UnknownAttribute,
            Error::EmptyArgs => ErrorView::EmptyArgs,
            Error::MissingPath => ErrorView::MissingPath,
            Error::NoReturnType(s) => ErrorView::NoReturnType(s@),
            Error::SecondDefaultResource => ErrorView::SecondDefaultResource,
            Error::ScopeNotBlock => ErrorView::ScopeNotBlock,
            Error::EmptyTypePath => ErrorView::EmptyTypePath,
            Error::TooManyTypeSegments => ErrorView::TooManyTypeSegments,
            Error::PathAttrNotString => ErrorView::PathAttrNotString,
            Error::PathAttrNoValue => ErrorView::PathAttrNoValue,
            Error::ServiceAttrWithValue(s) => ErrorView::ServiceAttrWithValue(s@),
            Error::GuardAttrWithValue(s) => ErrorView::GuardAttrWithValue(s@),
            Error::ExpectedBlockInput => ErrorView::ExpectedBlockInput,
            Error::ExpectedImplInput => ErrorView::ExpectedImplInput,
        }
    }
}

} // verus!
