//! The declaration model: plain-data descriptions of the annotated source
//! constructs the transformer reads — macro argument tokens, function
//! signatures with their annotations, scope bodies, and aggregate types with
//! field-level role annotations.
//!
//! Each executable type has a ghost counterpart over `Seq<char>`, reached by
//! `deep_view`, and every contract in the crate is stated over those views.

use vstd::prelude::*;

verus! {

// ---------------------------------------------------------------------------
// Macro argument tokens
// ---------------------------------------------------------------------------

/// One macro-argument token: a bare path string literal, a bare identifier
/// flag, a `key="value"` pair, a `key=<non-string>` pair, or anything else.
#[derive(Debug, PartialEq)]
pub enum Arg {
    Path(String),
    Flag(String),
    KeyValue(String, String),
    KeyOther(String),
    Other,
}

#[verifier::ext_equal]
pub enum ArgView {
    Path(Seq<char>),
    Flag(Seq<char>),
    KeyValue(Seq<char>, Seq<char>),
    KeyOther(Seq<char>),
    Other,
}

impl DeepView for Arg {
    type V = ArgView;

    open spec fn deep_view(&self) -> ArgView {
        match self {
            Arg::Path(s) => ArgView::Path(s@),
            Arg::Flag(s) => ArgView::Flag(s@),
            Arg::KeyValue(k, v) => ArgView::KeyValue(k@, v@),
            Arg::KeyOther(k) => ArgView::KeyOther(k@),
            Arg::Other => ArgView::Other,
        }
    }
}

// ---------------------------------------------------------------------------
// Annotations on declarations
// ---------------------------------------------------------------------------

/// An annotation attached to a declaration: the segments of its name path,
/// and its own argument tokens.
#[derive(Debug, PartialEq)]
pub struct Attr {
    pub segs: Vec<String>,
    pub args: Vec<Arg>,
}

#[verifier::ext_equal]
pub struct AttrView {
    pub segs: Seq<Seq<char>>,
    pub args: Seq<ArgView>,
}

impl DeepView for Attr {
    type V = AttrView;

    open spec fn deep_view(&self) -> AttrView {
        AttrView { segs: self.segs.deep_view(), args: self.args.deep_view() }
    }
}

// ---------------------------------------------------------------------------
// Return types
// ---------------------------------------------------------------------------

/// One bound of an `impl Trait` return type: a trait name path, or something
/// else (a lifetime, say) that dispatch inference ignores.
#[derive(Debug, PartialEq)]
pub enum Bound {
    Trait(Vec<String>),
    Other,
}

#[verifier::ext_equal]
pub enum BoundView {
    Trait(Seq<Seq<char>>),
    Other,
}

impl DeepView for Bound {
    type V = BoundView;

    open spec fn deep_view(&self) -> BoundView {
        match self {
            Bound::Trait(segs) => BoundView::Trait(segs.deep_view()),
            Bound::Other => BoundView::Other,
        }
    }
}

/// The shape of a declared type, as far as dispatch inference reads it.
#[derive(Debug, PartialEq)]
pub enum TypeShape {
    ImplTrait(Vec<Bound>),
    Other,
}

#[verifier::ext_equal]
pub enum TypeShapeView {
    ImplTrait(Seq<BoundView>),
    Other,
}

impl DeepView for TypeShape {
    type V = TypeShapeView;

    open spec fn deep_view(&self) -> TypeShapeView {
        match self {
            TypeShape::ImplTrait(bounds) => TypeShapeView::ImplTrait(bounds.deep_view()),
            TypeShape::Other => TypeShapeView::Other,
        }
    }
}

/// A function's declared return type, or its absence.
#[derive(Debug, PartialEq)]
pub enum ReturnType {
    Default,
    Type(TypeShape),
}

#[verifier::ext_equal]
pub enum ReturnTypeView {
    Default,
    Type(TypeShapeView),
}

impl DeepView for ReturnType {
    type V = ReturnTypeView;

    open spec fn deep_view(&self) -> ReturnTypeView {
        match self {
            ReturnType::Default => ReturnTypeView::Default,
            ReturnType::Type(t) => ReturnTypeView::Type(t.deep_view()),
        }
    }
}

// ---------------------------------------------------------------------------
// Function declarations and scope bodies
// ---------------------------------------------------------------------------

/// A function declaration, as far as classification and dispatch resolution
/// read it: name, asynchronous marker, return type, annotations.
#[derive(Debug, PartialEq)]
pub struct FnDecl {
    pub name: String,
    pub is_async: bool,
    pub ret: ReturnType,
    pub attrs: Vec<Attr>,
}

#[verifier::ext_equal]
pub struct FnDeclView {
    pub name: Seq<char>,
    pub is_async: bool,
    pub ret: ReturnTypeView,
    pub attrs: Seq<AttrView>,
}

impl DeepView for FnDecl {
    type V = FnDeclView;

    open spec fn deep_view(&self) -> FnDeclView {
        FnDeclView {
            name: self.name@,
            is_async: self.is_async,
            ret: self.ret.deep_view(),
            attrs: self.attrs.deep_view(),
        }
    }
}

/// A declaration inside a scope body or an `impl` block: a function, or
/// anything else, which the classifier ignores.
#[derive(Debug, PartialEq)]
pub enum Item {
    Fn(FnDecl),
    Other,
}

#[verifier::ext_equal]
pub enum ItemView {
    Fn(FnDeclView),
    Other,
}

impl DeepView for Item {
    type V = ItemView;

    open spec fn deep_view(&self) -> ItemView {
        match self {
            Item::Fn(f) => ItemView::Fn(f.deep_view()),
            Item::Other => ItemView::Other,
        }
    }
}

/// The body of an annotated constant: the block of declarations a scope is
/// built from, or some other expression, which is a shape error.
#[derive(Debug, PartialEq)]
pub enum ConstExpr {
    Block(Vec<Item>),
    Other,
}

#[verifier::ext_equal]
pub enum ConstExprView {
    Block(Seq<ItemView>),
    Other,
}

impl DeepView for ConstExpr {
    type V = ConstExprView;

    open spec fn deep_view(&self) -> ConstExprView {
        match self {
            ConstExpr::Block(items) => ConstExprView::Block(items.deep_view()),
            ConstExpr::Other => ConstExprView::Other,
        }
    }
}

/// An annotated constant declaration holding a scope body.
#[derive(Debug, PartialEq)]
pub struct ConstBlock {
    pub name: String,
    pub body: ConstExpr,
}

#[verifier::ext_equal]
pub struct ConstBlockView {
    pub name: Seq<char>,
    pub body: ConstExprView,
}

impl DeepView for ConstBlock {
    type V = ConstBlockView;

    open spec fn deep_view(&self) -> ConstBlockView {
        ConstBlockView { name: self.name@, body: self.body.deep_view() }
    }
}

/// An annotated `impl` block: the segments of the implemented type's name
/// path, and the block's members — each method a function item, anything
/// else ignored.
#[derive(Debug, PartialEq)]
pub struct ImplBlock {
    pub self_path: Vec<String>,
    pub items: Vec<Item>,
}

#[verifier::ext_equal]
pub struct ImplBlockView {
    pub self_path: Seq<Seq<char>>,
    pub items: Seq<ItemView>,
}

impl DeepView for ImplBlock {
    type V = ImplBlockView;

    open spec fn deep_view(&self) -> ImplBlockView {
        ImplBlockView { self_path: self.self_path.deep_view(), items: self.items.deep_view() }
    }
}

/// The declaration a scope annotation stands on: a constant with a block
/// body, or an `impl` block.
#[derive(Debug, PartialEq)]
pub enum ScopeInput {
    Block(ConstBlock),
    Impl(ImplBlock),
}

#[verifier::ext_equal]
pub enum ScopeInputView {
    Block(ConstBlockView),
    Impl(ImplBlockView),
}

impl DeepView for ScopeInput {
    type V = ScopeInputView;

    open spec fn deep_view(&self) -> ScopeInputView {
        match self {
            ScopeInput::Block(cb) => ScopeInputView::Block(cb.deep_view()),
            ScopeInput::Impl(ib) => ScopeInputView::Impl(ib.deep_view()),
        }
    }
}

// ---------------------------------------------------------------------------
// Aggregate (derive-style) inputs
// ---------------------------------------------------------------------------

/// One attribute in meta form, as the aggregate bridge reads it: a bare word,
/// a name with a string value, a name with a non-string value, or a name with
/// a parenthesised list.
#[derive(Debug, PartialEq)]
pub enum Meta {
    Word(String),
    NameValueStr(String, String),
    NameValueOther(String),
    List(String),
}

#[verifier::ext_equal]
pub enum MetaView {
    Word(Seq<char>),
    NameValueStr(Seq<char>, Seq<char>),
    NameValueOther(Seq<char>),
    List(Seq<char>),
}

impl DeepView for Meta {
    type V = MetaView;

    open spec fn deep_view(&self) -> MetaView {
        match self {
            Meta::Word(n) => MetaView::Word(n@),
            Meta::NameValueStr(n, v) => MetaView::NameValueStr(n@, v@),
            Meta::NameValueOther(n) => MetaView::NameValueOther(n@),
            Meta::List(n) => MetaView::List(n@),
        }
    }
}

/// A named field of the aggregate, with its role annotations.
#[derive(Debug, PartialEq)]
pub struct Field {
    pub name: String,
    pub attrs: Vec<Meta>,
}

#[verifier::ext_equal]
pub struct FieldView {
    pub name: Seq<char>,
    pub attrs: Seq<MetaView>,
}

impl DeepView for Field {
    type V = FieldView;

    open spec fn deep_view(&self) -> FieldView {
        FieldView { name: self.name@, attrs: self.attrs.deep_view() }
    }
}

/// The aggregate type a scope is derived from: its name, its type-level
/// annotations, and its named fields.
#[derive(Debug, PartialEq)]
pub struct DeriveInput {
    pub name: String,
    pub attrs: Vec<Meta>,
    pub fields: Vec<Field>,
}

#[verifier::ext_equal]
pub struct DeriveInputView {
    pub name: Seq<char>,
    pub attrs: Seq<MetaView>,
    pub fields: Seq<FieldView>,
}

impl DeepView for DeriveInput {
    type V = DeriveInputView;

    open spec fn deep_view(&self) -> DeriveInputView {
        DeriveInputView {
            name: self.name@,
            attrs: self.attrs.deep_view(),
            fields: self.fields.deep_view(),
        }
    }
}

// ---------------------------------------------------------------------------
// Result views
// ---------------------------------------------------------------------------

/// The deep view of a `Result`, for stating contracts of fallible functions.
pub open spec fn res_view<T: DeepView, E: DeepView>(r: Result<T, E>) -> Result<T::V, E::V> {
    match r {
        Ok(t) => Ok(t.deep_view()),
        Err(e) => Err(e.deep_view()),
    }
}

} // verus!
