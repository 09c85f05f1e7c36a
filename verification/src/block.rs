//! Blocks of methods attached to a type.

use vstd::prelude::*;

use crate::decl::{Generics, GenericsView};
use crate::model::{opt_view, views};
use crate::syntax::{Path, PathView, TypeExpr, TypeExprView};

verus! {

/// One parameter of a method.
#[derive(Debug, PartialEq, Eq)]
pub enum FnArg {
    /// The receiver, as written.
    Receiver(String),
    /// A pattern, as written, and its declared type.
    Typed { pat: String, ty: TypeExpr },
}

/// The view of [`FnArg`]: the same, with sequences for strings and vectors.
pub enum FnArgView {
    Receiver(Seq<char>),
    Typed { pat: Seq<char>, ty: TypeExprView },
}

impl View for FnArg {
    type V = FnArgView;

    open spec fn view(&self) -> FnArgView {
        match self {
            FnArg::Receiver(r) => FnArgView::Receiver(r@),
            FnArg::Typed { pat, ty } => FnArgView::Typed { pat: pat@, ty: ty@ },
        }
    }
}

impl Clone for FnArg {
    fn clone(&self) -> (r: Self)
        ensures
            r@ == self@,
    {
        match self {
            FnArg::Receiver(r) => FnArg::Receiver(r.clone()),
            FnArg::Typed { pat, ty } => FnArg::Typed { pat: pat.clone(), ty: ty.clone() },
        }
    }
}

/// What a method evaluates.
#[derive(Debug, PartialEq, Eq)]
pub enum MethodBody {
    /// The statements of the source, as written.
    Source(String),
    /// A call of the constructor `mock_new` of the type called `name`.
    MockNew { name: String },
    /// The default value of the declared result type.
    DefaultValue,
    /// Nothing.
    Empty,
}

/// The view of [`MethodBody`]: the same, with sequences for strings and vectors.
pub enum MethodBodyView {
    Source(Seq<char>),
    MockNew { name: Seq<char> },
    DefaultValue,
    Empty,
}

impl View for MethodBody {
    type V = MethodBodyView;

    open spec fn view(&self) -> MethodBodyView {
        match self {
            MethodBody::Source(block) => MethodBodyView::Source(block@),
            MethodBody::MockNew { name } => MethodBodyView::MockNew { name: name@ },
            MethodBody::DefaultValue => MethodBodyView::DefaultValue,
            MethodBody::Empty => MethodBodyView::Empty,
        }
    }
}

/// A method: its visibility as written, its name, its parameters, its
/// declared result type where it has one, and its body.
#[derive(Debug, PartialEq, Eq)]
pub struct Method {
    pub vis: String,
    pub ident: String,
    pub inputs: Vec<FnArg>,
    pub output: Option<TypeExpr>,
    pub body: MethodBody,
}

/// The view of [`Method`]: the same, with sequences for strings and vectors.
pub struct MethodView {
    pub vis: Seq<char>,
    pub ident: Seq<char>,
    pub inputs: Seq<FnArgView>,
    pub output: Option<TypeExprView>,
    pub body: MethodBodyView,
}

impl View for Method {
    type V = MethodView;

    open spec fn view(&self) -> MethodView {
        MethodView {
            vis: self.vis@,
            ident: self.ident@,
            inputs: views(self.inputs@),
            output: opt_view(self.output),
            body: self.body@,
        }
    }
}

/// The declaration of an associated type inside a block: `type ident = ty;`.
#[derive(Debug, PartialEq, Eq)]
pub struct AssocType {
    pub ident: String,
    pub ty: TypeExpr,
}

/// The view of [`AssocType`]: the same, with sequences for strings and vectors.
pub struct AssocTypeView {
    pub ident: Seq<char>,
    pub ty: TypeExprView,
}

impl View for AssocType {
    type V = AssocTypeView;

    open spec fn view(&self) -> AssocTypeView {
        AssocTypeView { ident: self.ident@, ty: self.ty@ }
    }
}

/// One item of a block.
#[derive(Debug, PartialEq, Eq)]
pub enum ImplItem {
    Method(Method),
    Type(AssocType),
    /// Any other item, as written.
    Other(String),
}

/// The view of [`ImplItem`]: the same, with sequences for strings and vectors.
pub enum ImplItemView {
    Method(MethodView),
    Type(AssocTypeView),
    Other(Seq<char>),
}

impl View for ImplItem {
    type V = ImplItemView;

    open spec fn view(&self) -> ImplItemView {
        match self {
            ImplItem::Method(m) => ImplItemView::Method(m@),
            ImplItem::Type(t) => ImplItemView::Type(t@),
            ImplItem::Other(o) => ImplItemView::Other(o@),
        }
    }
}

/// A block of items attached to the type `self_ty`; with a capability, the
/// block implements that capability for the type.
#[derive(Debug, PartialEq, Eq)]
pub struct ItemImpl {
    pub generics: Generics,
    pub trait_: Option<Path>,
    pub self_ty: TypeExpr,
    pub items: Vec<ImplItem>,
}

/// The view of [`ItemImpl`]: the same, with sequences for strings and vectors.
pub struct ItemImplView {
    pub generics: GenericsView,
    pub trait_: Option<PathView>,
    pub self_ty: TypeExprView,
    pub items: Seq<ImplItemView>,
}

impl View for ItemImpl {
    type V = ItemImplView;

    open spec fn view(&self) -> ItemImplView {
        ItemImplView {
            generics: self.generics@,
            trait_: opt_view(self.trait_),
            self_ty: self.self_ty@,
            items: views(self.items@),
        }
    }
}

} // verus!
