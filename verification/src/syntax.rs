//! The syntax that the rewriting works on: type expressions, declarations and
//! blocks of methods, held as plain values.
//!
//! Names are strings. What the rewriting carries through without looking
//! inside (the arguments of a generic type as written, a value expression, a
//! visibility) is a string of source text. Each type has a view, in which a
//! string is its sequence of characters and a vector the sequence of its
//! items' views.

use vstd::prelude::*;

use crate::model::{opt_view, views};

verus! {

/// What follows the name in one segment of a path.
#[derive(Debug, PartialEq, Eq)]
pub enum PathArguments {
    /// Nothing, as in `Foo`.
    Absent,
    /// A list of generic arguments between angle brackets, as written.
    AngleBracketed(String),
    /// The arguments and result of a function trait, as written.
    Parenthesized(String),
}

/// The view of [`PathArguments`]: the same, with sequences for strings and vectors.
pub enum PathArgumentsView {
    Absent,
    AngleBracketed(Seq<char>),
    Parenthesized(Seq<char>),
}

impl View for PathArguments {
    type V = PathArgumentsView;

    open spec fn view(&self) -> PathArgumentsView {
        match self {
            PathArguments::Absent => PathArgumentsView::Absent,
            PathArguments::AngleBracketed(a) => PathArgumentsView::AngleBracketed(a@),
            PathArguments::Parenthesized(a) => PathArgumentsView::Parenthesized(a@),
        }
    }
}

impl Clone for PathArguments {
    fn clone(&self) -> (r: Self)
        ensures
            r@ == self@,
    {
        match self {
            PathArguments::Absent => PathArguments::Absent,
            PathArguments::AngleBracketed(a) => PathArguments::AngleBracketed(a.clone()),
            PathArguments::Parenthesized(a) => PathArguments::Parenthesized(a.clone()),
        }
    }
}

impl PathArguments {
    /// Whether the two are the same, text for text.
    pub fn same(&self, other: &PathArguments) -> (r: bool)
        ensures
            r == (self@ == other@),
    {
        match (self, other) {
            (PathArguments::Absent, PathArguments::Absent) => true,
            (PathArguments::AngleBracketed(a), PathArguments::AngleBracketed(b)) => *a == *b,
            (PathArguments::Parenthesized(a), PathArguments::Parenthesized(b)) => *a == *b,
            _ => false,
        }
    }
}

/// One segment of a path: a name and what follows it.
#[derive(Debug, PartialEq, Eq)]
pub struct PathSegment {
    pub ident: String,
    pub arguments: PathArguments,
}

/// The view of [`PathSegment`]: the same, with sequences for strings and vectors.
pub struct PathSegmentView {
    pub ident: Seq<char>,
    pub arguments: PathArgumentsView,
}

impl View for PathSegment {
    type V = PathSegmentView;

    open spec fn view(&self) -> PathSegmentView {
        PathSegmentView { ident: self.ident@, arguments: self.arguments@ }
    }
}

impl Clone for PathSegment {
    fn clone(&self) -> (r: Self)
        ensures
            r@ == self@,
    {
        PathSegment { ident: self.ident.clone(), arguments: self.arguments.clone() }
    }
}

impl PathSegment {
    /// Whether the two are the same, text for text.
    pub fn same(&self, other: &PathSegment) -> (r: bool)
        ensures
            r == (self@ == other@),
    {
        self.ident == other.ident && self.arguments.same(&other.arguments)
    }
}

/// A path: segments separated by `::`, the last of which is the leaf.
#[derive(Debug, PartialEq, Eq)]
pub struct Path {
    pub leading_colon: bool,
    pub segments: Vec<PathSegment>,
}

/// The view of [`Path`]: the same, with sequences for strings and vectors.
pub struct PathView {
    pub leading_colon: bool,
    pub segments: Seq<PathSegmentView>,
}

impl View for Path {
    type V = PathView;

    open spec fn view(&self) -> PathView {
        PathView { leading_colon: self.leading_colon, segments: views(self.segments@) }
    }
}

impl Clone for Path {
    fn clone(&self) -> (r: Self)
        ensures
            r@ == self@,
    {
        let segments = self.segments.clone();
        assert(views(segments@) =~= views(self.segments@));
        Path { leading_colon: self.leading_colon, segments }
    }
}

impl PathView {
    /// The path that is the one name `ident`, with nothing before or after
    /// it.
    pub open spec fn of_ident(ident: Seq<char>) -> PathView {
        PathView::of_name(ident, None)
    }

    /// The path of one segment: a name and, where there is one, its list of
    /// generic arguments.
    pub open spec fn of_name(ident: Seq<char>, generics: Option<Seq<char>>) -> PathView {
        PathView {
            leading_colon: false,
            segments: seq![
                PathSegmentView {
                    ident,
                    arguments: match generics {
                        Some(g) => PathArgumentsView::AngleBracketed(g),
                        None => PathArgumentsView::Absent,
                    },
                },
            ],
        }
    }

    /// Whether the path is exactly the one name `ident`.
    pub open spec fn is_ident(self, ident: Seq<char>) -> bool {
        &&& !self.leading_colon
        &&& self.segments.len() == 1
        &&& self.segments[0].arguments is Absent
        &&& self.segments[0].ident == ident
    }

    /// The last segment.
    pub open spec fn leaf(self) -> PathSegmentView
        recommends
            self.segments.len() > 0,
    {
        self.segments.last()
    }

    /// The same path with another name in its last segment; a path without
    /// segments as it is.
    pub open spec fn with_leaf_ident(self, ident: Seq<char>) -> PathView {
        if self.segments.len() == 0 {
            self
        } else {
            PathView {
                leading_colon: self.leading_colon,
                segments: self.segments.update(
                    self.segments.len() - 1,
                    PathSegmentView { ident, arguments: self.leaf().arguments },
                ),
            }
        }
    }

    /// Whether two paths name the same type, whatever the generic arguments
    /// of that type: the same segments before the last, and the same name in
    /// the last.
    pub open spec fn same_but_leaf_arguments(self, other: PathView) -> bool {
        &&& self.leading_colon == other.leading_colon
        &&& self.segments.len() == other.segments.len()
        &&& self.segments.len() > 0
        &&& forall|i: int| 0 <= i < self.segments.len() - 1 ==> self.segments[i] == other.segments[i]
        &&& self.leaf().ident == other.leaf().ident
    }
}

impl Path {
    /// The path that is the one name `ident`.
    pub fn from_ident(ident: String) -> (r: Path)
        ensures
            r@ == PathView::of_ident(ident@),
    {
        Path::from_name(ident, None)
    }

    /// The path of one segment: a name and, where there is one, its list of
    /// generic arguments.
    pub fn from_name(ident: String, generics: Option<String>) -> (r: Path)
        ensures
            r@ == PathView::of_name(ident@, opt_view(generics)),
    {
        let arguments = match generics {
            Some(g) => PathArguments::AngleBracketed(g),
            None => PathArguments::Absent,
        };
        let mut segments: Vec<PathSegment> = Vec::new();
        segments.push(PathSegment { ident, arguments });
        let r = Path { leading_colon: false, segments };
        assert(r@.segments =~= PathView::of_name(ident@, opt_view(generics)).segments);
        r
    }

    /// The same path with another name in its last segment.
    pub fn with_leaf_ident(&self, ident: String) -> (r: Path)
        ensures
            r@ == self@.with_leaf_ident(ident@),
    {
        let n = self.segments.len();
        let mut path = self.clone();
        if n > 0 {
            let segment = PathSegment { ident, arguments: self.segments[n - 1].arguments.clone() };
            path.segments.set(n - 1, segment);
            assert(path@.segments =~= self@.with_leaf_ident(ident@).segments);
        }
        path
    }

    /// Whether two paths name the same type, whatever the generic arguments
    /// of that type.
    pub fn same_but_leaf_arguments(&self, other: &Path) -> (r: bool)
        ensures
            r == self@.same_but_leaf_arguments(other@),
    {
        let n = self.segments.len();
        if self.leading_colon != other.leading_colon || n != other.segments.len() || n == 0 {
            return false;
        }
        let mut i: usize = 0;
        while i < n - 1
            invariant
                i <= n - 1,
                n == self.segments.len(),
                n == other.segments.len(),
                forall|j: int| 0 <= j < i ==> self@.segments[j] == other@.segments[j],
            decreases n - 1 - i,
        {
            if !self.segments[i].same(&other.segments[i]) {
                assert(self@.segments[i as int] != other@.segments[i as int]);
                return false;
            }
            i += 1;
        }
        assert(self@.leaf() == self.segments@[n - 1]@);
        assert(other@.leaf() == other.segments@[n - 1]@);
        self.segments[n - 1].ident == other.segments[n - 1].ident
    }

    /// Whether the path is exactly the one name `ident`.
    pub fn is_ident(&self, ident: &str) -> (r: bool)
        ensures
            r == self@.is_ident(ident@),
    {
        if self.leading_colon || self.segments.len() != 1 {
            return false;
        }
        let segment = &self.segments[0];
        assert(self@.segments[0] == segment@);
        match &segment.arguments {
            PathArguments::Absent => segment.ident == String::from_str(ident),
            _ => false,
        }
    }
}

/// How a bound on a type is qualified.
#[derive(Clone, Copy, Debug, PartialEq, Eq, Structural)]
pub enum BoundModifier {
    /// The type satisfies the capability, without condition.
    Unconditional,
    /// Relaxed with a question mark.
    Maybe,
    /// Negated.
    Negated,
}

/// One bound of a bound set.
#[derive(Debug, PartialEq, Eq)]
pub enum Bound {
    /// A capability, by its path.
    Trait { modifier: BoundModifier, path: Path },
    /// A lifetime, as written.
    Lifetime(String),
    /// Any other bound, as written.
    Verbatim(String),
}

/// The view of [`Bound`]: the same, with sequences for strings and vectors.
pub enum BoundView {
    Trait { modifier: BoundModifier, path: PathView },
    Lifetime(Seq<char>),
    Verbatim(Seq<char>),
}

impl View for Bound {
    type V = BoundView;

    open spec fn view(&self) -> BoundView {
        match self {
            Bound::Trait { modifier, path } => BoundView::Trait { modifier: *modifier, path: path@ },
            Bound::Lifetime(l) => BoundView::Lifetime(l@),
            Bound::Verbatim(t) => BoundView::Verbatim(t@),
        }
    }
}

impl Clone for Bound {
    fn clone(&self) -> (r: Self)
        ensures
            r@ == self@,
    {
        match self {
            Bound::Trait { modifier, path } => Bound::Trait {
                modifier: *modifier,
                path: path.clone(),
            },
            Bound::Lifetime(l) => Bound::Lifetime(l.clone()),
            Bound::Verbatim(t) => Bound::Verbatim(t.clone()),
        }
    }
}

/// Copies a bound set.
pub fn clone_bounds(bounds: &Vec<Bound>) -> (r: Vec<Bound>)
    ensures
        views(r@) == views(bounds@),
{
    let r = bounds.clone();
    assert(views(r@) =~= views(bounds@));
    r
}

/// An opaque type that satisfies a set of bounds: `impl A + B`.
#[derive(Debug, PartialEq, Eq)]
pub struct TypeImplTrait {
    pub bounds: Vec<Bound>,
}

/// A dynamically dispatched type that satisfies a set of bounds:
/// `dyn A + B`.
#[derive(Debug, PartialEq, Eq)]
pub struct TypeTraitObject {
    pub bounds: Vec<Bound>,
}

/// The view of a bound set in either form.
pub struct BoundSetView {
    pub bounds: Seq<BoundView>,
}

impl View for TypeImplTrait {
    type V = BoundSetView;

    open spec fn view(&self) -> BoundSetView {
        BoundSetView { bounds: views(self.bounds@) }
    }
}

impl View for TypeTraitObject {
    type V = BoundSetView;

    open spec fn view(&self) -> BoundSetView {
        BoundSetView { bounds: views(self.bounds@) }
    }
}

impl Clone for TypeImplTrait {
    fn clone(&self) -> (r: Self)
        ensures
            r@ == self@,
    {
        TypeImplTrait { bounds: clone_bounds(&self.bounds) }
    }
}

impl Clone for TypeTraitObject {
    fn clone(&self) -> (r: Self)
        ensures
            r@ == self@,
    {
        TypeTraitObject { bounds: clone_bounds(&self.bounds) }
    }
}

/// A type expression. `Named` is the one shape that names a type; the others
/// are built around type expressions, or stand for a type in another way.
#[derive(Debug, PartialEq, Eq)]
pub enum TypeExpr {
    /// A type named by a path, as in `a::b::Foo<T>`.
    Named(Path),
    /// A reference to a type, as in `&'a mut T`.
    Reference { lifetime: Option<String>, mutable: bool, inner: Box<TypeExpr> },
    /// A raw pointer to a type, as in `*const T`.
    Pointer { mutable: bool, inner: Box<TypeExpr> },
    /// An array of a type, with its length as written.
    Array { inner: Box<TypeExpr>, len: String },
    /// A slice of a type.
    Slice(Box<TypeExpr>),
    /// A tuple of types.
    Tuple(Vec<TypeExpr>),
    /// A type between parentheses or in an invisible group.
    Grouped(Box<TypeExpr>),
    /// The type of a function pointer.
    FunctionSignature { params: Vec<TypeExpr>, ret: Option<Box<TypeExpr>> },
    /// An opaque type known by its bounds.
    OpaqueReturn(TypeImplTrait),
    /// A dynamically dispatched type known by its bounds.
    DynamicCapability(TypeTraitObject),
    /// A path qualified by a type, as in `<T as Trait>::Item`; `position`
    /// counts the segments that name the trait.
    AssociatedPath { qualifier: Box<TypeExpr>, position: usize, path: Path },
    /// The never type.
    Never,
    /// A type left to inference.
    Inferred,
    /// A macro invocation in type position, as written.
    Macro(String),
}

/// The view of [`TypeExpr`]: the same, with sequences for strings and vectors.
pub enum TypeExprView {
    Named(PathView),
    Reference { lifetime: Option<Seq<char>>, mutable: bool, inner: Box<TypeExprView> },
    Pointer { mutable: bool, inner: Box<TypeExprView> },
    Array { inner: Box<TypeExprView>, len: Seq<char> },
    Slice(Box<TypeExprView>),
    Tuple(Seq<TypeExprView>),
    Grouped(Box<TypeExprView>),
    FunctionSignature { params: Seq<TypeExprView>, ret: Option<Box<TypeExprView>> },
    OpaqueReturn(BoundSetView),
    DynamicCapability(BoundSetView),
    AssociatedPath { qualifier: Box<TypeExprView>, position: usize, path: PathView },
    Never,
    Inferred,
    Macro(Seq<char>),
}

/// The view of a type expression, shape by shape.
pub open spec fn type_view(t: TypeExpr) -> TypeExprView
    decreases t,
{
    match t {
        TypeExpr::Named(path) => TypeExprView::Named(path@),
        TypeExpr::Reference { lifetime, mutable, inner } => TypeExprView::Reference {
            lifetime: opt_view(lifetime),
            mutable,
            inner: Box::new(type_view(*inner)),
        },
        TypeExpr::Pointer { mutable, inner } => TypeExprView::Pointer {
            mutable,
            inner: Box::new(type_view(*inner)),
        },
        TypeExpr::Array { inner, len } => TypeExprView::Array {
            inner: Box::new(type_view(*inner)),
            len: len@,
        },
        TypeExpr::Slice(inner) => TypeExprView::Slice(Box::new(type_view(*inner))),
        TypeExpr::Tuple(elems) => TypeExprView::Tuple(
            Seq::new(
                elems@.len(),
                |i: int|
                    if 0 <= i < elems@.len() {
                        type_view(elems@[i])
                    } else {
                        TypeExprView::Never
                    },
            ),
        ),
        TypeExpr::Grouped(inner) => TypeExprView::Grouped(Box::new(type_view(*inner))),
        TypeExpr::FunctionSignature { params, ret } => TypeExprView::FunctionSignature {
            params: Seq::new(
                params@.len(),
                |i: int|
                    if 0 <= i < params@.len() {
                        type_view(params@[i])
                    } else {
                        TypeExprView::Never
                    },
            ),
            ret: match ret {
                Some(r) => Some(Box::new(type_view(*r))),
                None => None,
            },
        },
        TypeExpr::OpaqueReturn(b) => TypeExprView::OpaqueReturn(b@),
        TypeExpr::DynamicCapability(b) => TypeExprView::DynamicCapability(b@),
        TypeExpr::AssociatedPath { qualifier, position, path } => TypeExprView::AssociatedPath {
            qualifier: Box::new(type_view(*qualifier)),
            position,
            path: path@,
        },
        TypeExpr::Never => TypeExprView::Never,
        TypeExpr::Inferred => TypeExprView::Inferred,
        TypeExpr::Macro(m) => TypeExprView::Macro(m@),
    }
}

impl View for TypeExpr {
    type V = TypeExprView;

    open spec fn view(&self) -> TypeExprView {
        type_view(*self)
    }
}

/// The view of a tuple holds the views of its items.
pub proof fn lemma_tuple_view(elems: Vec<TypeExpr>)
    ensures
        TypeExpr::Tuple(elems)@ == TypeExprView::Tuple(views(elems@)),
{
    assert(TypeExpr::Tuple(elems)@->Tuple_0 =~= views(elems@));
}

/// The view of a function type holds the views of its parameters.
pub proof fn lemma_function_view(params: Vec<TypeExpr>, ret: Option<Box<TypeExpr>>)
    ensures
        (TypeExpr::FunctionSignature { params, ret })@ == (TypeExprView::FunctionSignature {
            params: views(params@),
            ret: match ret {
                Some(r) => Some(Box::new(r@)),
                None => None,
            },
        }),
{
    assert((TypeExpr::FunctionSignature { params, ret })@->FunctionSignature_params =~= views(
        params@,
    ));
}

/// Copies a sequence of type expressions.
pub fn clone_types(types: &Vec<TypeExpr>) -> (r: Vec<TypeExpr>)
    ensures
        views(r@) == views(types@),
    decreases types,
{
    let mut out: Vec<TypeExpr> = Vec::new();
    let mut i: usize = 0;
    while i < types.len()
        invariant
            i <= types.len(),
            out@.len() == i,
            forall|j: int| 0 <= j < i ==> out@[j]@ == types@[j]@,
        decreases types.len() - i,
    {
        out.push(types[i].clone());
        i += 1;
    }
    assert(views(out@) =~= views(types@));
    out
}

impl Clone for TypeExpr {
    fn clone(&self) -> (r: Self)
        ensures
            r@ == self@,
        decreases self,
    {
        match self {
            TypeExpr::Named(path) => TypeExpr::Named(path.clone()),
            TypeExpr::Reference { lifetime, mutable, inner } => TypeExpr::Reference {
                lifetime: lifetime.clone(),
                mutable: *mutable,
                inner: Box::new((&**inner).clone()),
            },
            TypeExpr::Pointer { mutable, inner } => TypeExpr::Pointer {
                mutable: *mutable,
                inner: Box::new((&**inner).clone()),
            },
            TypeExpr::Array { inner, len } => TypeExpr::Array {
                inner: Box::new((&**inner).clone()),
                len: len.clone(),
            },
            TypeExpr::Slice(inner) => TypeExpr::Slice(Box::new((&**inner).clone())),
            TypeExpr::Tuple(elems) => {
                let out = clone_types(elems);
                proof {
                    lemma_tuple_view(out);
                    lemma_tuple_view(*elems);
                }
                TypeExpr::Tuple(out)
            },
            TypeExpr::Grouped(inner) => TypeExpr::Grouped(Box::new((&**inner).clone())),
            TypeExpr::FunctionSignature { params, ret } => {
                let out = clone_types(params);
                let ret_out = match ret {
                    Some(r) => Some(Box::new((&**r).clone())),
                    None => None,
                };
                proof {
                    lemma_function_view(out, ret_out);
                    lemma_function_view(*params, *ret);
                }
                TypeExpr::FunctionSignature { params: out, ret: ret_out }
            },
            TypeExpr::OpaqueReturn(b) => TypeExpr::OpaqueReturn(b.clone()),
            TypeExpr::DynamicCapability(b) => TypeExpr::DynamicCapability(b.clone()),
            TypeExpr::AssociatedPath { qualifier, position, path } => TypeExpr::AssociatedPath {
                qualifier: Box::new((&**qualifier).clone()),
                position: *position,
                path: path.clone(),
            },
            TypeExpr::Never => TypeExpr::Never,
            TypeExpr::Inferred => TypeExpr::Inferred,
            TypeExpr::Macro(m) => TypeExpr::Macro(m.clone()),
        }
    }
}

} // verus!
