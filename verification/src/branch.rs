//! The resolver: from a type expression to the type that stands for it in a
//! mock.

use vstd::prelude::*;

use crate::error::MockError;
use crate::extract::{
    bound_set_name, derive_name, extract_name_for_bounds, mock_ident, mock_suffix, MockPrepared,
    MockPreparedView, SideDeclaration, SideDeclarationView,
};
use crate::model::{opt_view, res_view, views};
use crate::syntax::{
    Bound, BoundView, Path, PathArgumentsView, PathSegmentView, PathView, TypeExpr, TypeExprView,
    TypeImplTrait, TypeTraitObject,
};

verus! {

/// A type that is known by a set of bounds.
pub trait Traitified {
    /// The bounds, in the order in which they are declared.
    spec fn bound_set(&self) -> Seq<BoundView>;

    fn bounds(&self) -> (r: &Vec<Bound>)
        ensures
            views(r@) == self.bound_set(),
    ;
}

impl Traitified for TypeImplTrait {
    open spec fn bound_set(&self) -> Seq<BoundView> {
        self@.bounds
    }

    fn bounds(&self) -> (r: &Vec<Bound>) {
        &self.bounds
    }
}

impl Traitified for TypeTraitObject {
    open spec fn bound_set(&self) -> Seq<BoundView> {
        self@.bounds
    }

    fn bounds(&self) -> (r: &Vec<Bound>) {
        &self.bounds
    }
}

/// The mock of a type named by a path: the suffix goes on the identifier of
/// the last segment; the other segments, and the generic arguments of the
/// last, stay as they are.
pub open spec fn resolve_path(path: PathView) -> Result<MockPreparedView, MockError> {
    if path.segments.len() == 0 {
        Err(MockError::StructuralImpossibility)
    } else {
        Ok(
            MockPreparedView {
                mocked_type: TypeExprView::Named(
                    path.with_leaf_ident(derive_name(path.leaf().ident)),
                ),
                side_declaration: None,
            },
        )
    }
}

/// The mock of a type known by its bounds: a fresh type, named after the
/// bound set without a suffix, and the declaration that introduces it.
pub open spec fn resolve_bounds(bounds: Seq<BoundView>) -> Result<MockPreparedView, MockError> {
    match bound_set_name(bounds) {
        Ok(name) => Ok(
            MockPreparedView {
                mocked_type: TypeExprView::Named(PathView::of_ident(name)),
                side_declaration: Some(SideDeclarationView { name }),
            },
        ),
        Err(e) => Err(e),
    }
}

/// The mock of a reference: a reference of the same lifetime and mutability
/// to the mock of what it refers to.
pub open spec fn rewrap_reference(
    lifetime: Option<Seq<char>>,
    mutable: bool,
    inner: Result<MockPreparedView, MockError>,
) -> Result<MockPreparedView, MockError> {
    match inner {
        Ok(m) => Ok(
            MockPreparedView {
                mocked_type: TypeExprView::Reference {
                    lifetime,
                    mutable,
                    inner: Box::new(m.mocked_type),
                },
                side_declaration: m.side_declaration,
            },
        ),
        Err(e) => Err(e),
    }
}

/// What a type expression resolves to. Arrays, slices and groups are
/// transparent: they resolve to what their item resolves to. A reference is
/// kept around the mock of its referent. A named type is renamed, a bound set
/// gets a fresh type. Every other shape is refused.
pub open spec fn resolve(ty: TypeExprView) -> Result<MockPreparedView, MockError>
    decreases ty,
{
    match ty {
        TypeExprView::Array { inner, len } => resolve(*inner),
        TypeExprView::Slice(inner) => resolve(*inner),
        TypeExprView::Grouped(inner) => resolve(*inner),
        TypeExprView::Reference { lifetime, mutable, inner } => rewrap_reference(
            lifetime,
            mutable,
            resolve(*inner),
        ),
        TypeExprView::OpaqueReturn(set) => resolve_bounds(set.bounds),
        TypeExprView::DynamicCapability(set) => resolve_bounds(set.bounds),
        TypeExprView::Named(path) => resolve_path(path),
        TypeExprView::Inferred => Err(MockError::StructuralImpossibility),
        TypeExprView::Pointer { .. } | TypeExprView::Tuple(_) | TypeExprView::FunctionSignature {
            ..
        } | TypeExprView::AssociatedPath { .. } | TypeExprView::Never | TypeExprView::Macro(
            _,
        ) => Err(MockError::UnsupportedShape),
    }
}

/// Resolves a type expression to the type that stands for it in a mock.
pub fn get_mocking_candidate(field: &TypeExpr) -> (r: Result<MockPrepared, MockError>)
    ensures
        res_view(r) == resolve(field@),
    decreases field, 0nat,
{
    match field {
        TypeExpr::Array { inner, len } => get_mocking_candidate(&**inner),
        TypeExpr::FunctionSignature { .. } => mock_function(field),
        TypeExpr::Grouped(inner) => get_mocking_candidate(&**inner),
        TypeExpr::OpaqueReturn(imp) => mock_and_impl_trait_for_it(imp),
        TypeExpr::Inferred => Err(MockError::StructuralImpossibility),
        TypeExpr::Macro(_) => Err(MockError::UnsupportedShape),
        TypeExpr::Never => Err(MockError::UnsupportedShape),
        TypeExpr::AssociatedPath { .. } => mock_associated_type(field),
        TypeExpr::Named(path) => resolve_path_and_mock(path),
        TypeExpr::Pointer { .. } => mock_pointer(field),
        TypeExpr::Reference { lifetime, mutable, inner } => mock_reference(
            lifetime,
            *mutable,
            &**inner,
        ),
        TypeExpr::Slice(inner) => get_mocking_candidate(&**inner),
        TypeExpr::DynamicCapability(dynamic) => mock_and_impl_trait_for_it(dynamic),
        TypeExpr::Tuple(_) => mock_tuple(field),
    }
}

/// Function types are not mocked.
pub fn mock_function(f: &TypeExpr) -> (r: Result<MockPrepared, MockError>)
    ensures
        r == Err::<MockPrepared, MockError>(MockError::UnsupportedShape),
{
    Err(MockError::UnsupportedShape)
}

/// Resolves a type known by its bounds to a fresh type named after them.
pub fn mock_and_impl_trait_for_it<T: Traitified>(imp: &T) -> (r: Result<MockPrepared, MockError>)
    ensures
        res_view(r) == resolve_bounds(imp.bound_set()),
{
    match extract_name_for_bounds(imp) {
        Ok(name) => {
            let side = create_mock(name.as_str());
            Ok(MockPrepared::new(TypeExpr::Named(Path::from_ident(name)), Some(side)))
        },
        Err(e) => Err(e),
    }
}

/// The declaration of the type without fields that is called `mock_name`.
pub fn create_mock(mock_name: &str) -> (r: SideDeclaration)
    ensures
        r@ == (SideDeclarationView { name: mock_name@ }),
{
    SideDeclaration { name: String::from_str(mock_name) }
}

/// Raw pointers are not mocked.
pub fn mock_pointer(p: &TypeExpr) -> (r: Result<MockPrepared, MockError>)
    ensures
        r == Err::<MockPrepared, MockError>(MockError::UnsupportedShape),
{
    Err(MockError::UnsupportedShape)
}

/// Paths qualified by a type are not mocked.
pub fn mock_associated_type(p: &TypeExpr) -> (r: Result<MockPrepared, MockError>)
    ensures
        r == Err::<MockPrepared, MockError>(MockError::UnsupportedShape),
{
    Err(MockError::UnsupportedShape)
}

/// Resolves a reference: what it refers to is mocked, the reference stays.
pub fn mock_reference(lifetime: &Option<String>, mutable: bool, inner: &TypeExpr) -> (r: Result<
    MockPrepared,
    MockError,
>)
    ensures
        res_view(r) == rewrap_reference(opt_view(*lifetime), mutable, resolve(inner@)),
    decreases inner, 1nat,
{
    match get_mocking_candidate(inner) {
        Ok(m) => {
            let MockPrepared { mocked_type, side_declaration } = m;
            Ok(
                MockPrepared::new(
                    TypeExpr::Reference {
                        lifetime: lifetime.clone(),
                        mutable,
                        inner: Box::new(mocked_type),
                    },
                    side_declaration,
                ),
            )
        },
        Err(e) => Err(e),
    }
}

/// Resolves a type named by a path: its last segment gets the name of the
/// mock.
pub fn resolve_path_and_mock(path: &Path) -> (r: Result<MockPrepared, MockError>)
    ensures
        res_view(r) == resolve_path(path@),
{
    let n = path.segments.len();
    if n == 0 {
        return Err(MockError::StructuralImpossibility);
    }
    let leaf = &path.segments[n - 1];
    assert(path@.leaf() == leaf@);
    let mocked = path.with_leaf_ident(mock_ident(&leaf.ident));
    Ok(MockPrepared::new(TypeExpr::Named(mocked), None))
}

/// Tuples are not mocked.
pub fn mock_tuple(t: &TypeExpr) -> (r: Result<MockPrepared, MockError>)
    ensures
        r == Err::<MockPrepared, MockError>(MockError::UnsupportedShape),
{
    Err(MockError::UnsupportedShape)
}

/// A type named by a single segment resolves to the type of the same
/// generic arguments whose name carries the suffix, and needs no declaration
/// of its own.
pub proof fn lemma_resolve_single_segment(
    leading_colon: bool,
    ident: Seq<char>,
    arguments: PathArgumentsView,
)
    ensures
        resolve(
            TypeExprView::Named(
                PathView { leading_colon, segments: seq![PathSegmentView { ident, arguments }] },
            ),
        ) == Ok::<MockPreparedView, MockError>(
            MockPreparedView {
                mocked_type: TypeExprView::Named(
                    PathView {
                        leading_colon,
                        segments: seq![
                            PathSegmentView { ident: ident + mock_suffix(), arguments },
                        ],
                    },
                ),
                side_declaration: None,
            },
        ),
{
    let path = PathView { leading_colon, segments: seq![PathSegmentView { ident, arguments }] };
    assert(path.with_leaf_ident(derive_name(ident)).segments =~= seq![
        PathSegmentView { ident: ident + mock_suffix(), arguments },
    ]);
}

/// Of a path of several segments only the last is renamed: the segments
/// before it, and the generic arguments of the last, are those of the path.
pub proof fn lemma_resolve_renames_leaf_only(path: PathView)
    requires
        path.segments.len() > 0,
    ensures
        ({
            &&& resolve(TypeExprView::Named(path)) matches Ok(m)
            &&& m.side_declaration is None
            &&& m.mocked_type matches TypeExprView::Named(mocked)
            &&& mocked.leading_colon == path.leading_colon
            &&& mocked.segments.len() == path.segments.len()
            &&& forall|i: int|
                0 <= i < path.segments.len() - 1 ==> mocked.segments[i] == path.segments[i]
            &&& mocked.leaf().ident == path.leaf().ident + mock_suffix()
            &&& mocked.leaf().arguments == path.leaf().arguments
        }),
{
}

/// A reference resolves to a reference of the same lifetime and mutability
/// to what its referent resolves to, and fails as its referent fails.
pub proof fn lemma_resolve_reference(
    lifetime: Option<Seq<char>>,
    mutable: bool,
    inner: TypeExprView,
)
    ensures
        match resolve(inner) {
            Ok(m) => resolve(TypeExprView::Reference { lifetime, mutable, inner: Box::new(inner) })
                == Ok::<MockPreparedView, MockError>(
                MockPreparedView {
                    mocked_type: TypeExprView::Reference {
                        lifetime,
                        mutable,
                        inner: Box::new(m.mocked_type),
                    },
                    side_declaration: m.side_declaration,
                },
            ),
            Err(e) => resolve(TypeExprView::Reference { lifetime, mutable, inner: Box::new(inner) })
                == Err::<MockPreparedView, MockError>(e),
        },
{
}

/// An array, a slice and a group resolve to what their item resolves to: the
/// container has no part in the name.
pub proof fn lemma_resolve_through_containers(inner: TypeExprView, len: Seq<char>)
    ensures
        resolve(TypeExprView::Array { inner: Box::new(inner), len }) == resolve(inner),
        resolve(TypeExprView::Slice(Box::new(inner))) == resolve(inner),
        resolve(TypeExprView::Grouped(Box::new(inner))) == resolve(inner),
{
}

} // verus!
