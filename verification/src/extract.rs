//! Names of mocks, and what a declaration says about the values of its mock.

use vstd::prelude::*;

use crate::branch::Traitified;
use crate::constructor::{
    override_name, Constructor, ConstructorBody, ConstructorBodyView, ConstructorReturn,
    ConstructorReturnView, ConstructorView, Directive, FieldOverride, FieldOverrideView,
    FieldValue, FieldValueView,
};
use crate::decl::{
    clone_attrs, Attribute, AttributeView, Callee, CalleeView, Expr, ExprView, Field, FieldView, Fields,
    FieldsView, GenericParam, GenericParamView, Generics, GenericsView, Item, ItemEnum,
    ItemEnumView, ItemStruct, ItemStructView, ItemView, Variant, VariantView,
};
use crate::error::MockError;
use crate::model::{
    first_where, lemma_first_where, lemma_first_where_found, lemma_first_where_step,
    lemma_try_map_fails, lemma_try_map_ok, lemma_try_map_step, lemma_views_empty, lemma_views_push, opt_view, res_view, res_views,
    try_map, views,
};
use crate::syntax::{
    Bound, BoundModifier, BoundView, Path, PathArguments, PathArgumentsView, PathSegment,
    PathSegmentView, PathView, TypeExpr, TypeExprView,
};

verus! {

/// A nominal type without fields, declared beside a mock because no
/// declaration exists that could be renamed.
#[derive(Debug, PartialEq, Eq)]
pub struct SideDeclaration {
    pub name: String,
}

/// The view of [`SideDeclaration`]: the same, with sequences for strings and vectors.
pub struct SideDeclarationView {
    pub name: Seq<char>,
}

impl View for SideDeclaration {
    type V = SideDeclarationView;

    open spec fn view(&self) -> SideDeclarationView {
        SideDeclarationView { name: self.name@ }
    }
}

impl Clone for SideDeclaration {
    fn clone(&self) -> (r: Self)
        ensures
            r@ == self@,
    {
        SideDeclaration { name: self.name.clone() }
    }
}

/// What resolving a type expression gives: the type that stands for it in a
/// mock and, where that type had to be invented, its declaration.
#[derive(Debug, PartialEq, Eq)]
pub struct MockPrepared {
    pub mocked_type: TypeExpr,
    pub side_declaration: Option<SideDeclaration>,
}

/// The view of [`MockPrepared`]: the same, with sequences for strings and vectors.
pub struct MockPreparedView {
    pub mocked_type: TypeExprView,
    pub side_declaration: Option<SideDeclarationView>,
}

impl View for MockPrepared {
    type V = MockPreparedView;

    open spec fn view(&self) -> MockPreparedView {
        MockPreparedView {
            mocked_type: self.mocked_type@,
            side_declaration: opt_view(self.side_declaration),
        }
    }
}

impl MockPrepared {
    pub fn new(mocked_type: TypeExpr, side_declaration: Option<SideDeclaration>) -> (r: Self)
        ensures
            r.mocked_type == mocked_type,
            r.side_declaration == side_declaration,
    {
        Self { mocked_type, side_declaration }
    }
}

/// The name of a type: an identifier and, where the type was written with
/// one, its list of generic arguments, kept as written.
#[derive(Debug, PartialEq, Eq)]
pub struct Extracted {
    pub name: String,
    pub generics: Option<String>,
}

/// The view of [`Extracted`]: the same, with sequences for strings and vectors.
pub struct ExtractedView {
    pub name: Seq<char>,
    pub generics: Option<Seq<char>>,
}

impl View for Extracted {
    type V = ExtractedView;

    open spec fn view(&self) -> ExtractedView {
        ExtractedView { name: self.name@, generics: opt_view(self.generics) }
    }
}

impl Clone for Extracted {
    fn clone(&self) -> (r: Self)
        ensures
            r@ == self@,
    {
        Extracted { name: self.name.clone(), generics: self.generics.clone() }
    }
}

impl Extracted {
    pub fn new(name: String, generics: Option<String>) -> (r: Self)
        ensures
            r.name == name,
            r.generics == generics,
    {
        Self { name, generics }
    }

    pub fn with_ident(name: String) -> (r: Self)
        ensures
            r.name == name,
            r.generics is None,
    {
        Self { name, generics: None }
    }
}

/// The suffix that turns the name of a type into the name of its mock.
pub open spec fn mock_suffix() -> Seq<char> {
    seq!['M', 'o', 'c', 'k']
}

/// The name of the mock of the type named `name`. Deriving twice appends the
/// suffix twice.
pub open spec fn derive_name(name: Seq<char>) -> Seq<char> {
    name + mock_suffix()
}

/// Deriving the name of a mock is not idempotent: the second time the suffix
/// is appended again.
pub proof fn lemma_derive_name_twice(name: Seq<char>)
    ensures
        derive_name(derive_name(name)) == name + mock_suffix() + mock_suffix(),
        derive_name(derive_name(name)) != derive_name(name),
{
    assert(derive_name(derive_name(name)).len() == derive_name(name).len() + 4);
}

/// What one bound adds to the name of a bound set: the leaf identifier of an
/// unconditional capability, and nothing for any other bound.
pub open spec fn bound_ident(bound: BoundView) -> Seq<char> {
    match bound {
        BoundView::Trait { modifier, path } => if modifier == BoundModifier::Unconditional
            && path.segments.len() > 0 {
            path.leaf().ident
        } else {
            Seq::empty()
        },
        _ => Seq::empty(),
    }
}

/// The identifiers of the unconditional capabilities of a bound set, in the
/// order in which they are declared, with nothing between them.
pub open spec fn bounds_name(bounds: Seq<BoundView>) -> Seq<char>
    decreases bounds.len(),
{
    if bounds.len() == 0 {
        Seq::empty()
    } else {
        bounds_name(bounds.drop_last()) + bound_ident(bounds.last())
    }
}

/// The name that stands for a bound set. A bound set without an
/// unconditional capability has none.
pub open spec fn bound_set_name(bounds: Seq<BoundView>) -> Result<Seq<char>, MockError> {
    if bounds_name(bounds).len() == 0 {
        Err(MockError::StructuralImpossibility)
    } else {
        Ok(bounds_name(bounds))
    }
}

/// The name of the type at the end of a path, with the generic arguments of
/// its last segment.
pub open spec fn path_name(path: PathView) -> Result<ExtractedView, MockError> {
    if path.segments.len() == 0 {
        Err(MockError::StructuralImpossibility)
    } else {
        match path.leaf().arguments {
            PathArgumentsView::Absent => Ok(
                ExtractedView { name: path.leaf().ident, generics: None },
            ),
            PathArgumentsView::AngleBracketed(args) => Ok(
                ExtractedView { name: path.leaf().ident, generics: Some(args) },
            ),
            PathArgumentsView::Parenthesized(_) => Err(MockError::StructuralImpossibility),
        }
    }
}

/// The name of the type that a type expression stands for, where it has one:
/// a named type has the name at the end of its path, a bound set the name
/// made of its capabilities.
pub open spec fn name_of_type(ty: TypeExprView) -> Result<ExtractedView, MockError> {
    match ty {
        TypeExprView::Named(path) => path_name(path),
        TypeExprView::OpaqueReturn(set) | TypeExprView::DynamicCapability(set) => match bound_set_name(
            set.bounds,
        ) {
            Ok(name) => Ok(ExtractedView { name, generics: None }),
            Err(e) => Err(e),
        },
        TypeExprView::Inferred => Err(MockError::StructuralImpossibility),
        _ => Err(MockError::UnsupportedShape),
    }
}

/// The name of the mock of a named type: the suffix on the identifier, the
/// generic arguments as they were.
pub open spec fn mock_name(name: ExtractedView) -> ExtractedView {
    ExtractedView { name: derive_name(name.name), generics: name.generics }
}

/// A type expression, or a path, that may name a type.
pub trait ExtractName {
    /// The name, or why there is none.
    spec fn extracted(&self) -> Result<ExtractedView, MockError>;

    fn extract_name(&self) -> (r: Result<Extracted, MockError>)
        ensures
            res_view(r) == self.extracted(),
    ;
}

impl ExtractName for TypeExpr {
    open spec fn extracted(&self) -> Result<ExtractedView, MockError> {
        name_of_type(self@)
    }

    fn extract_name(&self) -> (r: Result<Extracted, MockError>) {
        match self {
            TypeExpr::Named(path) => path.extract_name(),
            TypeExpr::OpaqueReturn(set) => match extract_name_for_bounds(set) {
                Ok(name) => Ok(Extracted::with_ident(name)),
                Err(e) => Err(e),
            },
            TypeExpr::DynamicCapability(set) => match extract_name_for_bounds(set) {
                Ok(name) => Ok(Extracted::with_ident(name)),
                Err(e) => Err(e),
            },
            TypeExpr::Inferred => Err(MockError::StructuralImpossibility),
            _ => Err(MockError::UnsupportedShape),
        }
    }
}

impl ExtractName for Path {
    open spec fn extracted(&self) -> Result<ExtractedView, MockError> {
        path_name(self@)
    }

    fn extract_name(&self) -> (r: Result<Extracted, MockError>) {
        let n = self.segments.len();
        if n == 0 {
            return Err(MockError::StructuralImpossibility);
        }
        let segment = &self.segments[n - 1];
        assert(self@.leaf() == segment@);
        match &segment.arguments {
            PathArguments::AngleBracketed(args) => Ok(
                Extracted::new(segment.ident.clone(), Some(args.clone())),
            ),
            PathArguments::Absent => Ok(Extracted::with_ident(segment.ident.clone())),
            PathArguments::Parenthesized(_) => Err(MockError::StructuralImpossibility),
        }
    }
}

/// The name that stands for the bound set of `imp`: the leaf identifiers of
/// its unconditional capabilities, one after the other.
pub fn extract_name_for_bounds<T: Traitified>(imp: &T) -> (r: Result<String, MockError>)
    ensures
        res_view(r) == bound_set_name(imp.bound_set()),
{
    let bounds = imp.bounds();
    let mut name = String::new();
    let mut i: usize = 0;
    while i < bounds.len()
        invariant
            i <= bounds.len(),
            name@ == bounds_name(views(bounds@).take(i as int)),
        decreases bounds.len() - i,
    {
        proof {
            let all = views(bounds@);
            assert(all.take(i + 1).drop_last() =~= all.take(i as int));
            assert(all.take(i + 1).last() == bounds@[i as int]@);
        }
        match &bounds[i] {
            Bound::Trait { modifier, path } => {
                let n = path.segments.len();
                if *modifier == BoundModifier::Unconditional && n > 0 {
                    assert(path@.leaf() == path.segments@[n - 1]@);
                    name.append(path.segments[n - 1].ident.as_str());
                }
            },
            _ => {},
        }
        i += 1;
    }
    assert(views(bounds@).take(bounds.len() as int) =~= views(bounds@));
    if name.as_str().is_empty() {
        Err(MockError::StructuralImpossibility)
    } else {
        Ok(name)
    }
}

/// The identifier of the mock of the type called `name`.
pub fn mock_ident(name: &String) -> (r: String)
    ensures
        r@ == derive_name(name@),
{
    let mut out = name.clone();
    out.append("Mock");
    proof {
        reveal_strlit("Mock");
        assert("Mock"@ =~= mock_suffix());
    }
    out
}

/// The name of the mock of the type named `name`.
pub fn prepare_mock_name(name: &Extracted) -> (r: Extracted)
    ensures
        r@ == mock_name(name@),
{
    Extracted::new(mock_ident(&name.name), name.generics.clone())
}

/// The value of the mock of one field of a structure: what the first
/// `mocked_with` directive of the field lists, as written, and the default
/// value of its type where it has no such directive. A directive in another
/// form than a list is refused.
pub open spec fn field_override(field: FieldView) -> Result<FieldOverrideView, MockError> {
    match Directive::Override.first_in(field.attrs) {
        Some(AttributeView::List { tokens, .. }) => Ok(
            FieldOverrideView { ident: field.ident, value: FieldValueView::Given(tokens) },
        ),
        Some(_) => Err(MockError::MalformedDirective),
        None => Ok(FieldOverrideView { ident: field.ident, value: FieldValueView::DefaultValue }),
    }
}

/// `field_override` as a function on fields.
pub open spec fn field_override_fn() -> spec_fn(FieldView) -> Result<FieldOverrideView, MockError> {
    |field: FieldView| field_override(field)
}

/// The values of the mocks of the fields, in the order in which the fields
/// are declared; the first refused directive refuses them all.
pub open spec fn overrides(fields: Seq<FieldView>) -> Result<Seq<FieldOverrideView>, MockError> {
    try_map(fields, field_override_fn())
}

/// Whether one of the overrides is that of a field with a name.
pub open spec fn any_named(values: Seq<FieldOverrideView>) -> bool {
    exists|i: int| 0 <= i < values.len() && (#[trigger] values[i]).ident is Some
}

/// How the values are laid out in the constructor: nothing for no field, by
/// position where no field has a name, by identifier where one has.
pub open spec fn layout(values: Seq<FieldOverrideView>) -> ConstructorBodyView {
    if values.len() == 0 {
        ConstructorBodyView::Empty
    } else if any_named(values) {
        ConstructorBodyView::Named(values)
    } else {
        ConstructorBodyView::Positional(values)
    }
}

/// A generic parameter without its bounds. Constant parameters are refused.
pub open spec fn strip_param(param: GenericParamView) -> Result<GenericParamView, MockError> {
    match param {
        GenericParamView::Type { ident, bounds, default } => Ok(
            GenericParamView::Type { ident, bounds: Seq::empty(), default },
        ),
        GenericParamView::Lifetime(l) => Ok(param),
        GenericParamView::Const(_) => Err(MockError::UnsupportedShape),
    }
}

/// `strip_param` as a function on parameters.
pub open spec fn strip_param_fn() -> spec_fn(GenericParamView) -> Result<
    GenericParamView,
    MockError,
> {
    |param: GenericParamView| strip_param(param)
}

/// The generic parameters without the bounds of the type parameters.
pub open spec fn strip_bounds(generics: GenericsView) -> Result<GenericsView, MockError> {
    match try_map(generics.params, strip_param_fn()) {
        Ok(params) => Ok(GenericsView { params, where_clause: generics.where_clause }),
        Err(e) => Err(e),
    }
}

/// Stripped generic parameters are the parameters that were there, in their
/// order, none of them constant, and no type parameter among them has a bound.
pub proof fn lemma_stripped_has_no_bounds(generics: GenericsView)
    requires
        strip_bounds(generics) is Ok,
    ensures
        ({
            let stripped = strip_bounds(generics)->Ok_0;
            &&& stripped.where_clause == generics.where_clause
            &&& stripped.params.len() == generics.params.len()
            &&& forall|i: int|
                0 <= i < generics.params.len() ==> match #[trigger] generics.params[i] {
                    GenericParamView::Type { ident, bounds, default } => stripped.params[i]
                        == (GenericParamView::Type { ident, bounds: Seq::empty(), default }),
                    GenericParamView::Lifetime(_) => stripped.params[i] == generics.params[i],
                    GenericParamView::Const(_) => false,
                }
        }),
{
    lemma_try_map_ok(generics.params, strip_param_fn());
    let stripped = strip_bounds(generics)->Ok_0;
    assert forall|i: int| 0 <= i < generics.params.len() implies match #[trigger] generics.params[i] {
        GenericParamView::Type { ident, bounds, default } => stripped.params[i]
            == (GenericParamView::Type { ident, bounds: Seq::empty(), default }),
        GenericParamView::Lifetime(_) => stripped.params[i] == generics.params[i],
        GenericParamView::Const(_) => false,
    } by {
        assert(strip_param_fn()(generics.params[i]) == Ok::<GenericParamView, MockError>(
            stripped.params[i],
        ));
    }
}

/// The constructor of a structure. It is attached to the structure under its
/// own name, with the generic parameters of the structure without their
/// bounds, and gives back `Self`.
pub open spec fn struct_constructor(item: ItemStructView) -> Result<ConstructorView, MockError> {
    match overrides(item.fields.list()) {
        Err(e) => Err(e),
        Ok(values) => match strip_bounds(item.generics) {
            Err(e) => Err(e),
            Ok(stripped) => Ok(
                ConstructorView {
                    generics: stripped,
                    self_name: item.ident,
                    output: ConstructorReturnView::SelfType,
                    body: layout(values),
                },
            ),
        },
    }
}

/// The test that a segment is called `name`.
pub open spec fn called_fn(name: Seq<char>) -> spec_fn(PathSegmentView) -> bool {
    |segment: PathSegmentView| segment.ident == name
}

/// The path in which the first segment called `name` is called `mocked`. A
/// path without such a segment is refused.
pub open spec fn rename_in_path(path: PathView, name: Seq<char>, mocked: Seq<char>) -> Result<
    PathView,
    MockError,
> {
    match first_where(path.segments, called_fn(name)) {
        Some(i) => Ok(
            PathView {
                leading_colon: path.leading_colon,
                segments: path.segments.update(
                    i,
                    PathSegmentView { ident: mocked, arguments: path.segments[i].arguments },
                ),
            },
        ),
        None => Err(MockError::StructuralImpossibility),
    }
}

/// The value expression in which the type called `name` is called `mocked`:
/// in a path, and in the path that a call calls. A call of anything else
/// stays as it is; any other expression is refused.
pub open spec fn rename_in_expr(expr: ExprView, name: Seq<char>, mocked: Seq<char>) -> Result<
    ExprView,
    MockError,
> {
    match expr {
        ExprView::Path(path) => match rename_in_path(path, name, mocked) {
            Ok(p) => Ok(ExprView::Path(p)),
            Err(e) => Err(e),
        },
        ExprView::Call { func: CalleeView::Path(path), args } => match rename_in_path(
            path,
            name,
            mocked,
        ) {
            Ok(p) => Ok(ExprView::Call { func: CalleeView::Path(p), args }),
            Err(e) => Err(e),
        },
        ExprView::Call { func: CalleeView::Other(_), args } => Ok(expr),
        ExprView::Other(_) => Err(MockError::UnsupportedShape),
    }
}

/// Whether a variant carries a directive that selects it.
pub open spec fn selected(variant: VariantView) -> bool {
    Directive::Selection.first_in(variant.attrs) is Some
}

/// `selected` as a test on variants.
pub open spec fn selected_fn() -> spec_fn(VariantView) -> bool {
    |variant: VariantView| selected(variant)
}

/// The payload that a field of a variant gives: the value of its first
/// `mocked_with` directive with a value.
pub open spec fn field_payload(field: FieldView) -> Option<ExprView> {
    match Directive::Payload.first_in(field.attrs) {
        Some(AttributeView::NameValue { value, .. }) => Some(value),
        _ => None,
    }
}

/// The test that a field gives a payload.
pub open spec fn gives_payload_fn() -> spec_fn(FieldView) -> bool {
    |field: FieldView| field_payload(field) is Some
}

/// The payload that the fields of a variant give: that of the first field
/// that gives one.
pub open spec fn variant_payload(variant: VariantView) -> Option<ExprView> {
    match first_where(variant.fields.list(), gives_payload_fn()) {
        Some(i) => field_payload(variant.fields.list()[i]),
        None => None,
    }
}

/// The test that a field of a variant gives a payload.
pub open spec fn has_payload_fn() -> spec_fn(VariantView) -> bool {
    |variant: VariantView| variant_payload(variant) is Some
}

/// What the directives on a variant type itself make its constructor
/// evaluate, if anything: the value of `mocked_with`, with the type under the
/// name of its mock, or for `mocked_with_default` the default value of the
/// type. The first directive in either form decides.
pub open spec fn type_level_value(item: ItemEnumView, mocked: Seq<char>) -> Result<
    Option<ConstructorBodyView>,
    MockError,
> {
    match Directive::TypeLevel.first_in(item.attrs) {
        None => Ok(None),
        Some(AttributeView::NameValue { path, value }) => if path.is_ident(override_name()) {
            match rename_in_expr(value, item.ident, mocked) {
                Ok(v) => Ok(Some(ConstructorBodyView::Expression(v))),
                Err(e) => Err(e),
            }
        } else {
            Ok(Some(ConstructorBodyView::TypeDefault { name: item.ident }))
        },
        Some(_) => Ok(Some(ConstructorBodyView::TypeDefault { name: item.ident })),
    }
}

/// What the constructor of a variant type gives back and evaluates. Of these,
/// the first that applies decides, whatever else is present:
/// the first variant that carries a `mocked_with` directive, which gives the
/// value of the directive, or the variant without payload where the directive
/// has no value; the first variant one of whose fields carries a
/// `mocked_with` value, which gives that variant with that payload; a
/// directive on the type itself; the default value of the type.
pub open spec fn enum_body(item: ItemEnumView) -> Result<
    (ConstructorReturnView, ConstructorBodyView),
    MockError,
> {
    let mocked = derive_name(item.ident);
    match first_where(item.variants, selected_fn()) {
        Some(i) => match Directive::Selection.first_in(item.variants[i].attrs) {
            Some(AttributeView::NameValue { value, .. }) => match rename_in_expr(
                value,
                item.ident,
                mocked,
            ) {
                Ok(v) => Ok(
                    (ConstructorReturnView::Named(mocked), ConstructorBodyView::Expression(v)),
                ),
                Err(e) => Err(e),
            },
            _ => Ok(
                (
                    ConstructorReturnView::Named(mocked),
                    ConstructorBodyView::Variant { name: item.variants[i].ident, payload: None },
                ),
            ),
        },
        None => match first_where(item.variants, has_payload_fn()) {
            Some(i) => Ok(
                (
                    ConstructorReturnView::Named(mocked),
                    ConstructorBodyView::Variant {
                        name: item.variants[i].ident,
                        payload: variant_payload(item.variants[i]),
                    },
                ),
            ),
            None => match type_level_value(item, mocked) {
                Err(e) => Err(e),
                Ok(Some(body)) => Ok((ConstructorReturnView::Named(mocked), body)),
                Ok(None) => Ok(
                    (ConstructorReturnView::SelfType, ConstructorBodyView::SelfDefault),
                ),
            },
        },
    }
}

/// The constructor of a variant type: attached to the type under its own
/// name, without generic parameters.
pub open spec fn enum_constructor(item: ItemEnumView) -> Result<ConstructorView, MockError> {
    match enum_body(item) {
        Ok((output, body)) => Ok(
            ConstructorView {
                generics: GenericsView::empty(),
                self_name: item.ident,
                output,
                body,
            },
        ),
        Err(e) => Err(e),
    }
}

/// The value of the mock of one field of a structure.
pub fn extract_override(field: &Field) -> (r: Result<FieldOverride, MockError>)
    ensures
        res_view(r) == field_override(field@),
{
    match Directive::Override.find(&field.attrs) {
        Some(Attribute::List { tokens, .. }) => Ok(
            FieldOverride { ident: field.ident.clone(), value: FieldValue::Given(tokens.clone()) },
        ),
        Some(_) => Err(MockError::MalformedDirective),
        None => Ok(FieldOverride { ident: field.ident.clone(), value: FieldValue::DefaultValue }),
    }
}

/// The values of the mocks of the fields, in the order in which the fields
/// are declared.
pub fn extract_overrides(fields: &Vec<Field>) -> (r: Result<Vec<FieldOverride>, MockError>)
    ensures
        res_views(r) == overrides(views(fields@)),
{
    let ghost all = views(fields@);
    let mut out: Vec<FieldOverride> = Vec::new();
    let mut i: usize = 0;
    proof {
        lemma_views_empty::<FieldOverride>();
        assert(all.take(0) =~= Seq::empty());
    }
    while i < fields.len()
        invariant
            i <= fields.len(),
            all == views(fields@),
            try_map(all.take(i as int), field_override_fn()) == Ok::<
                Seq<FieldOverrideView>,
                MockError,
            >(views(out@)),
        decreases fields.len() - i,
    {
        proof {
            lemma_try_map_step(all, field_override_fn(), i as int);
        }
        match extract_override(&fields[i]) {
            Ok(value) => {
                proof {
                    lemma_views_push(out@, value);
                }
                out.push(value);
            },
            Err(e) => {
                proof {
                    lemma_try_map_fails(all, field_override_fn(), i + 1);
                }
                return Err(e);
            },
        }
        i += 1;
    }
    proof {
        assert(all.take(fields.len() as int) =~= all);
    }
    Ok(out)
}

/// Whether one of the overrides is that of a field with a name.
fn has_named(values: &Vec<FieldOverride>) -> (r: bool)
    ensures
        r == any_named(views(values@)),
{
    let mut i: usize = 0;
    while i < values.len()
        invariant
            i <= values.len(),
            forall|j: int| 0 <= j < i ==> (#[trigger] views(values@)[j]).ident is None,
        decreases values.len() - i,
    {
        if values[i].ident.is_some() {
            assert(views(values@)[i as int].ident is Some);
            return true;
        }
        i += 1;
    }
    false
}

/// Takes the bounds off the type parameters. Where a constant parameter is
/// met, nothing is changed and the parameters are refused.
pub fn extract_generics_from_bounds(bounds: &mut Generics) -> (r: Result<(), MockError>)
    ensures
        match strip_bounds(old(bounds)@) {
            Ok(stripped) => r is Ok && final(bounds)@ == stripped,
            Err(e) => r == Err::<(), MockError>(e) && final(bounds)@ == old(bounds)@,
        },
{
    let ghost all = bounds@.params;
    let mut out: Vec<GenericParam> = Vec::new();
    let mut i: usize = 0;
    proof {
        lemma_views_empty::<GenericParam>();
        assert(all.take(0) =~= Seq::empty());
    }
    while i < bounds.params.len()
        invariant
            i <= bounds.params.len(),
            *bounds == *old(bounds),
            all == views(bounds.params@),
            try_map(all.take(i as int), strip_param_fn()) == Ok::<Seq<GenericParamView>, MockError>(
                views(out@),
            ),
        decreases bounds.params.len() - i,
    {
        proof {
            lemma_try_map_step(all, strip_param_fn(), i as int);
        }
        let stripped = match &bounds.params[i] {
            GenericParam::Type { ident, bounds: _, default } => {
                let none: Vec<Bound> = Vec::new();
                proof {
                    lemma_views_empty::<Bound>();
                }
                GenericParam::Type { ident: ident.clone(), bounds: none, default: default.clone() }
            },
            GenericParam::Lifetime(l) => GenericParam::Lifetime(l.clone()),
            GenericParam::Const(_) => {
                proof {
                    lemma_try_map_fails(all, strip_param_fn(), i + 1);
                }
                return Err(MockError::UnsupportedShape);
            },
        };
        proof {
            lemma_views_push(out@, stripped);
        }
        out.push(stripped);
        i += 1;
    }
    proof {
        assert(all.take(bounds.params.len() as int) =~= all);
    }
    bounds.params = out;
    Ok(())
}

/// The constructor of a structure: the block that gives it `mock_new`, which
/// builds a value from the overrides of its fields.
pub fn parse_fields_and_generate_for_values(schtruct: &ItemStruct) -> (r: Result<
    Constructor,
    MockError,
>)
    ensures
        res_view(r) == struct_constructor(schtruct@),
{
    let values = match &schtruct.fields {
        Fields::Named(fields) => extract_overrides(fields),
        Fields::Unnamed(fields) => extract_overrides(fields),
        Fields::Unit => {
            let none: Vec<Field> = Vec::new();
            proof {
                lemma_views_empty::<Field>();
            }
            extract_overrides(&none)
        },
    };
    let values = match values {
        Ok(values) => values,
        Err(e) => {
            return Err(e);
        },
    };
    let mut stripped = schtruct.generics.clone();
    match extract_generics_from_bounds(&mut stripped) {
        Ok(()) => {},
        Err(e) => {
            return Err(e);
        },
    }
    let body = if values.len() == 0 {
        ConstructorBody::Empty
    } else if has_named(&values) {
        ConstructorBody::Named(values)
    } else {
        ConstructorBody::Positional(values)
    };
    Ok(
        Constructor {
            generics: stripped,
            self_name: schtruct.ident.clone(),
            output: ConstructorReturn::SelfType,
            body,
        },
    )
}

/// Renames the first segment called `name` to `mocked`.
fn rename_path(path: &Path, name: &String, mocked: &String) -> (r: Result<Path, MockError>)
    ensures
        res_view(r) == rename_in_path(path@, name@, mocked@),
{
    let ghost all = path@.segments;
    let mut i: usize = 0;
    while i < path.segments.len()
        invariant
            i <= path.segments.len(),
            all == views(path.segments@),
            first_where(all.take(i as int), called_fn(name@)) is None,
        decreases path.segments.len() - i,
    {
        proof {
            lemma_first_where_step(all, called_fn(name@), i as int);
        }
        if path.segments[i].ident == *name {
            proof {
                lemma_first_where_found(all, called_fn(name@), i + 1);
            }
            let mut renamed = path.clone();
            let segment = PathSegment {
                ident: mocked.clone(),
                arguments: path.segments[i].arguments.clone(),
            };
            renamed.segments.set(i, segment);
            assert(renamed@.segments =~= all.update(
                i as int,
                PathSegmentView { ident: mocked@, arguments: all[i as int].arguments },
            ));
            return Ok(renamed);
        }
        i += 1;
    }
    proof {
        assert(all.take(path.segments.len() as int) =~= all);
    }
    Err(MockError::StructuralImpossibility)
}

/// The value expression in which the type called `name` goes under the name
/// of its mock.
pub fn replace_with_mocked(expr: &Expr, name: &String, mocked: &Extracted) -> (r: Result<
    Expr,
    MockError,
>)
    ensures
        res_view(r) == rename_in_expr(expr@, name@, mocked@.name),
{
    match expr {
        Expr::Path(path) => match rename_path(path, name, &mocked.name) {
            Ok(p) => Ok(Expr::Path(p)),
            Err(e) => Err(e),
        },
        Expr::Call { func: Callee::Path(path), args } => match rename_path(
            path,
            name,
            &mocked.name,
        ) {
            Ok(p) => Ok(Expr::Call { func: Callee::Path(p), args: args.clone() }),
            Err(e) => Err(e),
        },
        Expr::Call { func: Callee::Other(_), args } => Ok(expr.clone()),
        Expr::Other(_) => Err(MockError::UnsupportedShape),
    }
}

/// The payload that a field of a variant gives.
fn payload_of_field(field: &Field) -> (r: Option<Expr>)
    ensures
        opt_view(r) == field_payload(field@),
{
    match Directive::Payload.find(&field.attrs) {
        Some(Attribute::NameValue { value, .. }) => Some(value.clone()),
        _ => None,
    }
}

/// The payload that the first field of a list gives that gives one.
fn payload_of_fields(fields: &Vec<Field>) -> (r: Option<Expr>)
    ensures
        opt_view(r) == match first_where(views(fields@), gives_payload_fn()) {
            Some(i) => field_payload(views(fields@)[i]),
            None => None,
        },
{
    let ghost all = views(fields@);
    let mut i: usize = 0;
    while i < fields.len()
        invariant
            i <= fields.len(),
            all == views(fields@),
            first_where(all.take(i as int), gives_payload_fn()) is None,
        decreases fields.len() - i,
    {
        proof {
            lemma_first_where_step(all, gives_payload_fn(), i as int);
        }
        let payload = payload_of_field(&fields[i]);
        if payload.is_some() {
            proof {
                lemma_first_where_found(all, gives_payload_fn(), i + 1);
            }
            return payload;
        }
        i += 1;
    }
    proof {
        assert(all.take(fields.len() as int) =~= all);
    }
    None
}

/// The payload that the fields of a variant give.
fn payload_of_variant(variant: &Variant) -> (r: Option<Expr>)
    ensures
        opt_view(r) == variant_payload(variant@),
{
    match &variant.fields {
        Fields::Named(fields) => payload_of_fields(fields),
        Fields::Unnamed(fields) => payload_of_fields(fields),
        Fields::Unit => {
            let none: Vec<Field> = Vec::new();
            proof {
                lemma_views_empty::<Field>();
            }
            payload_of_fields(&none)
        },
    }
}

/// What the directives on a variant type itself make its constructor
/// evaluate, if anything; `mocked` names the mock of the type.
pub fn get_mocked_value_from_attributes(enoom: &ItemEnum, mocked: &Extracted) -> (r: Result<
    Option<ConstructorBody>,
    MockError,
>)
    ensures
        match r {
            Ok(Some(body)) => type_level_value(enoom@, mocked@.name) == Ok::<
                Option<ConstructorBodyView>,
                MockError,
            >(Some(body@)),
            Ok(None) => type_level_value(enoom@, mocked@.name) == Ok::<
                Option<ConstructorBodyView>,
                MockError,
            >(None),
            Err(e) => type_level_value(enoom@, mocked@.name) == Err::<
                Option<ConstructorBodyView>,
                MockError,
            >(e),
        },
{
    match Directive::TypeLevel.find(&enoom.attrs) {
        None => Ok(None),
        Some(Attribute::NameValue { path, value }) => {
            if path.is_ident("mocked_with") {
                match replace_with_mocked(value, &enoom.ident, mocked) {
                    Ok(v) => Ok(Some(ConstructorBody::Expression(v))),
                    Err(e) => Err(e),
                }
            } else {
                Ok(Some(ConstructorBody::TypeDefault { name: enoom.ident.clone() }))
            }
        },
        Some(_) => Ok(Some(ConstructorBody::TypeDefault { name: enoom.ident.clone() })),
    }
}

/// The constructor of a variant type: the block that gives it `mock_new`,
/// which gives back the one variant that the directives select.
pub fn parse_fields_and_generate_variant(enoom: &ItemEnum) -> (r: Result<Constructor, MockError>)
    ensures
        res_view(r) == enum_constructor(enoom@),
{
    let extracted = Extracted::with_ident(enoom.ident.clone());
    let mocked = prepare_mock_name(&extracted);
    let ghost all = views(enoom.variants@);
    let n = enoom.variants.len();

    let mut i: usize = 0;
    while i < n
        invariant
            i <= n,
            n == enoom.variants.len(),
            all == views(enoom.variants@),
            mocked@.name == derive_name(enoom@.ident),
            first_where(all.take(i as int), selected_fn()) is None,
        decreases n - i,
    {
        proof {
            lemma_first_where_step(all, selected_fn(), i as int);
        }
        let variant = &enoom.variants[i];
        match Directive::Selection.find(&variant.attrs) {
            Some(directive) => {
                proof {
                    lemma_first_where_found(all, selected_fn(), i + 1);
                }
                let body = match directive {
                    Attribute::NameValue { value, .. } => match replace_with_mocked(
                        value,
                        &enoom.ident,
                        &mocked,
                    ) {
                        Ok(v) => ConstructorBody::Expression(v),
                        Err(e) => {
                            return Err(e);
                        },
                    },
                    _ => ConstructorBody::Variant { name: variant.ident.clone(), payload: None },
                };
                return Ok(constructor_of_enum(enoom, ConstructorReturn::Named(mocked.name), body));
            },
            None => {},
        }
        i += 1;
    }
    proof {
        assert(all.take(n as int) =~= all);
    }

    let mut i: usize = 0;
    while i < n
        invariant
            i <= n,
            n == enoom.variants.len(),
            all == views(enoom.variants@),
            mocked@.name == derive_name(enoom@.ident),
            first_where(all, selected_fn()) is None,
            first_where(all.take(i as int), has_payload_fn()) is None,
        decreases n - i,
    {
        proof {
            lemma_first_where_step(all, has_payload_fn(), i as int);
        }
        let variant = &enoom.variants[i];
        let payload = payload_of_variant(variant);
        if payload.is_some() {
            proof {
                lemma_first_where_found(all, has_payload_fn(), i + 1);
            }
            let body = ConstructorBody::Variant { name: variant.ident.clone(), payload };
            return Ok(constructor_of_enum(enoom, ConstructorReturn::Named(mocked.name), body));
        }
        i += 1;
    }
    proof {
        assert(all.take(n as int) =~= all);
    }

    match get_mocked_value_from_attributes(enoom, &mocked) {
        Err(e) => Err(e),
        Ok(Some(body)) => Ok(
            constructor_of_enum(enoom, ConstructorReturn::Named(mocked.name), body),
        ),
        Ok(None) => Ok(
            constructor_of_enum(enoom, ConstructorReturn::SelfType, ConstructorBody::SelfDefault),
        ),
    }
}

/// The block that attaches a constructor to a variant type.
fn constructor_of_enum(enoom: &ItemEnum, output: ConstructorReturn, body: ConstructorBody) -> (r:
    Constructor)
    ensures
        r@ == (ConstructorView {
            generics: GenericsView::empty(),
            self_name: enoom@.ident,
            output: output@,
            body: body@,
        }),
{
    Constructor {
        generics: Generics::empty(),
        self_name: enoom.ident.clone(),
        output,
        body,
    }
}

/// A field without the directives that gave the value of its mock.
pub open spec fn strip_field(field: FieldView) -> FieldView {
    FieldView {
        attrs: field.attrs.filter(Directive::Override.rest()),
        vis: field.vis,
        ident: field.ident,
        ty: field.ty,
    }
}

/// The fields, each without its directives.
pub open spec fn strip_field_list(fields: Seq<FieldView>) -> Seq<FieldView> {
    Seq::new(fields.len(), |i: int| strip_field(fields[i]))
}

/// The fields in the same brackets, each without its directives.
pub open spec fn strip_fields(fields: FieldsView) -> FieldsView {
    match fields {
        FieldsView::Named(list) => FieldsView::Named(strip_field_list(list)),
        FieldsView::Unnamed(list) => FieldsView::Unnamed(strip_field_list(list)),
        FieldsView::Unit => FieldsView::Unit,
    }
}

/// A variant without its directives and those of its fields.
pub open spec fn strip_variant(variant: VariantView) -> VariantView {
    VariantView {
        attrs: variant.attrs.filter(Directive::Override.rest()),
        ident: variant.ident,
        fields: strip_fields(variant.fields),
        discriminant: variant.discriminant,
    }
}

/// A declaration without the directives that steer the constructor of its
/// mock: every `mocked_with` on a field, on a variant or on a field of a
/// variant, and on a variant type itself `mocked_with` and
/// `mocked_with_default`. Every other attribute stays where it is; nothing
/// else changes.
pub open spec fn strip_item(item: ItemView) -> ItemView {
    match item {
        ItemView::Struct(s) => ItemView::Struct(
            ItemStructView {
                attrs: s.attrs,
                vis: s.vis,
                ident: s.ident,
                generics: s.generics,
                fields: strip_fields(s.fields),
            },
        ),
        ItemView::Enum(e) => ItemView::Enum(
            ItemEnumView {
                attrs: e.attrs.filter(Directive::Consumed.rest()),
                vis: e.vis,
                ident: e.ident,
                generics: e.generics,
                variants: Seq::new(e.variants.len(), |i: int| strip_variant(e.variants[i])),
            },
        ),
    }
}

/// Whether no attribute of a declaration is a directive that steers the
/// constructor of its mock: neither `mocked_with` on a field, on a variant or
/// on a field of a variant, nor `mocked_with` or `mocked_with_default` on a
/// variant type itself.
pub open spec fn free_of_directives(item: ItemView) -> bool {
    match item {
        ItemView::Struct(s) => forall|i: int, j: int|
            0 <= i < s.fields.list().len() && 0 <= j < s.fields.list()[i].attrs.len()
                ==> !Directive::Override.accepts(#[trigger] s.fields.list()[i].attrs[j]),
        ItemView::Enum(e) => {
            &&& forall|i: int| 0 <= i < e.attrs.len() ==> !Directive::Consumed.accepts(e.attrs[i])
            &&& forall|i: int, j: int|
                0 <= i < e.variants.len() && 0 <= j < e.variants[i].attrs.len()
                    ==> !Directive::Override.accepts(#[trigger] e.variants[i].attrs[j])
            &&& forall|i: int, j: int, k: int|
                0 <= i < e.variants.len() && 0 <= j < e.variants[i].fields.list().len() && 0 <= k
                    < e.variants[i].fields.list()[j].attrs.len() ==> !Directive::Override.accepts(
                    #[trigger] e.variants[i].fields.list()[j].attrs[k],
                )
        },
    }
}

/// No directive is left in a declaration that was stripped.
pub proof fn lemma_stripped_is_free_of_directives(item: ItemView)
    ensures
        free_of_directives(strip_item(item)),
{
    match item {
        ItemView::Struct(s) => {
            let fields = strip_fields(s.fields).list();
            assert forall|i: int, j: int|
                0 <= i < fields.len() && 0 <= j < fields[i].attrs.len()
                    implies !Directive::Override.accepts(#[trigger] fields[i].attrs[j]) by {
                s.fields.list()[i].attrs.lemma_filter_pred(Directive::Override.rest(), j);
            }
        },
        ItemView::Enum(e) => {
            let attrs = e.attrs.filter(Directive::Consumed.rest());
            assert forall|i: int| 0 <= i < attrs.len() implies !Directive::Consumed.accepts(
                attrs[i],
            ) by {
                e.attrs.lemma_filter_pred(Directive::Consumed.rest(), i);
            }
            let variants = strip_item(item)->Enum_0.variants;
            assert forall|i: int, j: int|
                0 <= i < variants.len() && 0 <= j < variants[i].attrs.len()
                    implies !Directive::Override.accepts(#[trigger] variants[i].attrs[j]) by {
                e.variants[i].attrs.lemma_filter_pred(Directive::Override.rest(), j);
            }
            assert forall|i: int, j: int, k: int|
                0 <= i < variants.len() && 0 <= j < variants[i].fields.list().len() && 0 <= k
                    < variants[i].fields.list()[j].attrs.len()
                    implies !Directive::Override.accepts(
                #[trigger] variants[i].fields.list()[j].attrs[k],
            ) by {
                e.variants[i].fields.list()[j].attrs.lemma_filter_pred(
                    Directive::Override.rest(),
                    k,
                );
            }
        },
    }
}

/// The fields, each without its directives.
fn clean_field_list(fields: &Vec<Field>) -> (r: Vec<Field>)
    ensures
        views(r@) == strip_field_list(views(fields@)),
{
    let mut out: Vec<Field> = Vec::new();
    let mut i: usize = 0;
    while i < fields.len()
        invariant
            i <= fields.len(),
            out@.len() == i,
            forall|j: int| 0 <= j < i ==> out@[j]@ == strip_field(fields@[j]@),
        decreases fields.len() - i,
    {
        let field = &fields[i];
        out.push(
            Field {
                attrs: Directive::Override.strip(&field.attrs),
                vis: field.vis.clone(),
                ident: field.ident.clone(),
                ty: field.ty.clone(),
            },
        );
        i += 1;
    }
    assert(views(out@) =~= strip_field_list(views(fields@)));
    out
}

/// The fields in the same brackets, each without its directives.
fn clean_fields(fields: &Fields) -> (r: Fields)
    ensures
        r@ == strip_fields(fields@),
{
    match fields {
        Fields::Named(list) => Fields::Named(clean_field_list(list)),
        Fields::Unnamed(list) => Fields::Unnamed(clean_field_list(list)),
        Fields::Unit => Fields::Unit,
    }
}

/// The declaration without the directives that steer the constructor of its
/// mock.
fn cleaned(item: &Item) -> (r: Item)
    ensures
        r@ == strip_item(item@),
{
    match item {
        Item::Struct(s) => Item::Struct(
            ItemStruct {
                attrs: clone_attrs(&s.attrs),
                vis: s.vis.clone(),
                ident: s.ident.clone(),
                generics: s.generics.clone(),
                fields: clean_fields(&s.fields),
            },
        ),
        Item::Enum(e) => {
            let mut variants: Vec<Variant> = Vec::new();
            let mut i: usize = 0;
            while i < e.variants.len()
                invariant
                    i <= e.variants.len(),
                    variants@.len() == i,
                    forall|j: int| 0 <= j < i ==> variants@[j]@ == strip_variant(e.variants@[j]@),
                decreases e.variants.len() - i,
            {
                let variant = &e.variants[i];
                variants.push(
                    Variant {
                        attrs: Directive::Override.strip(&variant.attrs),
                        ident: variant.ident.clone(),
                        fields: clean_fields(&variant.fields),
                        discriminant: variant.discriminant.clone(),
                    },
                );
                i += 1;
            }
            let r = Item::Enum(
                ItemEnum {
                    attrs: Directive::Consumed.strip(&e.attrs),
                    vis: e.vis.clone(),
                    ident: e.ident.clone(),
                    generics: e.generics.clone(),
                    variants,
                },
            );
            assert(r@->Enum_0.variants =~= strip_item(item@)->Enum_0.variants);
            r
        },
    }
}

/// Takes out of a declaration the directives that steer the constructor of
/// its mock.
pub fn clean_out_attributes(item: &mut Item)
    ensures
        final(item)@ == strip_item(old(item)@),
{
    let out = cleaned(item);
    *item = out;
}

/// A structure without fields gets a constructor that builds it from
/// nothing, whatever brackets it was declared with.
pub proof fn lemma_constructor_without_fields(item: ItemStructView)
    requires
        item.fields.list().len() == 0,
        strip_bounds(item.generics) is Ok,
    ensures
        struct_constructor(item) matches Ok(c) && c.body == ConstructorBodyView::Empty,
{
}

/// A structure whose fields have no names and carry no directive gets a
/// constructor by position, with one default value for each field, in the
/// order of the fields.
pub proof fn lemma_constructor_by_position(item: ItemStructView)
    requires
        item.fields.list().len() > 0,
        forall|i: int|
            0 <= i < item.fields.list().len() ==> {
                &&& (#[trigger] item.fields.list()[i]).ident is None
                &&& Directive::Override.first_in(item.fields.list()[i].attrs) is None
            },
        strip_bounds(item.generics) is Ok,
    ensures
        struct_constructor(item) matches Ok(c) && c.body == ConstructorBodyView::Positional(
            Seq::new(
                item.fields.list().len(),
                |i: int| FieldOverrideView { ident: None, value: FieldValueView::DefaultValue },
            ),
        ),
{
    let fields = item.fields.list();
    lemma_try_map_ok(fields, field_override_fn());
    assert forall|i: int| 0 <= i < fields.len() implies (#[trigger] field_override_fn()(
        fields[i],
    )) is Ok by {
        assert(fields[i].ident is None);
    }
    let values = overrides(fields)->Ok_0;
    let expected = Seq::new(
        fields.len(),
        |i: int| FieldOverrideView { ident: None, value: FieldValueView::DefaultValue },
    );
    assert forall|i: int| 0 <= i < fields.len() implies values[i] == expected[i] by {
        assert(fields[i].ident is None);
        assert(field_override_fn()(fields[i]) == Ok::<FieldOverrideView, MockError>(values[i]));
    }
    assert(values =~= expected);
    assert(!any_named(values)) by {
        if any_named(values) {
            let i = choose|i: int| 0 <= i < values.len() && (#[trigger] values[i]).ident is Some;
            assert(values[i] == expected[i]);
        }
    }
}

/// In a structure where one field has a name and lists `value` in its
/// `mocked_with` directive, and no other field carries a directive, the
/// constructor assigns by identifier: `value` to that field, the default
/// value to every other.
pub proof fn lemma_constructor_with_one_override(
    item: ItemStructView,
    k: int,
    path: PathView,
    value: Seq<char>,
)
    requires
        0 <= k < item.fields.list().len(),
        item.fields.list()[k].ident is Some,
        Directive::Override.first_in(item.fields.list()[k].attrs) == Some(
            AttributeView::List { path, tokens: value },
        ),
        forall|i: int|
            0 <= i < item.fields.list().len() && i != k ==> Directive::Override.first_in(
                (#[trigger] item.fields.list()[i]).attrs,
            ) is None,
        strip_bounds(item.generics) is Ok,
    ensures
        struct_constructor(item) matches Ok(c) && c.body == ConstructorBodyView::Named(
            Seq::new(
                item.fields.list().len(),
                |i: int|
                    FieldOverrideView {
                        ident: item.fields.list()[i].ident,
                        value: if i == k {
                            FieldValueView::Given(value)
                        } else {
                            FieldValueView::DefaultValue
                        },
                    },
            ),
        ),
{
    let fields = item.fields.list();
    lemma_try_map_ok(fields, field_override_fn());
    assert forall|i: int| 0 <= i < fields.len() implies (#[trigger] field_override_fn()(
        fields[i],
    )) is Ok by {
        if i != k {
            assert(Directive::Override.first_in(fields[i].attrs) is None);
        }
    }
    let values = overrides(fields)->Ok_0;
    let expected = Seq::new(
        fields.len(),
        |i: int|
            FieldOverrideView {
                ident: fields[i].ident,
                value: if i == k {
                    FieldValueView::Given(value)
                } else {
                    FieldValueView::DefaultValue
                },
            },
    );
    assert forall|i: int| 0 <= i < fields.len() implies values[i] == expected[i] by {
        assert(field_override_fn()(fields[i]) == Ok::<FieldOverrideView, MockError>(values[i]));
        if i != k {
            assert(Directive::Override.first_in(fields[i].attrs) is None);
        }
    }
    assert(values =~= expected);
    assert(values[k].ident is Some);
}

/// Where exactly one variant carries `mocked_with`, and carries it without a
/// value, the constructor gives back that variant without a payload.
pub proof fn lemma_constructor_of_marked_variant(item: ItemEnumView, k: int, path: PathView)
    requires
        0 <= k < item.variants.len(),
        Directive::Selection.first_in(item.variants[k].attrs) == Some(AttributeView::Path(path)),
        forall|i: int|
            0 <= i < item.variants.len() && i != k ==> !selected(#[trigger] item.variants[i]),
    ensures
        enum_constructor(item) == Ok::<ConstructorView, MockError>(
            ConstructorView {
                generics: GenericsView::empty(),
                self_name: item.ident,
                output: ConstructorReturnView::Named(derive_name(item.ident)),
                body: ConstructorBodyView::Variant { name: item.variants[k].ident, payload: None },
            },
        ),
{
    lemma_first_where(item.variants, selected_fn());
    assert(selected_fn()(item.variants[k]));
    match first_where(item.variants, selected_fn()) {
        Some(i) => {
            assert(selected_fn()(item.variants[i]));
            assert(i == k);
        },
        None => {
            assert(!selected_fn()(item.variants[k]));
        },
    }
}

/// Where no attribute of a variant type, of its variants or of their fields
/// is a directive, the constructor gives back the default value of the type
/// itself.
pub proof fn lemma_constructor_without_directives(item: ItemEnumView)
    requires
        free_of_directives(ItemView::Enum(item)),
    ensures
        enum_constructor(item) == Ok::<ConstructorView, MockError>(
            ConstructorView {
                generics: GenericsView::empty(),
                self_name: item.ident,
                output: ConstructorReturnView::SelfType,
                body: ConstructorBodyView::SelfDefault,
            },
        ),
{
    lemma_first_where(item.attrs, Directive::TypeLevel.test());
    if let Some(i) = first_where(item.attrs, Directive::TypeLevel.test()) {
        assert(Directive::TypeLevel.test()(item.attrs[i]));
        assert(!Directive::Consumed.accepts(item.attrs[i]));
    }
    lemma_first_where(item.variants, selected_fn());
    if let Some(i) = first_where(item.variants, selected_fn()) {
        let attrs = item.variants[i].attrs;
        assert(selected_fn()(item.variants[i]));
        lemma_first_where(attrs, Directive::Selection.test());
        let j = first_where(attrs, Directive::Selection.test())->Some_0;
        assert(Directive::Selection.test()(attrs[j]));
        assert(!Directive::Override.accepts(item.variants[i].attrs[j]));
    }
    lemma_first_where(item.variants, has_payload_fn());
    if let Some(i) = first_where(item.variants, has_payload_fn()) {
        let fields = item.variants[i].fields.list();
        assert(has_payload_fn()(item.variants[i]));
        lemma_first_where(fields, gives_payload_fn());
        let j = first_where(fields, gives_payload_fn())->Some_0;
        assert(gives_payload_fn()(fields[j]));
        let attrs = fields[j].attrs;
        lemma_first_where(attrs, Directive::Payload.test());
        let k = first_where(attrs, Directive::Payload.test())->Some_0;
        assert(Directive::Payload.test()(attrs[k]));
        assert(!Directive::Override.accepts(item.variants[i].fields.list()[j].attrs[k]));
    }
}

} // verus!
