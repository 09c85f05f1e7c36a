//! Declarations of structures and of variant types, and what stands in them:
//! attributes, value expressions, fields, variants and generic parameters.

use vstd::prelude::*;

use crate::model::{opt_view, views};
use crate::syntax::{clone_bounds, Bound, BoundView, Path, PathView, TypeExpr, TypeExprView};

verus! {

/// What is called in a call expression.
#[derive(Debug, PartialEq, Eq)]
pub enum Callee {
    /// A function or a variant, by its path.
    Path(Path),
    /// Any other expression, as written.
    Other(String),
}

/// The view of [`Callee`]: the same, with sequences for strings and vectors.
pub enum CalleeView {
    Path(PathView),
    Other(Seq<char>),
}

impl View for Callee {
    type V = CalleeView;

    open spec fn view(&self) -> CalleeView {
        match self {
            Callee::Path(p) => CalleeView::Path(p@),
            Callee::Other(t) => CalleeView::Other(t@),
        }
    }
}

impl Clone for Callee {
    fn clone(&self) -> (r: Self)
        ensures
            r@ == self@,
    {
        match self {
            Callee::Path(p) => Callee::Path(p.clone()),
            Callee::Other(t) => Callee::Other(t.clone()),
        }
    }
}

/// A value expression, as far as the rewriting looks into it.
#[derive(Debug, PartialEq, Eq)]
pub enum Expr {
    /// A path, as in `Foo::Bar`.
    Path(Path),
    /// A call, as in `Foo::Bar(1)`; the arguments as written.
    Call { func: Callee, args: String },
    /// Any other expression, as written.
    Other(String),
}

/// The view of [`Expr`]: the same, with sequences for strings and vectors.
pub enum ExprView {
    Path(PathView),
    Call { func: CalleeView, args: Seq<char> },
    Other(Seq<char>),
}

impl View for Expr {
    type V = ExprView;

    open spec fn view(&self) -> ExprView {
        match self {
            Expr::Path(p) => ExprView::Path(p@),
            Expr::Call { func, args } => ExprView::Call { func: func@, args: args@ },
            Expr::Other(t) => ExprView::Other(t@),
        }
    }
}

impl Clone for Expr {
    fn clone(&self) -> (r: Self)
        ensures
            r@ == self@,
    {
        match self {
            Expr::Path(p) => Expr::Path(p.clone()),
            Expr::Call { func, args } => Expr::Call { func: func.clone(), args: args.clone() },
            Expr::Other(t) => Expr::Other(t.clone()),
        }
    }
}

/// An attribute, in one of its three forms.
#[derive(Debug, PartialEq, Eq)]
pub enum Attribute {
    /// A bare marker, as in `#[mocked]`.
    Path(Path),
    /// A list, as in `#[mocked_with(Ok(1))]`; what stands between the
    /// parentheses as written.
    List { path: Path, tokens: String },
    /// A name and a value, as in `#[mocked_with = Foo::Bar]`.
    NameValue { path: Path, value: Expr },
}

/// The view of [`Attribute`]: the same, with sequences for strings and vectors.
pub enum AttributeView {
    Path(PathView),
    List { path: PathView, tokens: Seq<char> },
    NameValue { path: PathView, value: ExprView },
}

impl AttributeView {
    /// The path that names the attribute.
    pub open spec fn path(self) -> PathView {
        match self {
            AttributeView::Path(p) => p,
            AttributeView::List { path, .. } => path,
            AttributeView::NameValue { path, .. } => path,
        }
    }

    /// Whether the attribute is called `name`, in whatever form.
    pub open spec fn is_named(self, name: Seq<char>) -> bool {
        self.path().is_ident(name)
    }
}

impl View for Attribute {
    type V = AttributeView;

    open spec fn view(&self) -> AttributeView {
        match self {
            Attribute::Path(p) => AttributeView::Path(p@),
            Attribute::List { path, tokens } => AttributeView::List {
                path: path@,
                tokens: tokens@,
            },
            Attribute::NameValue { path, value } => AttributeView::NameValue {
                path: path@,
                value: value@,
            },
        }
    }
}

impl Clone for Attribute {
    fn clone(&self) -> (r: Self)
        ensures
            r@ == self@,
    {
        match self {
            Attribute::Path(p) => Attribute::Path(p.clone()),
            Attribute::List { path, tokens } => Attribute::List {
                path: path.clone(),
                tokens: tokens.clone(),
            },
            Attribute::NameValue { path, value } => Attribute::NameValue {
                path: path.clone(),
                value: value.clone(),
            },
        }
    }
}

impl Attribute {
    /// The path that names the attribute.
    pub fn path(&self) -> (r: &Path)
        ensures
            r@ == self@.path(),
    {
        match self {
            Attribute::Path(p) => p,
            Attribute::List { path, .. } => path,
            Attribute::NameValue { path, .. } => path,
        }
    }

    /// Whether the attribute is called `name`, in whatever form.
    pub fn is_named(&self, name: &str) -> (r: bool)
        ensures
            r == self@.is_named(name@),
    {
        self.path().is_ident(name)
    }
}

/// Copies a list of attributes.
pub fn clone_attrs(attrs: &Vec<Attribute>) -> (r: Vec<Attribute>)
    ensures
        views(r@) == views(attrs@),
{
    let r = attrs.clone();
    assert(views(r@) =~= views(attrs@));
    r
}

/// A field of a structure or of a variant.
#[derive(Debug, PartialEq, Eq)]
pub struct Field {
    pub attrs: Vec<Attribute>,
    /// The visibility, as written.
    pub vis: String,
    /// The name; a field of a tuple has none.
    pub ident: Option<String>,
    pub ty: TypeExpr,
}

/// The view of [`Field`]: the same, with sequences for strings and vectors.
pub struct FieldView {
    pub attrs: Seq<AttributeView>,
    pub vis: Seq<char>,
    pub ident: Option<Seq<char>>,
    pub ty: TypeExprView,
}

impl View for Field {
    type V = FieldView;

    open spec fn view(&self) -> FieldView {
        FieldView {
            attrs: views(self.attrs@),
            vis: self.vis@,
            ident: opt_view(self.ident),
            ty: self.ty@,
        }
    }
}

impl Clone for Field {
    fn clone(&self) -> (r: Self)
        ensures
            r@ == self@,
    {
        Field {
            attrs: clone_attrs(&self.attrs),
            vis: self.vis.clone(),
            ident: self.ident.clone(),
            ty: self.ty.clone(),
        }
    }
}

/// Copies a list of fields.
pub fn clone_fields(fields: &Vec<Field>) -> (r: Vec<Field>)
    ensures
        views(r@) == views(fields@),
{
    let r = fields.clone();
    assert(views(r@) =~= views(fields@));
    r
}

/// The fields of a structure or of a variant.
#[derive(Debug, PartialEq, Eq)]
pub enum Fields {
    /// Between braces, each with a name.
    Named(Vec<Field>),
    /// Between parentheses, by position.
    Unnamed(Vec<Field>),
    /// None at all, and no brackets.
    Unit,
}

/// The view of [`Fields`]: the same, with sequences for strings and vectors.
pub enum FieldsView {
    Named(Seq<FieldView>),
    Unnamed(Seq<FieldView>),
    Unit,
}

impl FieldsView {
    /// The fields in the order in which they are declared.
    pub open spec fn list(self) -> Seq<FieldView> {
        match self {
            FieldsView::Named(fields) => fields,
            FieldsView::Unnamed(fields) => fields,
            FieldsView::Unit => Seq::empty(),
        }
    }
}

impl View for Fields {
    type V = FieldsView;

    open spec fn view(&self) -> FieldsView {
        match self {
            Fields::Named(fields) => FieldsView::Named(views(fields@)),
            Fields::Unnamed(fields) => FieldsView::Unnamed(views(fields@)),
            Fields::Unit => FieldsView::Unit,
        }
    }
}

impl Clone for Fields {
    fn clone(&self) -> (r: Self)
        ensures
            r@ == self@,
    {
        match self {
            Fields::Named(fields) => Fields::Named(clone_fields(fields)),
            Fields::Unnamed(fields) => Fields::Unnamed(clone_fields(fields)),
            Fields::Unit => Fields::Unit,
        }
    }
}

/// One variant of a variant type.
#[derive(Debug, PartialEq, Eq)]
pub struct Variant {
    pub attrs: Vec<Attribute>,
    pub ident: String,
    pub fields: Fields,
    /// The explicit discriminant, as written.
    pub discriminant: Option<String>,
}

/// The view of [`Variant`]: the same, with sequences for strings and vectors.
pub struct VariantView {
    pub attrs: Seq<AttributeView>,
    pub ident: Seq<char>,
    pub fields: FieldsView,
    pub discriminant: Option<Seq<char>>,
}

impl View for Variant {
    type V = VariantView;

    open spec fn view(&self) -> VariantView {
        VariantView {
            attrs: views(self.attrs@),
            ident: self.ident@,
            fields: self.fields@,
            discriminant: opt_view(self.discriminant),
        }
    }
}

impl Clone for Variant {
    fn clone(&self) -> (r: Self)
        ensures
            r@ == self@,
    {
        Variant {
            attrs: clone_attrs(&self.attrs),
            ident: self.ident.clone(),
            fields: self.fields.clone(),
            discriminant: self.discriminant.clone(),
        }
    }
}

/// One generic parameter of a declaration.
#[derive(Debug, PartialEq, Eq)]
pub enum GenericParam {
    /// A type parameter with its bounds and, as written, its default.
    Type { ident: String, bounds: Vec<Bound>, default: Option<String> },
    /// A lifetime parameter, as written.
    Lifetime(String),
    /// A constant parameter, as written.
    Const(String),
}

/// The view of [`GenericParam`]: the same, with sequences for strings and vectors.
pub enum GenericParamView {
    Type { ident: Seq<char>, bounds: Seq<BoundView>, default: Option<Seq<char>> },
    Lifetime(Seq<char>),
    Const(Seq<char>),
}

impl View for GenericParam {
    type V = GenericParamView;

    open spec fn view(&self) -> GenericParamView {
        match self {
            GenericParam::Type { ident, bounds, default } => GenericParamView::Type {
                ident: ident@,
                bounds: views(bounds@),
                default: opt_view(*default),
            },
            GenericParam::Lifetime(l) => GenericParamView::Lifetime(l@),
            GenericParam::Const(c) => GenericParamView::Const(c@),
        }
    }
}

impl Clone for GenericParam {
    fn clone(&self) -> (r: Self)
        ensures
            r@ == self@,
    {
        match self {
            GenericParam::Type { ident, bounds, default } => GenericParam::Type {
                ident: ident.clone(),
                bounds: clone_bounds(bounds),
                default: default.clone(),
            },
            GenericParam::Lifetime(l) => GenericParam::Lifetime(l.clone()),
            GenericParam::Const(c) => GenericParam::Const(c.clone()),
        }
    }
}

/// The generic parameters of a declaration, and its `where` clause as
/// written.
#[derive(Debug, PartialEq, Eq)]
pub struct Generics {
    pub params: Vec<GenericParam>,
    pub where_clause: Option<String>,
}

/// The view of [`Generics`]: the same, with sequences for strings and vectors.
pub struct GenericsView {
    pub params: Seq<GenericParamView>,
    pub where_clause: Option<Seq<char>>,
}

impl GenericsView {
    /// No parameter and no clause.
    pub open spec fn empty() -> GenericsView {
        GenericsView { params: Seq::empty(), where_clause: None }
    }
}

impl View for Generics {
    type V = GenericsView;

    open spec fn view(&self) -> GenericsView {
        GenericsView { params: views(self.params@), where_clause: opt_view(self.where_clause) }
    }
}

impl Clone for Generics {
    fn clone(&self) -> (r: Self)
        ensures
            r@ == self@,
    {
        let params = self.params.clone();
        assert(views(params@) =~= views(self.params@));
        Generics { params, where_clause: self.where_clause.clone() }
    }
}

impl Generics {
    /// No parameter and no clause.
    pub fn empty() -> (r: Generics)
        ensures
            r@ == GenericsView::empty(),
    {
        let r = Generics { params: Vec::new(), where_clause: None };
        assert(r@.params =~= Seq::empty());
        r
    }
}

/// The declaration of a structure.
#[derive(Debug, PartialEq, Eq)]
pub struct ItemStruct {
    pub attrs: Vec<Attribute>,
    pub vis: String,
    pub ident: String,
    pub generics: Generics,
    pub fields: Fields,
}

/// The view of [`ItemStruct`]: the same, with sequences for strings and vectors.
pub struct ItemStructView {
    pub attrs: Seq<AttributeView>,
    pub vis: Seq<char>,
    pub ident: Seq<char>,
    pub generics: GenericsView,
    pub fields: FieldsView,
}

impl View for ItemStruct {
    type V = ItemStructView;

    open spec fn view(&self) -> ItemStructView {
        ItemStructView {
            attrs: views(self.attrs@),
            vis: self.vis@,
            ident: self.ident@,
            generics: self.generics@,
            fields: self.fields@,
        }
    }
}

impl Clone for ItemStruct {
    fn clone(&self) -> (r: Self)
        ensures
            r@ == self@,
    {
        ItemStruct {
            attrs: clone_attrs(&self.attrs),
            vis: self.vis.clone(),
            ident: self.ident.clone(),
            generics: self.generics.clone(),
            fields: self.fields.clone(),
        }
    }
}

/// The declaration of a variant type.
#[derive(Debug, PartialEq, Eq)]
pub struct ItemEnum {
    pub attrs: Vec<Attribute>,
    pub vis: String,
    pub ident: String,
    pub generics: Generics,
    pub variants: Vec<Variant>,
}

/// The view of [`ItemEnum`]: the same, with sequences for strings and vectors.
pub struct ItemEnumView {
    pub attrs: Seq<AttributeView>,
    pub vis: Seq<char>,
    pub ident: Seq<char>,
    pub generics: GenericsView,
    pub variants: Seq<VariantView>,
}

impl View for ItemEnum {
    type V = ItemEnumView;

    open spec fn view(&self) -> ItemEnumView {
        ItemEnumView {
            attrs: views(self.attrs@),
            vis: self.vis@,
            ident: self.ident@,
            generics: self.generics@,
            variants: views(self.variants@),
        }
    }
}

impl Clone for ItemEnum {
    fn clone(&self) -> (r: Self)
        ensures
            r@ == self@,
    {
        let variants = self.variants.clone();
        assert(views(variants@) =~= views(self.variants@));
        ItemEnum {
            attrs: clone_attrs(&self.attrs),
            vis: self.vis.clone(),
            ident: self.ident.clone(),
            generics: self.generics.clone(),
            variants,
        }
    }
}

/// A declaration that can be mocked.
#[derive(Debug, PartialEq, Eq)]
pub enum Item {
    Struct(ItemStruct),
    Enum(ItemEnum),
}

/// The view of [`Item`]: the same, with sequences for strings and vectors.
pub enum ItemView {
    Struct(ItemStructView),
    Enum(ItemEnumView),
}

impl View for Item {
    type V = ItemView;

    open spec fn view(&self) -> ItemView {
        match self {
            Item::Struct(s) => ItemView::Struct(s@),
            Item::Enum(e) => ItemView::Enum(e@),
        }
    }
}

impl Clone for Item {
    fn clone(&self) -> (r: Self)
        ensures
            r@ == self@,
    {
        match self {
            Item::Struct(s) => Item::Struct(s.clone()),
            Item::Enum(e) => Item::Enum(e.clone()),
        }
    }
}

} // verus!
