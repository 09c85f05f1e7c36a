//! The constructor of a mock, and the directives that steer it.

use vstd::prelude::*;

use crate::decl::{Attribute, AttributeView, Expr, ExprView, Generics, GenericsView};
use crate::model::{
    first_where, lemma_filter_start, lemma_filter_step, lemma_first_where_found,
    lemma_first_where_step, lemma_views_empty, lemma_views_push, opt_view, views,
};

verus! {

/// The name of the directive that routes a field through the resolver.
pub open spec fn marker_name() -> Seq<char> {
    "mocked"@
}

/// The name of the directive that carries the value of a mock.
pub open spec fn override_name() -> Seq<char> {
    "mocked_with"@
}

/// The name of the directive that asks for the default value of the type
/// itself.
pub open spec fn default_name() -> Seq<char> {
    "mocked_with_default"@
}

/// The name of the constructor of a mock, the same for every declaration.
pub open spec fn constructor_name() -> Seq<char> {
    "mock_new"@
}

/// The name of the constructor of a mock.
pub fn constructor_ident() -> (r: String)
    ensures
        r@ == constructor_name(),
{
    String::from_str("mock_new")
}

/// The roles in which an attribute steers the rewriting. Each role accepts
/// attributes by their name and their form.
#[derive(Clone, Copy, Debug, PartialEq, Eq, Structural)]
pub enum Directive {
    /// `mocked` in any form: the field holds the mock of its type.
    Marker,
    /// `mocked_with` in any form: the value of a field of a structure.
    Override,
    /// `mocked_with` as a bare marker or with a value, on a variant: the
    /// variant that the constructor returns.
    Selection,
    /// `mocked_with` with a value, on a field of a variant: the payload of
    /// the variant that the constructor returns.
    Payload,
    /// On a variant type itself: `mocked_with` with a value, or
    /// `mocked_with_default` as a bare marker or with a value.
    TypeLevel,
    /// `mocked_with` or `mocked_with_default` in any form: what leaves the
    /// attributes of a variant type once its constructor is made.
    Consumed,
}

impl Directive {
    /// Whether the attribute plays this role.
    pub open spec fn accepts(self, a: AttributeView) -> bool {
        match self {
            Directive::Marker => a.is_named(marker_name()),
            Directive::Override => a.is_named(override_name()),
            Directive::Selection => a.is_named(override_name()) && !(a is List),
            Directive::Payload => a.is_named(override_name()) && a is NameValue,
            Directive::TypeLevel => (a.is_named(override_name()) && a is NameValue) || (a.is_named(
                default_name(),
            ) && !(a is List)),
            Directive::Consumed => a.is_named(override_name()) || a.is_named(default_name()),
        }
    }

    /// The role as a test on attributes.
    pub open spec fn test(self) -> spec_fn(AttributeView) -> bool {
        |a: AttributeView| self.accepts(a)
    }

    /// The role as a test that holds of the attributes that stay.
    pub open spec fn rest(self) -> spec_fn(AttributeView) -> bool {
        |a: AttributeView| !self.accepts(a)
    }

    /// The first attribute that plays this role, if there is one.
    pub open spec fn first_in(self, attrs: Seq<AttributeView>) -> Option<AttributeView> {
        match first_where(attrs, self.test()) {
            Some(i) => Some(attrs[i]),
            None => None,
        }
    }

    /// Whether the attribute plays this role.
    pub fn matches(&self, a: &Attribute) -> (r: bool)
        ensures
            r == self.accepts(a@),
    {
        match self {
            Directive::Marker => a.is_named("mocked"),
            Directive::Override => a.is_named("mocked_with"),
            Directive::Selection => a.is_named("mocked_with") && !is_list(a),
            Directive::Payload => a.is_named("mocked_with") && is_name_value(a),
            Directive::TypeLevel => (a.is_named("mocked_with") && is_name_value(a)) || (a.is_named(
                "mocked_with_default",
            ) && !is_list(a)),
            Directive::Consumed => a.is_named("mocked_with") || a.is_named("mocked_with_default"),
        }
    }

    /// The first attribute that plays this role, if there is one.
    pub fn find<'a>(&self, attrs: &'a Vec<Attribute>) -> (r: Option<&'a Attribute>)
        ensures
            opt_view(r) == self.first_in(views(attrs@)),
    {
        let ghost all = views(attrs@);
        let mut i: usize = 0;
        while i < attrs.len()
            invariant
                i <= attrs.len(),
                all == views(attrs@),
                first_where(all.take(i as int), self.test()) is None,
            decreases attrs.len() - i,
        {
            proof {
                lemma_first_where_step(all, self.test(), i as int);
            }
            if self.matches(&attrs[i]) {
                proof {
                    lemma_first_where_found(all, self.test(), i + 1);
                }
                return Some(&attrs[i]);
            }
            i += 1;
        }
        proof {
            assert(all.take(attrs.len() as int) =~= all);
        }
        None
    }

    /// Whether an attribute plays this role.
    pub fn occurs(&self, attrs: &Vec<Attribute>) -> (r: bool)
        ensures
            r == self.first_in(views(attrs@)) is Some,
    {
        self.find(attrs).is_some()
    }

    /// The attributes that do not play this role, in their order.
    pub fn strip(&self, attrs: &Vec<Attribute>) -> (r: Vec<Attribute>)
        ensures
            views(r@) == views(attrs@).filter(self.rest()),
    {
        let ghost all = views(attrs@);
        let mut out: Vec<Attribute> = Vec::new();
        let mut i: usize = 0;
        proof {
            lemma_filter_start(all, self.rest());
            lemma_views_empty::<Attribute>();
        }
        while i < attrs.len()
            invariant
                i <= attrs.len(),
                all == views(attrs@),
                views(out@) == all.take(i as int).filter(self.rest()),
            decreases attrs.len() - i,
        {
            proof {
                lemma_filter_step(all, self.rest(), i as int);
            }
            if !self.matches(&attrs[i]) {
                let kept = attrs[i].clone();
                proof {
                    lemma_views_push(out@, kept);
                }
                out.push(kept);
            }
            i += 1;
        }
        proof {
            assert(all.take(attrs.len() as int) =~= all);
        }
        out
    }
}

/// Whether the attribute is a list.
pub fn is_list(a: &Attribute) -> (r: bool)
    ensures
        r == a@ is List,
{
    match a {
        Attribute::List { .. } => true,
        _ => false,
    }
}

/// Whether the attribute is a name with a value.
pub fn is_name_value(a: &Attribute) -> (r: bool)
    ensures
        r == a@ is NameValue,
{
    match a {
        Attribute::NameValue { .. } => true,
        _ => false,
    }
}

/// The value that a field of a mock gets.
#[derive(Debug, PartialEq, Eq)]
pub enum FieldValue {
    /// The expression that a directive gave, as written.
    Given(String),
    /// The default value of the field's type.
    DefaultValue,
}

/// The view of [`FieldValue`]: the same, with sequences for strings and vectors.
pub enum FieldValueView {
    Given(Seq<char>),
    DefaultValue,
}

impl View for FieldValue {
    type V = FieldValueView;

    open spec fn view(&self) -> FieldValueView {
        match self {
            FieldValue::Given(tokens) => FieldValueView::Given(tokens@),
            FieldValue::DefaultValue => FieldValueView::DefaultValue,
        }
    }
}

impl Clone for FieldValue {
    fn clone(&self) -> (r: Self)
        ensures
            r@ == self@,
    {
        match self {
            FieldValue::Given(tokens) => FieldValue::Given(tokens.clone()),
            FieldValue::DefaultValue => FieldValue::DefaultValue,
        }
    }
}

/// The value of one field of a mock; a field of a tuple has no identifier.
#[derive(Debug, PartialEq, Eq)]
pub struct FieldOverride {
    pub ident: Option<String>,
    pub value: FieldValue,
}

/// The view of [`FieldOverride`]: the same, with sequences for strings and vectors.
pub struct FieldOverrideView {
    pub ident: Option<Seq<char>>,
    pub value: FieldValueView,
}

impl View for FieldOverride {
    type V = FieldOverrideView;

    open spec fn view(&self) -> FieldOverrideView {
        FieldOverrideView { ident: opt_view(self.ident), value: self.value@ }
    }
}

impl Clone for FieldOverride {
    fn clone(&self) -> (r: Self)
        ensures
            r@ == self@,
    {
        FieldOverride { ident: self.ident.clone(), value: self.value.clone() }
    }
}

/// What the constructor of a mock evaluates.
#[derive(Debug, PartialEq, Eq)]
pub enum ConstructorBody {
    /// `Self {}`.
    Empty,
    /// `Self(v0, v1, ..)`: the values by position.
    Positional(Vec<FieldOverride>),
    /// `Self { f0: v0, f1: v1, .. }`: the values by identifier.
    Named(Vec<FieldOverride>),
    /// An expression that a directive gave.
    Expression(Expr),
    /// `Self::Name`, or `Self::Name(payload)`.
    Variant { name: String, payload: Option<Expr> },
    /// The default value of the type called `name`.
    TypeDefault { name: String },
    /// `Self::default()`.
    SelfDefault,
}

/// The view of [`ConstructorBody`]: the same, with sequences for strings and vectors.
pub enum ConstructorBodyView {
    Empty,
    Positional(Seq<FieldOverrideView>),
    Named(Seq<FieldOverrideView>),
    Expression(ExprView),
    Variant { name: Seq<char>, payload: Option<ExprView> },
    TypeDefault { name: Seq<char> },
    SelfDefault,
}

impl View for ConstructorBody {
    type V = ConstructorBodyView;

    open spec fn view(&self) -> ConstructorBodyView {
        match self {
            ConstructorBody::Empty => ConstructorBodyView::Empty,
            ConstructorBody::Positional(values) => ConstructorBodyView::Positional(views(values@)),
            ConstructorBody::Named(values) => ConstructorBodyView::Named(views(values@)),
            ConstructorBody::Expression(e) => ConstructorBodyView::Expression(e@),
            ConstructorBody::Variant { name, payload } => ConstructorBodyView::Variant {
                name: name@,
                payload: opt_view(*payload),
            },
            ConstructorBody::TypeDefault { name } => ConstructorBodyView::TypeDefault {
                name: name@,
            },
            ConstructorBody::SelfDefault => ConstructorBodyView::SelfDefault,
        }
    }
}

/// What the constructor of a mock returns.
#[derive(Debug, PartialEq, Eq)]
pub enum ConstructorReturn {
    /// `Self`.
    SelfType,
    /// The type of this name.
    Named(String),
}

/// The view of [`ConstructorReturn`]: the same, with sequences for strings and vectors.
pub enum ConstructorReturnView {
    SelfType,
    Named(Seq<char>),
}

impl View for ConstructorReturn {
    type V = ConstructorReturnView;

    open spec fn view(&self) -> ConstructorReturnView {
        match self {
            ConstructorReturn::SelfType => ConstructorReturnView::SelfType,
            ConstructorReturn::Named(name) => ConstructorReturnView::Named(name@),
        }
    }
}

/// The block that gives a type the constructor of its mock:
/// `impl<generics> self_name<generics> { pub fn mock_new() -> output { body } }`.
/// The generic parameters carry no bounds: none is needed to build a value.
#[derive(Debug, PartialEq, Eq)]
pub struct Constructor {
    pub generics: Generics,
    pub self_name: String,
    pub output: ConstructorReturn,
    pub body: ConstructorBody,
}

/// The view of [`Constructor`]: the same, with sequences for strings and vectors.
pub struct ConstructorView {
    pub generics: GenericsView,
    pub self_name: Seq<char>,
    pub output: ConstructorReturnView,
    pub body: ConstructorBodyView,
}

impl View for Constructor {
    type V = ConstructorView;

    open spec fn view(&self) -> ConstructorView {
        ConstructorView {
            generics: self.generics@,
            self_name: self.self_name@,
            output: self.output@,
            body: self.body@,
        }
    }
}

} // verus!
