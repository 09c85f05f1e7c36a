//! Type-directed rewriting of declarations into their mocks.
//!
//! Given the declaration of a structure or of a variant type, the library
//! derives a parallel mock declaration and the constructor that builds a mock
//! value; given a block of methods attached to a type, it derives the same
//! block attached to the mock. All of it rests on one resolver that walks a
//! type expression down to the name it stands for and derives the name of the
//! mock from it.
//!
//! The syntax the library works on is held in plain values: type expressions
//! in [`syntax`], declarations in [`decl`], blocks of methods in [`block`].
//! Each of them has a mathematical view, and every contract is stated over
//! views. A rewriting either gives its whole result or refuses its input with
//! a [`error::MockError`]; nothing in the library panics.
//!
//! - [`branch`] resolves a type expression to the type of its mock.
//! - [`extract`] derives names, reads the directives of a declaration and
//!   makes the constructor of its mock ([`constructor`]).
//! - [`toffel`] puts mocks into the marked fields of a declaration.
//! - [`pimpl`] attaches a block of methods to the mock of its type.

pub mod block;
pub mod branch;
pub mod constructor;
pub mod decl;
pub mod error;
pub mod extract;
pub mod model;
pub mod mutations;
pub mod pimpl;
pub mod syntax;
pub mod toffel;

use vstd::prelude::*;

use crate::block::{ItemImpl, ItemImplView};
use crate::constructor::{Constructor, ConstructorView};
use crate::decl::{Item, ItemEnumView, ItemStructView, ItemView};
use crate::error::MockError;
use crate::extract::{
    clean_out_attributes, derive_name, enum_constructor, mock_ident,
    parse_fields_and_generate_for_values, parse_fields_and_generate_variant, strip_item,
    struct_constructor,
};
use crate::model::res_view;
use crate::pimpl::{context_of, MockContext};
use crate::toffel::{
    replace_in_enum, replace_in_struct, replace_marked, replace_marked_fields, Toffelise,
};

verus! {

/// What mocking a declaration gives: the declaration itself and its mock,
/// both without the directives, and the constructor of the mock.
#[derive(Debug, PartialEq, Eq)]
pub struct MockOutput {
    pub original: Item,
    pub mock: Item,
    pub constructor: Constructor,
}

/// The view of [`MockOutput`]: the same, with sequences for strings and vectors.
pub struct MockOutputView {
    pub original: ItemView,
    pub mock: ItemView,
    pub constructor: ConstructorView,
}

impl View for MockOutput {
    type V = MockOutputView;

    open spec fn view(&self) -> MockOutputView {
        MockOutputView {
            original: self.original@,
            mock: self.mock@,
            constructor: self.constructor@,
        }
    }
}

/// The declaration under the name of its mock.
pub open spec fn renamed(item: ItemView) -> ItemView {
    match item {
        ItemView::Struct(s) => ItemView::Struct(
            ItemStructView {
                attrs: s.attrs,
                vis: s.vis,
                ident: derive_name(s.ident),
                generics: s.generics,
                fields: s.fields,
            },
        ),
        ItemView::Enum(e) => ItemView::Enum(
            ItemEnumView {
                attrs: e.attrs,
                vis: e.vis,
                ident: derive_name(e.ident),
                generics: e.generics,
                variants: e.variants,
            },
        ),
    }
}

/// The constructor that comes with the mock of a declaration. That of a
/// structure is attached to the mock; that of a variant type is attached to
/// the type itself.
pub open spec fn constructor_of(item: ItemView) -> Result<ConstructorView, MockError> {
    match item {
        ItemView::Struct(s) => struct_constructor(renamed(item)->Struct_0),
        ItemView::Enum(e) => enum_constructor(e),
    }
}

/// What mocking a declaration gives. The declaration comes back without the
/// directives that steered the constructor, and otherwise as it was. The mock
/// mirrors it under the derived name: the same fields or variants in the same
/// order, where a field that carries `mocked` holds the mock of its type and
/// every other field the type it had. A declaration is refused where its
/// constructor is, or else where the type of a marked field is.
pub open spec fn mocked(item: ItemView) -> Result<MockOutputView, MockError> {
    match constructor_of(item) {
        Err(e) => Err(e),
        Ok(constructor) => match replace_marked(strip_item(renamed(item))) {
            Err(e) => Err(e),
            Ok(mock) => Ok(MockOutputView { original: strip_item(item), mock, constructor }),
        },
    }
}

/// The declaration with the types of its marked fields replaced by their
/// mocks.
pub open spec fn toffelised(item: ItemView) -> Result<ItemView, MockError> {
    match item {
        ItemView::Struct(s) => match replace_in_struct(s) {
            Ok(out) => Ok(ItemView::Struct(out)),
            Err(e) => Err(e),
        },
        ItemView::Enum(e) => match replace_in_enum(e) {
            Ok(out) => Ok(ItemView::Enum(out)),
            Err(e) => Err(e),
        },
    }
}

/// The block as it is attached to the mock of the type that it names.
pub open spec fn mocked_block(block: ItemImplView) -> Result<ItemImplView, MockError> {
    match context_of(block.self_ty) {
        Ok(context) => context.rewrite(block),
        Err(e) => Err(e),
    }
}

/// Replaces, in a declaration, the type of every field that carries the
/// `mocked` directive by the mock of that type.
pub fn toffel(item: Item) -> (r: Result<Item, MockError>)
    ensures
        res_view(r) == toffelised(item@),
{
    match item {
        Item::Struct(s) => s.replace_mocks(),
        Item::Enum(e) => e.replace_mocks(),
    }
}

/// Mocks a declaration: gives the declaration back, and with it its mock and
/// the constructor of the mock.
pub fn mock(item: Item) -> (r: Result<MockOutput, MockError>)
    ensures
        res_view(r) == mocked(item@),
{
    let mut original = item.clone();
    let (mut mock, constructor) = match item {
        Item::Struct(s) => {
            let mut s = s;
            s.ident = mock_ident(&s.ident);
            match parse_fields_and_generate_for_values(&s) {
                Ok(constructor) => (Item::Struct(s), constructor),
                Err(e) => {
                    return Err(e);
                },
            }
        },
        Item::Enum(e) => {
            let mut e = e;
            match parse_fields_and_generate_variant(&e) {
                Ok(constructor) => {
                    e.ident = mock_ident(&e.ident);
                    (Item::Enum(e), constructor)
                },
                Err(e) => {
                    return Err(e);
                },
            }
        },
    };
    clean_out_attributes(&mut original);
    clean_out_attributes(&mut mock);
    match replace_marked_fields(&mock) {
        Ok(mock) => Ok(MockOutput { original, mock, constructor }),
        Err(e) => Err(e),
    }
}

/// Rewrites a block of methods so that it is attached to the mock of the
/// type that it names.
pub fn mock_impl(tokens: ItemImpl) -> (r: Result<ItemImpl, MockError>)
    ensures
        res_view(r) == mocked_block(tokens@),
{
    match MockContext::new(tokens.self_ty.clone()) {
        Ok(context) => context.mock_impl(tokens),
        Err(e) => Err(e),
    }
}

} // verus!
