//! Replacing the types of marked fields by their mocks.

use vstd::prelude::*;

use crate::branch::{get_mocking_candidate, resolve};
use crate::constructor::Directive;
use crate::decl::{
    clone_attrs, Field, FieldView, Fields, FieldsView, Item, ItemEnum, ItemEnumView, ItemStruct,
    ItemStructView, ItemView, Variant, VariantView,
};
use crate::error::MockError;
use crate::model::{
    first_where, lemma_first_where, lemma_try_map_fails, lemma_try_map_ok, lemma_try_map_step,
    lemma_views_empty, lemma_views_push, res_view, res_views, try_map, views,
};

verus! {

/// Whether a field carries the `mocked` directive.
pub open spec fn marked(field: FieldView) -> bool {
    Directive::Marker.first_in(field.attrs) is Some
}

/// A field as it stands in the rewritten declaration. A field that carries
/// the `mocked` directive has the type that its own type resolves to, and its
/// attributes without that directive; it is refused where its type is. Any
/// other field is kept as it is.
pub open spec fn replace_in_field(field: FieldView) -> Result<FieldView, MockError> {
    if marked(field) {
        match resolve(field.ty) {
            Ok(m) => Ok(
                FieldView {
                    attrs: field.attrs.filter(Directive::Marker.rest()),
                    vis: field.vis,
                    ident: field.ident,
                    ty: m.mocked_type,
                },
            ),
            Err(e) => Err(e),
        }
    } else {
        Ok(field)
    }
}

/// `replace_in_field` as a function on fields.
pub open spec fn replace_in_field_fn() -> spec_fn(FieldView) -> Result<FieldView, MockError> {
    |field: FieldView| replace_in_field(field)
}

/// The fields, in whatever brackets, once every marked field holds the mock
/// of its type. The first field that is refused refuses them all.
pub open spec fn replace_in_fields(fields: FieldsView) -> Result<FieldsView, MockError> {
    match fields {
        FieldsView::Named(list) => match try_map(list, replace_in_field_fn()) {
            Ok(out) => Ok(FieldsView::Named(out)),
            Err(e) => Err(e),
        },
        FieldsView::Unnamed(list) => match try_map(list, replace_in_field_fn()) {
            Ok(out) => Ok(FieldsView::Unnamed(out)),
            Err(e) => Err(e),
        },
        FieldsView::Unit => Ok(FieldsView::Unit),
    }
}

/// A variant, with whatever fields, once every marked field holds the mock of
/// its type.
pub open spec fn replace_in_any_variant(variant: VariantView) -> Result<VariantView, MockError> {
    match replace_in_fields(variant.fields) {
        Ok(fields) => Ok(
            VariantView {
                attrs: variant.attrs,
                ident: variant.ident,
                fields,
                discriminant: variant.discriminant,
            },
        ),
        Err(e) => Err(e),
    }
}

/// `replace_in_any_variant` as a function on variants.
pub open spec fn replace_in_any_variant_fn() -> spec_fn(VariantView) -> Result<
    VariantView,
    MockError,
> {
    |variant: VariantView| replace_in_any_variant(variant)
}

/// A declaration of any shape once every marked field holds the mock of its
/// type. Nothing else changes.
pub open spec fn replace_marked(item: ItemView) -> Result<ItemView, MockError> {
    match item {
        ItemView::Struct(s) => match replace_in_fields(s.fields) {
            Ok(fields) => Ok(
                ItemView::Struct(
                    ItemStructView {
                        attrs: s.attrs,
                        vis: s.vis,
                        ident: s.ident,
                        generics: s.generics,
                        fields,
                    },
                ),
            ),
            Err(e) => Err(e),
        },
        ItemView::Enum(e) => match try_map(e.variants, replace_in_any_variant_fn()) {
            Ok(variants) => Ok(
                ItemView::Enum(
                    ItemEnumView {
                        attrs: e.attrs,
                        vis: e.vis,
                        ident: e.ident,
                        generics: e.generics,
                        variants,
                    },
                ),
            ),
            Err(x) => Err(x),
        },
    }
}

/// The fields of a structure as they stand in the rewritten declaration, in
/// their order. A structure without brackets is refused.
pub open spec fn replace_in_struct_fields(fields: FieldsView) -> Result<FieldsView, MockError> {
    match fields {
        FieldsView::Unit => Err(MockError::StructuralImpossibility),
        _ => replace_in_fields(fields),
    }
}

/// The declaration of a structure with the types of its marked fields
/// replaced. Its attributes, visibility, name and generic parameters stay.
pub open spec fn replace_in_struct(item: ItemStructView) -> Result<ItemStructView, MockError> {
    match replace_in_struct_fields(item.fields) {
        Ok(fields) => Ok(
            ItemStructView {
                attrs: item.attrs,
                vis: item.vis,
                ident: item.ident,
                generics: item.generics,
                fields,
            },
        ),
        Err(e) => Err(e),
    }
}

/// A variant as it stands in the rewritten declaration: the fields of a
/// tuple variant are rewritten, a variant without fields is kept, a variant
/// with named fields is refused.
pub open spec fn replace_in_variant(variant: VariantView) -> Result<VariantView, MockError> {
    match variant.fields {
        FieldsView::Named(_) => Err(MockError::StructuralImpossibility),
        _ => replace_in_any_variant(variant),
    }
}

/// `replace_in_variant` as a function on variants.
pub open spec fn replace_in_variant_fn() -> spec_fn(VariantView) -> Result<VariantView, MockError> {
    |variant: VariantView| replace_in_variant(variant)
}

/// The declaration of a variant type with the types of the marked fields of
/// its variants replaced. Its attributes, visibility, name and generic
/// parameters stay.
pub open spec fn replace_in_enum(item: ItemEnumView) -> Result<ItemEnumView, MockError> {
    match try_map(item.variants, replace_in_variant_fn()) {
        Ok(variants) => Ok(
            ItemEnumView {
                attrs: item.attrs,
                vis: item.vis,
                ident: item.ident,
                generics: item.generics,
                variants,
            },
        ),
        Err(e) => Err(e),
    }
}

/// In a rewritten list every field stands where it stood. A field that
/// carried no `mocked` directive is as it was. A field that carried one has
/// the type that its own type resolves to, and no longer carries the directive.
pub proof fn lemma_replace_field_by_field(fields: Seq<FieldView>)
    requires
        try_map(fields, replace_in_field_fn()) is Ok,
    ensures
        ({
            let out = try_map(fields, replace_in_field_fn())->Ok_0;
            &&& out.len() == fields.len()
            &&& forall|i: int|
                0 <= i < fields.len() && !marked(#[trigger] fields[i]) ==> out[i] == fields[i]
            &&& forall|i: int|
                0 <= i < fields.len() && marked(#[trigger] fields[i]) ==> {
                    &&& resolve(fields[i].ty) matches Ok(m)
                    &&& out[i].ty == m.mocked_type
                    &&& out[i].ident == fields[i].ident
                    &&& !marked(out[i])
                }
        }),
{
    lemma_try_map_ok(fields, replace_in_field_fn());
    let out = try_map(fields, replace_in_field_fn())->Ok_0;
    assert forall|i: int| 0 <= i < fields.len() implies replace_in_field(#[trigger] fields[i])
        == Ok::<FieldView, MockError>(out[i]) by {
        assert(replace_in_field_fn()(fields[i]) == Ok::<FieldView, MockError>(out[i]));
    }
    assert forall|i: int| 0 <= i < fields.len() && marked(#[trigger] fields[i]) implies !marked(
        out[i],
    ) by {
        assert(replace_in_field(fields[i]) == Ok::<FieldView, MockError>(out[i]));
        let kept = fields[i].attrs.filter(Directive::Marker.rest());
        assert(out[i].attrs == kept);
        lemma_first_where(kept, Directive::Marker.test());
        if let Some(k) = first_where(kept, Directive::Marker.test()) {
            fields[i].attrs.lemma_filter_pred(Directive::Marker.rest(), k);
            assert(Directive::Marker.test()(kept[k]));
        }
    }
}

/// A declaration in which marked fields can be given the mocks of their
/// types.
pub trait Toffelise: Sized {
    /// The rewritten declaration, or why there is none.
    spec fn replaced(&self) -> Result<ItemView, MockError>;

    fn replace_mocks(self) -> (r: Result<Item, MockError>)
        ensures
            res_view(r) == self.replaced(),
    ;
}

/// One field as it stands in the rewritten declaration.
fn replace_field(field: &Field) -> (r: Result<Field, MockError>)
    ensures
        res_view(r) == replace_in_field(field@),
{
    if Directive::Marker.occurs(&field.attrs) {
        match get_mocking_candidate(&field.ty) {
            Ok(m) => Ok(
                Field {
                    attrs: Directive::Marker.strip(&field.attrs),
                    vis: field.vis.clone(),
                    ident: field.ident.clone(),
                    ty: m.mocked_type,
                },
            ),
            Err(e) => Err(e),
        }
    } else {
        Ok(field.clone())
    }
}

/// The fields as they stand in the rewritten declaration.
fn replace_fields(fields: &Vec<Field>) -> (r: Result<Vec<Field>, MockError>)
    ensures
        res_views(r) == try_map(views(fields@), replace_in_field_fn()),
{
    let ghost all = views(fields@);
    let mut out: Vec<Field> = Vec::new();
    let mut i: usize = 0;
    proof {
        lemma_views_empty::<Field>();
        assert(all.take(0) =~= Seq::empty());
    }
    while i < fields.len()
        invariant
            i <= fields.len(),
            all == views(fields@),
            try_map(all.take(i as int), replace_in_field_fn()) == Ok::<Seq<FieldView>, MockError>(
                views(out@),
            ),
        decreases fields.len() - i,
    {
        proof {
            lemma_try_map_step(all, replace_in_field_fn(), i as int);
        }
        match replace_field(&fields[i]) {
            Ok(field) => {
                proof {
                    lemma_views_push(out@, field);
                }
                out.push(field);
            },
            Err(e) => {
                proof {
                    lemma_try_map_fails(all, replace_in_field_fn(), i + 1);
                }
                return Err(e);
            },
        }
        i += 1;
    }
    proof {
        assert(all.take(fields.len() as int) =~= all);
    }
    Ok(out)
}

/// The fields, in whatever brackets, once every marked field holds the mock
/// of its type.
fn replace_any_fields(fields: &Fields) -> (r: Result<Fields, MockError>)
    ensures
        res_view(r) == replace_in_fields(fields@),
{
    match fields {
        Fields::Named(list) => match replace_fields(list) {
            Ok(out) => Ok(Fields::Named(out)),
            Err(e) => Err(e),
        },
        Fields::Unnamed(list) => match replace_fields(list) {
            Ok(out) => Ok(Fields::Unnamed(out)),
            Err(e) => Err(e),
        },
        Fields::Unit => Ok(Fields::Unit),
    }
}

/// A variant, with whatever fields, once every marked field holds the mock of
/// its type.
fn replace_any_variant(variant: &Variant) -> (r: Result<Variant, MockError>)
    ensures
        res_view(r) == replace_in_any_variant(variant@),
{
    match replace_any_fields(&variant.fields) {
        Ok(fields) => Ok(
            Variant {
                attrs: clone_attrs(&variant.attrs),
                ident: variant.ident.clone(),
                fields,
                discriminant: variant.discriminant.clone(),
            },
        ),
        Err(e) => Err(e),
    }
}

/// The variants once every marked field holds the mock of its type; `strict`
/// refuses variants with named fields.
fn replace_variants(variants: &Vec<Variant>, strict: bool) -> (r: Result<Vec<Variant>, MockError>)
    ensures
        res_views(r) == try_map(
            views(variants@),
            if strict {
                replace_in_variant_fn()
            } else {
                replace_in_any_variant_fn()
            },
        ),
{
    let ghost all = views(variants@);
    let ghost f = if strict {
        replace_in_variant_fn()
    } else {
        replace_in_any_variant_fn()
    };
    let mut out: Vec<Variant> = Vec::new();
    let mut i: usize = 0;
    proof {
        lemma_views_empty::<Variant>();
        assert(all.take(0) =~= Seq::empty());
    }
    while i < variants.len()
        invariant
            i <= variants.len(),
            all == views(variants@),
            f == if strict {
                replace_in_variant_fn()
            } else {
                replace_in_any_variant_fn()
            },
            try_map(all.take(i as int), f) == Ok::<Seq<VariantView>, MockError>(views(out@)),
        decreases variants.len() - i,
    {
        proof {
            lemma_try_map_step(all, f, i as int);
        }
        let variant = &variants[i];
        let replaced = if strict && is_named(&variant.fields) {
            Err(MockError::StructuralImpossibility)
        } else {
            replace_any_variant(variant)
        };
        match replaced {
            Ok(variant) => {
                proof {
                    lemma_views_push(out@, variant);
                }
                out.push(variant);
            },
            Err(e) => {
                proof {
                    lemma_try_map_fails(all, f, i + 1);
                }
                return Err(e);
            },
        }
        i += 1;
    }
    proof {
        assert(all.take(variants.len() as int) =~= all);
    }
    Ok(out)
}

/// Whether the fields stand between braces.
fn is_named(fields: &Fields) -> (r: bool)
    ensures
        r == fields@ is Named,
{
    match fields {
        Fields::Named(_) => true,
        _ => false,
    }
}

/// The declaration, of whatever shape, in which every marked field holds the
/// mock of its type.
pub fn replace_marked_fields(item: &Item) -> (r: Result<Item, MockError>)
    ensures
        res_view(r) == replace_marked(item@),
{
    match item {
        Item::Struct(s) => match replace_any_fields(&s.fields) {
            Ok(fields) => Ok(
                Item::Struct(
                    ItemStruct {
                        attrs: clone_attrs(&s.attrs),
                        vis: s.vis.clone(),
                        ident: s.ident.clone(),
                        generics: s.generics.clone(),
                        fields,
                    },
                ),
            ),
            Err(e) => Err(e),
        },
        Item::Enum(e) => match replace_variants(&e.variants, false) {
            Ok(variants) => Ok(
                Item::Enum(
                    ItemEnum {
                        attrs: clone_attrs(&e.attrs),
                        vis: e.vis.clone(),
                        ident: e.ident.clone(),
                        generics: e.generics.clone(),
                        variants,
                    },
                ),
            ),
            Err(x) => Err(x),
        },
    }
}

impl Toffelise for ItemStruct {
    open spec fn replaced(&self) -> Result<ItemView, MockError> {
        match replace_in_struct(self@) {
            Ok(item) => Ok(ItemView::Struct(item)),
            Err(e) => Err(e),
        }
    }

    fn replace_mocks(self) -> (r: Result<Item, MockError>) {
        if let Fields::Unit = &self.fields {
            return Err(MockError::StructuralImpossibility);
        }
        match replace_any_fields(&self.fields) {
            Ok(fields) => Ok(
                Item::Struct(
                    ItemStruct {
                        attrs: self.attrs,
                        vis: self.vis,
                        ident: self.ident,
                        generics: self.generics,
                        fields,
                    },
                ),
            ),
            Err(e) => Err(e),
        }
    }
}

impl Toffelise for ItemEnum {
    open spec fn replaced(&self) -> Result<ItemView, MockError> {
        match replace_in_enum(self@) {
            Ok(item) => Ok(ItemView::Enum(item)),
            Err(e) => Err(e),
        }
    }

    fn replace_mocks(self) -> (r: Result<Item, MockError>) {
        match replace_variants(&self.variants, true) {
            Ok(variants) => Ok(
                Item::Enum(
                    ItemEnum {
                        attrs: self.attrs,
                        vis: self.vis,
                        ident: self.ident,
                        generics: self.generics,
                        variants,
                    },
                ),
            ),
            Err(e) => Err(e),
        }
    }
}

} // verus!
