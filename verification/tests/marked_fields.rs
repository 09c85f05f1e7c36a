use mocktoffel::decl::{
    Attribute, Field, Fields, Generics, Item, ItemEnum, ItemStruct, Variant,
};
use mocktoffel::error::MockError;
use mocktoffel::extract::{MockPrepared, SideDeclaration};
use mocktoffel::mutations::mutate;
use mocktoffel::syntax::{
    Bound, BoundModifier, Path, PathArguments, PathSegment, TypeExpr, TypeImplTrait,
};
use mocktoffel::toffel;
use mocktoffel::toffel::{replace_marked_fields, Toffelise};

fn path(idents: &[&str]) -> Path {
    Path {
        leading_colon: false,
        segments: idents
            .iter()
            .map(|i| PathSegment { ident: i.to_string(), arguments: PathArguments::Absent })
            .collect(),
    }
}

fn named(ident: &str) -> TypeExpr {
    TypeExpr::Named(path(&[ident]))
}

fn marker(name: &str) -> Attribute {
    Attribute::Path(path(&[name]))
}

fn list(name: &str, tokens: &str) -> Attribute {
    Attribute::List { path: path(&[name]), tokens: tokens.to_string() }
}

fn field(ident: Option<&str>, ty: TypeExpr, attrs: Vec<Attribute>) -> Field {
    Field { attrs, vis: "pub".to_string(), ident: ident.map(|i| i.to_string()), ty }
}

fn structure(ident: &str, fields: Fields) -> ItemStruct {
    ItemStruct {
        attrs: vec![list("derive", "Default")],
        vis: "pub(crate)".to_string(),
        ident: ident.to_string(),
        generics: Generics { params: vec![], where_clause: Some("where T: Copy".to_string()) },
        fields,
    }
}

fn variant(ident: &str, fields: Fields) -> Variant {
    Variant {
        attrs: vec![marker("default")],
        ident: ident.to_string(),
        fields,
        discriminant: Some("3".to_string()),
    }
}

fn enumeration(ident: &str, variants: Vec<Variant>) -> ItemEnum {
    ItemEnum {
        attrs: vec![list("derive", "Debug")],
        vis: "pub".to_string(),
        ident: ident.to_string(),
        generics: Generics { params: vec![], where_clause: None },
        variants,
    }
}

#[test]
fn marked_field_gets_the_mock_of_its_type() {
    let item = structure(
        "Foo",
        Fields::Named(vec![
            field(Some("bar"), named("Bar"), vec![list("doc", "hidden"), marker("mocked")]),
            field(Some("baz"), named("String"), vec![list("doc", "kept")]),
        ]),
    );
    assert_eq!(
        item.replace_mocks(),
        Ok(Item::Struct(structure(
            "Foo",
            Fields::Named(vec![
                field(Some("bar"), named("BarMock"), vec![list("doc", "hidden")]),
                field(Some("baz"), named("String"), vec![list("doc", "kept")]),
            ]),
        )))
    );
}

#[test]
fn marked_fields_of_a_tuple_structure() {
    let item = structure(
        "Foo",
        Fields::Unnamed(vec![
            field(None, named("A"), vec![]),
            field(
                None,
                TypeExpr::Reference { lifetime: None, mutable: true, inner: Box::new(named("B")) },
                vec![list("mocked", "")],
            ),
            field(None, TypeExpr::Slice(Box::new(named("C"))), vec![marker("mocked")]),
        ]),
    );
    assert_eq!(
        toffel(Item::Struct(item)),
        Ok(Item::Struct(structure(
            "Foo",
            Fields::Unnamed(vec![
                field(None, named("A"), vec![]),
                field(
                    None,
                    TypeExpr::Reference {
                        lifetime: None,
                        mutable: true,
                        inner: Box::new(named("BMock")),
                    },
                    vec![],
                ),
                field(None, named("CMock"), vec![]),
            ]),
        )))
    );
}

#[test]
fn unmarked_fields_may_have_any_type() {
    let fields = Fields::Named(vec![
        field(Some("a"), TypeExpr::Tuple(vec![named("A")]), vec![marker("mocked_with")]),
        field(Some("b"), TypeExpr::Never, vec![]),
    ]);
    assert_eq!(
        structure("Foo", fields.clone()).replace_mocks(),
        Ok(Item::Struct(structure("Foo", fields)))
    );
}

#[test]
fn marked_field_of_unsupported_type_refuses_the_declaration() {
    let item = structure(
        "Foo",
        Fields::Named(vec![
            field(Some("a"), named("A"), vec![marker("mocked")]),
            field(Some("b"), TypeExpr::Tuple(vec![named("A")]), vec![marker("mocked")]),
            field(Some("c"), TypeExpr::Inferred, vec![marker("mocked")]),
        ]),
    );
    assert_eq!(item.replace_mocks(), Err(MockError::UnsupportedShape));
    let inferred = structure(
        "Foo",
        Fields::Unnamed(vec![field(None, TypeExpr::Inferred, vec![marker("mocked")])]),
    );
    assert_eq!(inferred.replace_mocks(), Err(MockError::StructuralImpossibility));
}

#[test]
fn structure_without_brackets_is_impossible() {
    assert_eq!(
        structure("Foo", Fields::Unit).replace_mocks(),
        Err(MockError::StructuralImpossibility)
    );
    assert_eq!(
        toffel(Item::Struct(structure("Foo", Fields::Unit))),
        Err(MockError::StructuralImpossibility)
    );
}

#[test]
fn structure_with_empty_brackets_stays() {
    assert_eq!(
        structure("Foo", Fields::Named(vec![])).replace_mocks(),
        Ok(Item::Struct(structure("Foo", Fields::Named(vec![]))))
    );
}

#[test]
fn marked_field_known_by_bounds_gets_the_fresh_type() {
    let bounds = TypeExpr::OpaqueReturn(TypeImplTrait {
        bounds: vec![Bound::Trait {
            modifier: BoundModifier::Unconditional,
            path: path(&["Debug"]),
        }],
    });
    let item = structure("Foo", Fields::Named(vec![field(Some("a"), bounds, vec![marker("mocked")])]));
    assert_eq!(
        item.replace_mocks(),
        Ok(Item::Struct(structure(
            "Foo",
            Fields::Named(vec![field(Some("a"), named("Debug"), vec![])])
        )))
    );
}

#[test]
fn marked_fields_of_variants() {
    let item = enumeration(
        "Baz",
        vec![
            variant("Never", Fields::Unnamed(vec![field(None, named("Bar"), vec![marker("mocked")])])),
            variant("Gonna", Fields::Unit),
            variant(
                "Let",
                Fields::Unnamed(vec![
                    field(None, named("Bar"), vec![]),
                    field(None, named("Qux"), vec![marker("mocked"), list("doc", "x")]),
                ]),
            ),
        ],
    );
    let expected = enumeration(
        "Baz",
        vec![
            variant("Never", Fields::Unnamed(vec![field(None, named("BarMock"), vec![])])),
            variant("Gonna", Fields::Unit),
            variant(
                "Let",
                Fields::Unnamed(vec![
                    field(None, named("Bar"), vec![]),
                    field(None, named("QuxMock"), vec![list("doc", "x")]),
                ]),
            ),
        ],
    );
    assert_eq!(item.clone().replace_mocks(), Ok(Item::Enum(expected.clone())));
    assert_eq!(toffel(Item::Enum(item)), Ok(Item::Enum(expected)));
}

#[test]
fn variant_with_named_fields_is_impossible() {
    let item = enumeration(
        "Baz",
        vec![
            variant("A", Fields::Unit),
            variant("B", Fields::Named(vec![field(Some("a"), named("Bar"), vec![])])),
        ],
    );
    assert_eq!(item.replace_mocks(), Err(MockError::StructuralImpossibility));
}

#[test]
fn first_refused_variant_decides() {
    let item = enumeration(
        "Baz",
        vec![
            variant(
                "A",
                Fields::Unnamed(vec![field(None, TypeExpr::Never, vec![marker("mocked")])]),
            ),
            variant("B", Fields::Named(vec![])),
        ],
    );
    assert_eq!(item.replace_mocks(), Err(MockError::UnsupportedShape));
}

#[test]
fn enum_without_variants_stays() {
    assert_eq!(
        enumeration("Baz", vec![]).replace_mocks(),
        Ok(Item::Enum(enumeration("Baz", vec![])))
    );
}

fn prepared(ty: TypeExpr) -> MockPrepared {
    MockPrepared { mocked_type: ty, side_declaration: None }
}

#[test]
fn mutate_puts_the_path_into_a_named_field() {
    let mut target = field(Some("bar"), named("Bar"), vec![marker("mocked")]);
    assert_eq!(mutate(&mut target, prepared(TypeExpr::Named(path(&["a", "BarMock"])))), Ok(()));
    assert_eq!(
        target,
        field(Some("bar"), TypeExpr::Named(path(&["a", "BarMock"])), vec![marker("mocked")])
    );
}

#[test]
fn mutate_keeps_the_qualifying_type() {
    let qualified = |p: Path| TypeExpr::AssociatedPath {
        qualifier: Box::new(named("T")),
        position: 1,
        path: p,
    };
    let mut target = field(Some("item"), qualified(path(&["Iterator", "Item"])), vec![]);
    let new = MockPrepared {
        mocked_type: named("ItemMock"),
        side_declaration: Some(SideDeclaration { name: "unused".to_string() }),
    };
    assert_eq!(mutate(&mut target, new), Ok(()));
    assert_eq!(target, field(Some("item"), qualified(path(&["ItemMock"])), vec![]));

    let mut plain = field(Some("item"), named("Item"), vec![]);
    assert_eq!(mutate(&mut plain, prepared(qualified(path(&["A", "B"])))), Ok(()));
    assert_eq!(plain, field(Some("item"), TypeExpr::Named(path(&["A", "B"])), vec![]));
}

#[test]
fn mutate_leaves_other_shapes_alone() {
    let mut slice = field(Some("a"), TypeExpr::Slice(Box::new(named("Bar"))), vec![]);
    assert_eq!(mutate(&mut slice, prepared(named("BarMock"))), Ok(()));
    assert_eq!(slice, field(Some("a"), TypeExpr::Slice(Box::new(named("Bar"))), vec![]));

    let mut target = field(Some("a"), named("Bar"), vec![]);
    assert_eq!(mutate(&mut target, prepared(TypeExpr::Never)), Ok(()));
    assert_eq!(target, field(Some("a"), named("Bar"), vec![]));
}

#[test]
fn mutate_refuses_a_field_without_name() {
    let mut target = field(None, named("Bar"), vec![]);
    assert_eq!(mutate(&mut target, prepared(named("BarMock"))), Err(MockError::UnsupportedShape));
    assert_eq!(target, field(None, named("Bar"), vec![]));
}

#[test]
fn marked_fields_are_replaced_in_any_shape() {
    let unit = Item::Struct(structure("Foo", Fields::Unit));
    assert_eq!(replace_marked_fields(&unit), Ok(Item::Struct(structure("Foo", Fields::Unit))));

    let item = Item::Enum(enumeration(
        "Baz",
        vec![
            variant("A", Fields::Named(vec![field(Some("a"), named("Bar"), vec![marker("mocked")])])),
            variant("B", Fields::Unnamed(vec![field(None, named("Bar"), vec![])])),
            variant("C", Fields::Unit),
        ],
    ));
    assert_eq!(
        replace_marked_fields(&item),
        Ok(Item::Enum(enumeration(
            "Baz",
            vec![
                variant("A", Fields::Named(vec![field(Some("a"), named("BarMock"), vec![])])),
                variant("B", Fields::Unnamed(vec![field(None, named("Bar"), vec![])])),
                variant("C", Fields::Unit),
            ],
        )))
    );

    let refused = Item::Struct(structure(
        "Foo",
        Fields::Named(vec![field(Some("a"), TypeExpr::Never, vec![marker("mocked")])]),
    ));
    assert_eq!(replace_marked_fields(&refused), Err(MockError::UnsupportedShape));
}
