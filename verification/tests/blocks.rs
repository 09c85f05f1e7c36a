use mocktoffel::block::{AssocType, FnArg, ImplItem, ItemImpl, Method, MethodBody};
use mocktoffel::decl::{GenericParam, Generics};
use mocktoffel::error::MockError;
use mocktoffel::extract::Extracted;
use mocktoffel::mock_impl;
use mocktoffel::pimpl::MockContext;
use mocktoffel::syntax::{
    Bound, BoundModifier, Path, PathArguments, PathSegment, TypeExpr, TypeImplTrait,
};

fn segment(ident: &str, generics: Option<&str>) -> PathSegment {
    PathSegment {
        ident: ident.to_string(),
        arguments: match generics {
            Some(g) => PathArguments::AngleBracketed(g.to_string()),
            None => PathArguments::Absent,
        },
    }
}

fn path(idents: &[&str]) -> Path {
    Path { leading_colon: false, segments: idents.iter().map(|i| segment(i, None)).collect() }
}

fn named(ident: &str) -> TypeExpr {
    TypeExpr::Named(path(&[ident]))
}

fn generic(ident: &str, generics: &str) -> TypeExpr {
    TypeExpr::Named(Path { leading_colon: false, segments: vec![segment(ident, Some(generics))] })
}

fn typed(pat: &str, ty: TypeExpr) -> FnArg {
    FnArg::Typed { pat: pat.to_string(), ty }
}

fn method(ident: &str, inputs: Vec<FnArg>, output: Option<TypeExpr>, body: MethodBody) -> Method {
    Method { vis: "pub".to_string(), ident: ident.to_string(), inputs, output, body }
}

fn source(ident: &str, inputs: Vec<FnArg>, output: Option<TypeExpr>) -> Method {
    method(ident, inputs, output, MethodBody::Source("{ todo() }".to_string()))
}

fn mock_new(name: &str) -> MethodBody {
    MethodBody::MockNew { name: name.to_string() }
}

fn generics_t() -> Generics {
    Generics {
        params: vec![GenericParam::Type {
            ident: "T".to_string(),
            bounds: vec![Bound::Trait {
                modifier: BoundModifier::Unconditional,
                path: path(&["Clone"]),
            }],
            default: None,
        }],
        where_clause: None,
    }
}

fn no_generics() -> Generics {
    Generics { params: vec![], where_clause: None }
}

fn block(trait_: Option<Path>, self_ty: TypeExpr, items: Vec<ImplItem>) -> ItemImpl {
    ItemImpl { generics: no_generics(), trait_, self_ty, items }
}

fn context(ty: TypeExpr) -> MockContext {
    MockContext::new(ty).unwrap()
}

#[test]
fn context_knows_the_type_and_the_name_of_its_mock() {
    let ctx = context(generic("Foo", "<T>"));
    assert_eq!(ctx.original_type(), &generic("Foo", "<T>"));
    assert_eq!(
        ctx.mocked_extract(),
        &Extracted { name: "FooMock".to_string(), generics: Some("<T>".to_string()) }
    );
    let opaque = TypeExpr::OpaqueReturn(TypeImplTrait {
        bounds: vec![Bound::Trait {
            modifier: BoundModifier::Unconditional,
            path: path(&["Debug"]),
        }],
    });
    assert_eq!(
        context(opaque).mocked_extract(),
        &Extracted { name: "DebugMock".to_string(), generics: None }
    );
}

#[test]
fn context_needs_a_type_with_a_name() {
    assert!(matches!(MockContext::new(TypeExpr::Never), Err(MockError::UnsupportedShape)));
    assert!(matches!(
        MockContext::new(TypeExpr::Tuple(vec![named("Foo")])),
        Err(MockError::UnsupportedShape)
    ));
    assert!(matches!(MockContext::new(TypeExpr::Inferred), Err(MockError::StructuralImpossibility)));
    assert!(matches!(
        MockContext::new(TypeExpr::Named(Path { leading_colon: false, segments: vec![] })),
        Err(MockError::StructuralImpossibility)
    ));
}

#[test]
fn plain_block_is_attached_to_the_mock() {
    let tokens = ItemImpl {
        generics: generics_t(),
        trait_: None,
        self_ty: generic("Foo", "<T>"),
        items: vec![ImplItem::Method(source("bar", vec![typed("f", named("Foo"))], None))],
    };
    assert_eq!(
        mock_impl(tokens),
        Ok(ItemImpl {
            generics: generics_t(),
            trait_: None,
            self_ty: generic("FooMock", "<T>"),
            items: vec![ImplItem::Method(method(
                "bar",
                vec![typed("f", named("FooMock"))],
                None,
                MethodBody::Empty
            ))],
        })
    );
}

#[test]
fn parameters_of_the_original_type_keep_their_own_generics() {
    let ctx = context(generic("Foo", "<T>"));
    let inputs = vec![
        FnArg::Receiver("&mut self".to_string()),
        typed("a", generic("Foo", "<u8>")),
        typed("b", named("Foo")),
        typed("c", generic("Foo", "<T>")),
        typed("d", named("Bar")),
        typed("e", TypeExpr::Named(path(&["other", "Foo"]))),
        typed(
            "f",
            TypeExpr::Reference { lifetime: None, mutable: false, inner: Box::new(named("Foo")) },
        ),
        typed("g", named("FooMock")),
    ];
    let expected = vec![
        FnArg::Receiver("&mut self".to_string()),
        typed("a", generic("FooMock", "<u8>")),
        typed("b", named("FooMock")),
        typed("c", generic("FooMock", "<T>")),
        typed("d", named("Bar")),
        typed("e", TypeExpr::Named(path(&["other", "Foo"]))),
        typed(
            "f",
            TypeExpr::Reference { lifetime: None, mutable: false, inner: Box::new(named("Foo")) },
        ),
        typed("g", named("FooMock")),
    ];
    assert_eq!(
        ctx.replace_self_from_function_with_mocks(&source("bar", inputs, None)),
        ImplItem::Method(method("bar", expected, None, MethodBody::Empty))
    );
}

#[test]
fn parameters_match_the_whole_path() {
    let ctx = context(TypeExpr::Named(path(&["a", "Foo"])));
    let written = TypeExpr::Named(Path {
        leading_colon: false,
        segments: vec![segment("a", None), segment("Foo", Some("<u8>"))],
    });
    let rewritten = TypeExpr::Named(Path {
        leading_colon: false,
        segments: vec![segment("a", None), segment("FooMock", Some("<u8>"))],
    });
    let inputs = vec![typed("x", written), typed("y", named("Foo"))];
    let expected = vec![typed("x", rewritten), typed("y", named("Foo"))];
    assert_eq!(
        ctx.replace_self_from_function_with_mocks(&source("bar", inputs, None)),
        ImplItem::Method(method("bar", expected, None, MethodBody::Empty))
    );
}

#[test]
fn method_returning_the_original_returns_the_mock() {
    let ctx = context(generic("Foo", "<T>"));
    for written in [named("Foo"), generic("Foo", "<u8>"), TypeExpr::Named(path(&["x", "Foo"]))] {
        assert_eq!(
            ctx.replace_self_from_function_with_mocks(&source("new", vec![], Some(written))),
            ImplItem::Method(method(
                "new",
                vec![],
                Some(generic("FooMock", "<T>")),
                mock_new("FooMock")
            ))
        );
    }
}

#[test]
fn method_returning_another_type_returns_its_default() {
    let ctx = context(named("Foo"));
    let outputs = vec![
        named("Bar"),
        named("FooMock"),
        TypeExpr::Reference { lifetime: None, mutable: false, inner: Box::new(named("Foo")) },
        TypeExpr::Tuple(vec![named("Foo")]),
        TypeExpr::Named(Path { leading_colon: false, segments: vec![] }),
    ];
    for output in outputs {
        assert_eq!(
            ctx.replace_self_from_function_with_mocks(&source("get", vec![], Some(output.clone()))),
            ImplItem::Method(method("get", vec![], Some(output), MethodBody::DefaultValue))
        );
    }
}

#[test]
fn method_without_result_has_an_empty_body() {
    let ctx = context(named("Foo"));
    assert_eq!(
        ctx.replace_self_from_function_with_mocks(&source("run", vec![], None)),
        ImplItem::Method(method("run", vec![], None, MethodBody::Empty))
    );
}

#[test]
fn capability_block_keeps_the_capability() {
    let capability = Path {
        leading_colon: true,
        segments: vec![segment("convert", None), segment("From", Some("<Bar<T>>"))],
    };
    let tokens = ItemImpl {
        generics: generics_t(),
        trait_: Some(capability.clone()),
        self_ty: generic("Foo", "<T>"),
        items: vec![
            ImplItem::Type(AssocType { ident: "Output".to_string(), ty: generic("Foo", "<u8>") }),
            ImplItem::Type(AssocType { ident: "Error".to_string(), ty: named("String") }),
            ImplItem::Method(source("from", vec![typed("b", generic("Bar", "<T>"))], Some(named("Foo")))),
            ImplItem::Method(source("size", vec![typed("f", generic("Foo", "<T>"))], Some(named("usize")))),
        ],
    };
    assert_eq!(
        mock_impl(tokens),
        Ok(ItemImpl {
            generics: generics_t(),
            trait_: Some(capability),
            self_ty: named("FooMock"),
            items: vec![
                ImplItem::Type(AssocType {
                    ident: "Output".to_string(),
                    ty: generic("FooMock", "<T>"),
                }),
                ImplItem::Type(AssocType { ident: "Error".to_string(), ty: named("String") }),
                ImplItem::Method(method(
                    "from",
                    vec![typed("b", generic("Bar", "<T>"))],
                    Some(generic("FooMock", "<T>")),
                    mock_new("FooMock"),
                )),
                ImplItem::Method(method(
                    "size",
                    vec![typed("f", generic("FooMock", "<T>"))],
                    Some(named("usize")),
                    MethodBody::DefaultValue,
                )),
            ],
        })
    );
}

#[test]
fn associated_type_is_rewritten_in_place() {
    let ctx = context(generic("Foo", "<T>"));
    let mut same = AssocType { ident: "Item".to_string(), ty: named("Foo") };
    assert_eq!(ctx.replace_mocks_in_associated_types(&mut same), Ok(()));
    assert_eq!(same, AssocType { ident: "Item".to_string(), ty: generic("FooMock", "<T>") });

    let mut other = AssocType { ident: "Item".to_string(), ty: named("Bar") };
    assert_eq!(ctx.replace_mocks_in_associated_types(&mut other), Ok(()));
    assert_eq!(other, AssocType { ident: "Item".to_string(), ty: named("Bar") });

    let mut tuple = AssocType { ident: "Item".to_string(), ty: TypeExpr::Tuple(vec![named("Foo")]) };
    assert_eq!(ctx.replace_mocks_in_associated_types(&mut tuple), Err(MockError::UnsupportedShape));
    assert_eq!(tuple, AssocType { ident: "Item".to_string(), ty: TypeExpr::Tuple(vec![named("Foo")]) });
}

#[test]
fn capability_block_refuses_other_items() {
    let tokens = block(
        Some(path(&["Default"])),
        named("Foo"),
        vec![
            ImplItem::Method(source("a", vec![], None)),
            ImplItem::Other("const N: usize = 1;".to_string()),
        ],
    );
    assert_eq!(mock_impl(tokens), Err(MockError::UnsupportedShape));
    let tuple = block(
        Some(path(&["Iterator"])),
        named("Foo"),
        vec![ImplItem::Type(AssocType { ident: "Item".to_string(), ty: TypeExpr::Never })],
    );
    assert_eq!(mock_impl(tuple), Err(MockError::UnsupportedShape));
}

#[test]
fn plain_block_holds_methods_only() {
    let constant = block(None, named("Foo"), vec![ImplItem::Other("const N: usize = 1;".to_string())]);
    assert_eq!(mock_impl(constant), Err(MockError::StructuralImpossibility));
    let assoc = block(
        None,
        named("Foo"),
        vec![ImplItem::Type(AssocType { ident: "Item".to_string(), ty: named("Foo") })],
    );
    assert_eq!(mock_impl(assoc), Err(MockError::StructuralImpossibility));
}

#[test]
fn block_for_a_type_without_name_is_refused() {
    assert_eq!(
        mock_impl(block(None, TypeExpr::Tuple(vec![]), vec![])),
        Err(MockError::UnsupportedShape)
    );
    assert_eq!(
        mock_impl(block(None, TypeExpr::Inferred, vec![])),
        Err(MockError::StructuralImpossibility)
    );
}

#[test]
fn empty_blocks() {
    assert_eq!(mock_impl(block(None, named("Foo"), vec![])), Ok(block(None, named("FooMock"), vec![])));
    assert_eq!(
        mock_impl(block(Some(path(&["Send"])), generic("Foo", "<T>"), vec![])),
        Ok(block(Some(path(&["Send"])), named("FooMock"), vec![]))
    );
}

#[test]
fn context_may_rewrite_a_block_of_another_type() {
    let ctx = context(named("Foo"));
    let tokens = block(
        None,
        generic("Bar", "<T>"),
        vec![ImplItem::Method(source(
            "get",
            vec![typed("f", named("Foo")), typed("b", named("Bar"))],
            Some(named("Bar")),
        ))],
    );
    assert_eq!(
        ctx.mock_impl(tokens),
        Ok(block(
            None,
            generic("BarMock", "<T>"),
            vec![ImplItem::Method(method(
                "get",
                vec![typed("f", named("FooMock")), typed("b", named("Bar"))],
                Some(named("Bar")),
                MethodBody::DefaultValue,
            ))],
        ))
    );
}
