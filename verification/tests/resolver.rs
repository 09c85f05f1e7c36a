use mocktoffel::branch::{
    create_mock, get_mocking_candidate, mock_and_impl_trait_for_it, mock_associated_type,
    mock_function, mock_pointer, mock_reference, mock_tuple, resolve_path_and_mock, Traitified,
};
use mocktoffel::error::MockError;
use mocktoffel::extract::{MockPrepared, SideDeclaration};
use mocktoffel::syntax::{
    Bound, BoundModifier, Path, PathArguments, PathSegment, TypeExpr, TypeImplTrait,
    TypeTraitObject,
};
use quote::ToTokens;

fn segment(ident: &str) -> PathSegment {
    PathSegment { ident: ident.to_string(), arguments: PathArguments::Absent }
}

fn path(idents: &[&str]) -> Path {
    Path { leading_colon: false, segments: idents.iter().map(|i| segment(i)).collect() }
}

fn named(idents: &[&str]) -> TypeExpr {
    TypeExpr::Named(path(idents))
}

fn generic(ident: &str, arguments: &str) -> TypeExpr {
    TypeExpr::Named(Path {
        leading_colon: false,
        segments: vec![PathSegment {
            ident: ident.to_string(),
            arguments: PathArguments::AngleBracketed(arguments.to_string()),
        }],
    })
}

fn capability(idents: &[&str]) -> Bound {
    Bound::Trait { modifier: BoundModifier::Unconditional, path: path(idents) }
}

fn renamed(ty: TypeExpr) -> Result<MockPrepared, MockError> {
    Ok(MockPrepared { mocked_type: ty, side_declaration: None })
}

fn parse_str(text: &str) -> Path {
    let parsed: syn::Path = syn::parse_str(text).unwrap();
    Path {
        leading_colon: parsed.leading_colon.is_some(),
        segments: parsed
            .segments
            .iter()
            .map(|s| PathSegment {
                ident: s.ident.to_string(),
                arguments: match &s.arguments {
                    syn::PathArguments::None => PathArguments::Absent,
                    syn::PathArguments::AngleBracketed(a) => {
                        PathArguments::AngleBracketed(a.to_token_stream().to_string())
                    }
                    syn::PathArguments::Parenthesized(p) => {
                        PathArguments::Parenthesized(p.to_token_stream().to_string())
                    }
                },
            })
            .collect(),
    }
}

#[test]
fn resolve_path_and_mock_for_single_segment() {
    let path = parse_str("Foo");
    let mocked = resolve_path_and_mock(&path).unwrap();
    assert_eq!(mocked.mocked_type, TypeExpr::Named(parse_str("FooMock")));
    assert_eq!(mocked.mocked_type, named(&["FooMock"]));
}

#[test]
fn resolve_multi_segment() {
    let path = parse_str("qow::Fow");
    let mocked = resolve_path_and_mock(&path).unwrap();
    assert_eq!(mocked.mocked_type, TypeExpr::Named(parse_str("qow::FowMock")));
    assert_eq!(mocked.mocked_type, named(&["qow", "FowMock"]));
}

#[test]
fn resolve_parsed_generic_path() {
    let path = parse_str("::a::Foo<T, Vec<u8>>");
    let mocked = resolve_path_and_mock(&path).unwrap();
    assert_eq!(mocked.mocked_type, TypeExpr::Named(parse_str("::a::FooMock<T, Vec<u8>>")));
}

#[test]
fn resolve_empty_path_is_impossible() {
    let path = Path { leading_colon: false, segments: vec![] };
    assert_eq!(resolve_path_and_mock(&path), Err(MockError::StructuralImpossibility));
    assert_eq!(
        get_mocking_candidate(&TypeExpr::Named(path)),
        Err(MockError::StructuralImpossibility)
    );
}

#[test]
fn resolve_named_needs_no_side_declaration() {
    assert_eq!(get_mocking_candidate(&named(&["Foo"])), renamed(named(&["FooMock"])));
}

#[test]
fn resolve_keeps_generic_arguments() {
    assert_eq!(
        get_mocking_candidate(&generic("Foo", "<T, Vec<u8>>")),
        renamed(generic("FooMock", "<T, Vec<u8>>"))
    );
}

#[test]
fn resolve_keeps_leading_colon_and_inner_arguments() {
    let ty = TypeExpr::Named(Path {
        leading_colon: true,
        segments: vec![
            PathSegment {
                ident: "a".to_string(),
                arguments: PathArguments::AngleBracketed("<X>".to_string()),
            },
            segment("b"),
            PathSegment {
                ident: "T".to_string(),
                arguments: PathArguments::Parenthesized("(u8) -> u8".to_string()),
            },
        ],
    });
    let expected = TypeExpr::Named(Path {
        leading_colon: true,
        segments: vec![
            PathSegment {
                ident: "a".to_string(),
                arguments: PathArguments::AngleBracketed("<X>".to_string()),
            },
            segment("b"),
            PathSegment {
                ident: "TMock".to_string(),
                arguments: PathArguments::Parenthesized("(u8) -> u8".to_string()),
            },
        ],
    });
    assert_eq!(get_mocking_candidate(&ty), renamed(expected));
}

#[test]
fn resolve_twice_doubles_the_suffix() {
    let once = get_mocking_candidate(&named(&["Foo"])).unwrap().mocked_type;
    let twice = get_mocking_candidate(&once).unwrap().mocked_type;
    assert_eq!(twice, named(&["FooMockMock"]));
}

#[test]
fn resolve_reference_keeps_mutability() {
    for mutable in [false, true] {
        let ty = TypeExpr::Reference {
            lifetime: None,
            mutable,
            inner: Box::new(named(&["a", "Foo"])),
        };
        let expected = TypeExpr::Reference {
            lifetime: None,
            mutable,
            inner: Box::new(named(&["a", "FooMock"])),
        };
        assert_eq!(get_mocking_candidate(&ty), renamed(expected));
    }
}

#[test]
fn resolve_reference_keeps_lifetime() {
    let lifetime = Some("'a".to_string());
    let resolved = mock_reference(&lifetime, true, &named(&["Foo"]));
    assert_eq!(
        resolved,
        renamed(TypeExpr::Reference {
            lifetime: Some("'a".to_string()),
            mutable: true,
            inner: Box::new(named(&["FooMock"])),
        })
    );
}

#[test]
fn resolve_reference_fails_as_its_referent() {
    let ty = TypeExpr::Reference {
        lifetime: None,
        mutable: false,
        inner: Box::new(TypeExpr::Tuple(vec![named(&["Foo"])])),
    };
    assert_eq!(get_mocking_candidate(&ty), Err(MockError::UnsupportedShape));
}

#[test]
fn resolve_reference_to_reference() {
    let ty = TypeExpr::Reference {
        lifetime: None,
        mutable: false,
        inner: Box::new(TypeExpr::Reference {
            lifetime: None,
            mutable: true,
            inner: Box::new(named(&["Foo"])),
        }),
    };
    let expected = TypeExpr::Reference {
        lifetime: None,
        mutable: false,
        inner: Box::new(TypeExpr::Reference {
            lifetime: None,
            mutable: true,
            inner: Box::new(named(&["FooMock"])),
        }),
    };
    assert_eq!(get_mocking_candidate(&ty), renamed(expected));
}

#[test]
fn resolve_containers_are_transparent() {
    let inner = get_mocking_candidate(&named(&["Foo"]));
    let array = TypeExpr::Array { inner: Box::new(named(&["Foo"])), len: "4".to_string() };
    let slice = TypeExpr::Slice(Box::new(named(&["Foo"])));
    let group = TypeExpr::Grouped(Box::new(named(&["Foo"])));
    assert_eq!(get_mocking_candidate(&array), inner);
    assert_eq!(get_mocking_candidate(&slice), inner);
    assert_eq!(get_mocking_candidate(&group), inner);
    assert_eq!(inner, renamed(named(&["FooMock"])));
}

#[test]
fn resolve_nested_containers() {
    let ty = TypeExpr::Slice(Box::new(TypeExpr::Grouped(Box::new(TypeExpr::Array {
        inner: Box::new(TypeExpr::Reference {
            lifetime: None,
            mutable: false,
            inner: Box::new(named(&["Foo"])),
        }),
        len: "N".to_string(),
    }))));
    let expected = TypeExpr::Reference {
        lifetime: None,
        mutable: false,
        inner: Box::new(named(&["FooMock"])),
    };
    assert_eq!(get_mocking_candidate(&ty), renamed(expected));
}

#[test]
fn resolve_opaque_type_invents_a_type() {
    let ty = TypeExpr::OpaqueReturn(TypeImplTrait {
        bounds: vec![capability(&["Debug"]), capability(&["Clone"])],
    });
    assert_eq!(
        get_mocking_candidate(&ty),
        Ok(MockPrepared {
            mocked_type: named(&["DebugClone"]),
            side_declaration: Some(SideDeclaration { name: "DebugClone".to_string() }),
        })
    );
}

#[test]
fn resolve_dynamic_type_invents_a_type() {
    let ty = TypeExpr::DynamicCapability(TypeTraitObject {
        bounds: vec![
            capability(&["std", "fmt", "Display"]),
            Bound::Lifetime("'static".to_string()),
            Bound::Trait { modifier: BoundModifier::Maybe, path: path(&["Sized"]) },
            Bound::Trait { modifier: BoundModifier::Negated, path: path(&["Unpin"]) },
            Bound::Verbatim("use<'a>".to_string()),
            capability(&["Send"]),
        ],
    });
    assert_eq!(
        get_mocking_candidate(&ty),
        Ok(MockPrepared {
            mocked_type: named(&["DisplaySend"]),
            side_declaration: Some(SideDeclaration { name: "DisplaySend".to_string() }),
        })
    );
}

#[test]
fn resolve_bound_set_without_capability_has_no_name() {
    let empty = TypeImplTrait { bounds: vec![] };
    assert_eq!(mock_and_impl_trait_for_it(&empty), Err(MockError::StructuralImpossibility));
    let relaxed = TypeTraitObject {
        bounds: vec![
            Bound::Trait { modifier: BoundModifier::Maybe, path: path(&["Sized"]) },
            Bound::Lifetime("'a".to_string()),
        ],
    };
    assert_eq!(mock_and_impl_trait_for_it(&relaxed), Err(MockError::StructuralImpossibility));
    assert_eq!(
        get_mocking_candidate(&TypeExpr::DynamicCapability(relaxed)),
        Err(MockError::StructuralImpossibility)
    );
}

#[test]
fn bounds_are_handed_out_in_order() {
    let set = TypeImplTrait { bounds: vec![capability(&["A"]), capability(&["B"])] };
    assert_eq!(set.bounds(), &vec![capability(&["A"]), capability(&["B"])]);
    let object = TypeTraitObject { bounds: vec![capability(&["C"])] };
    assert_eq!(object.bounds(), &vec![capability(&["C"])]);
}

#[test]
fn create_mock_declares_the_name() {
    assert_eq!(create_mock("DebugClone"), SideDeclaration { name: "DebugClone".to_string() });
}

#[test]
fn resolve_refuses_unsupported_shapes() {
    let foo = || Box::new(named(&["Foo"]));
    let shapes = vec![
        TypeExpr::Pointer { mutable: false, inner: foo() },
        TypeExpr::Pointer { mutable: true, inner: foo() },
        TypeExpr::Tuple(vec![]),
        TypeExpr::Tuple(vec![named(&["Foo"]), named(&["Bar"])]),
        TypeExpr::FunctionSignature { params: vec![named(&["Foo"])], ret: Some(foo()) },
        TypeExpr::FunctionSignature { params: vec![], ret: None },
        TypeExpr::AssociatedPath { qualifier: foo(), position: 1, path: path(&["Iterator", "Item"]) },
        TypeExpr::Never,
        TypeExpr::Macro("ty!(Foo)".to_string()),
    ];
    for shape in &shapes {
        assert_eq!(get_mocking_candidate(shape), Err(MockError::UnsupportedShape));
    }
}

#[test]
fn resolve_refuses_inferred_type_as_impossible() {
    assert_eq!(get_mocking_candidate(&TypeExpr::Inferred), Err(MockError::StructuralImpossibility));
}

#[test]
fn unsupported_branches_always_fail() {
    let foo = named(&["Foo"]);
    assert_eq!(mock_function(&foo), Err(MockError::UnsupportedShape));
    assert_eq!(mock_pointer(&foo), Err(MockError::UnsupportedShape));
    assert_eq!(mock_associated_type(&foo), Err(MockError::UnsupportedShape));
    assert_eq!(mock_tuple(&foo), Err(MockError::UnsupportedShape));
}

#[test]
fn resolve_leaves_its_argument_alone() {
    let ty = named(&["a", "Foo"]);
    let _ = get_mocking_candidate(&ty);
    assert_eq!(ty, named(&["a", "Foo"]));
}
