//! Rewriting a block of methods so that it is attached to the mock of its
//! type.

use vstd::prelude::*;

use crate::block::{
    AssocType, AssocTypeView, FnArg, FnArgView, ImplItem, ImplItemView, ItemImpl, ItemImplView,
    Method, MethodBody, MethodBodyView, MethodView,
};
use crate::error::MockError;
use crate::extract::{
    derive_name, mock_ident, mock_name, name_of_type, prepare_mock_name, ExtractName, Extracted,
    ExtractedView,
};
use crate::model::{
    lemma_try_map_fails, lemma_try_map_ok, lemma_try_map_step, lemma_views_empty,
    lemma_views_push, res_view, try_map, views,
};
use crate::syntax::{Path, PathView, TypeExpr, TypeExprView};

verus! {

/// What a rewriting of a block knows: the type that the block was written
/// for and the name of its mock.
pub struct MockContext {
    original_type: TypeExpr,
    mocked_extract: Extracted,
}

/// The view of [`MockContext`]: the same, with sequences for strings and vectors.
pub struct MockContextView {
    pub original_type: TypeExprView,
    pub mocked_extract: ExtractedView,
}

/// The context of the blocks written for `ty`: the name of the mock is
/// derived from the name of `ty`, so a type without a name has no context.
pub open spec fn context_of(ty: TypeExprView) -> Result<MockContextView, MockError> {
    match name_of_type(ty) {
        Ok(name) => Ok(MockContextView { original_type: ty, mocked_extract: mock_name(name) }),
        Err(e) => Err(e),
    }
}

impl MockContextView {
    /// The identifier of the original type.
    pub open spec fn original_ident(self) -> Option<Seq<char>> {
        match name_of_type(self.original_type) {
            Ok(name) => Some(name.name),
            Err(_) => None,
        }
    }

    /// The type of the mock, with the generic arguments that the original
    /// type was declared with.
    pub open spec fn mocked_type(self) -> TypeExprView {
        TypeExprView::Named(
            PathView::of_name(self.mocked_extract.name, self.mocked_extract.generics),
        )
    }

    /// Whether a path written in the block names the original type, with
    /// whatever generic arguments.
    pub open spec fn names_original(self, path: PathView) -> bool {
        self.original_type matches TypeExprView::Named(original) && path.same_but_leaf_arguments(
            original,
        )
    }

    /// A parameter as it stands in the rewritten method: where its declared
    /// type names the original type, the last segment of that type is called
    /// like the mock and keeps the generic arguments written there. Any other
    /// parameter is kept as it is.
    pub open spec fn rewrite_arg(self, arg: FnArgView) -> FnArgView {
        match arg {
            FnArgView::Typed { pat, ty: TypeExprView::Named(path) } => if self.names_original(
                path,
            ) {
                FnArgView::Typed {
                    pat,
                    ty: TypeExprView::Named(path.with_leaf_ident(self.mocked_extract.name)),
                }
            } else {
                arg
            },
            _ => arg,
        }
    }

    /// Whether a declared result type is called like the original type.
    pub open spec fn returns_original(self, output: Option<TypeExprView>) -> bool {
        output matches Some(TypeExprView::Named(path)) && path.segments.len() > 0
            && self.original_ident() == Some(path.leaf().ident)
    }

    /// A method as it stands in the rewritten block. Its visibility and name
    /// stay, its parameters are rewritten one by one. Where the declared
    /// result type is called like the original type, the method returns the
    /// mock and builds it with the mock's constructor; with any other result
    /// type it keeps the type and returns its default value; without a result
    /// type its body is empty.
    pub open spec fn rewrite_method(self, method: MethodView) -> MethodView {
        let inputs = Seq::new(method.inputs.len(), |i: int| self.rewrite_arg(method.inputs[i]));
        if self.returns_original(method.output) {
            MethodView {
                vis: method.vis,
                ident: method.ident,
                inputs,
                output: Some(self.mocked_type()),
                body: MethodBodyView::MockNew { name: self.mocked_extract.name },
            }
        } else if method.output is Some {
            MethodView {
                vis: method.vis,
                ident: method.ident,
                inputs,
                output: method.output,
                body: MethodBodyView::DefaultValue,
            }
        } else {
            MethodView {
                vis: method.vis,
                ident: method.ident,
                inputs,
                output: None,
                body: MethodBodyView::Empty,
            }
        }
    }

    /// An associated type as it stands in the rewritten block: where its
    /// value is called like the original type, its value is the mock. A value
    /// that names no type is refused.
    pub open spec fn rewrite_assoc(self, assoc: AssocTypeView) -> Result<AssocTypeView, MockError> {
        match name_of_type(assoc.ty) {
            Err(e) => Err(e),
            Ok(name) => if self.original_ident() == Some(name.name) {
                Ok(AssocTypeView { ident: assoc.ident, ty: self.mocked_type() })
            } else {
                Ok(assoc)
            },
        }
    }

    /// An item as it stands in the rewritten block. Methods are rewritten in
    /// any block. Associated types are rewritten in the implementation of a
    /// capability, where any other item is an unsupported shape; in a plain
    /// block, anything but a method is an impossible one.
    pub open spec fn rewrite_item(self, in_trait: bool, item: ImplItemView) -> Result<
        ImplItemView,
        MockError,
    > {
        match item {
            ImplItemView::Method(m) => Ok(ImplItemView::Method(self.rewrite_method(m))),
            ImplItemView::Type(t) => if in_trait {
                match self.rewrite_assoc(t) {
                    Ok(out) => Ok(ImplItemView::Type(out)),
                    Err(e) => Err(e),
                }
            } else {
                Err(MockError::StructuralImpossibility)
            },
            ImplItemView::Other(_) => if in_trait {
                Err(MockError::UnsupportedShape)
            } else {
                Err(MockError::StructuralImpossibility)
            },
        }
    }

    /// Whether, where `item` is a method whose declared result type is called
    /// like the original type, `out` is a method that returns the mock.
    pub open spec fn returns_mock_for_original(self, item: ImplItemView, out: ImplItemView) -> bool {
        match item {
            ImplItemView::Method(m) => self.returns_original(m.output) ==> match out {
                ImplItemView::Method(rewritten) => rewritten.output == Some(self.mocked_type()),
                _ => false,
            },
            _ => true,
        }
    }

    /// `rewrite_item` as a function on items.
    pub open spec fn rewrite_item_fn(self, in_trait: bool) -> spec_fn(ImplItemView) -> Result<
        ImplItemView,
        MockError,
    > {
        |item: ImplItemView| self.rewrite_item(in_trait, item)
    }

    /// The block as it is attached to the mock. The generic parameters of the
    /// block and the capability that it implements stay as they are written.
    /// The type of the block is the mock of the type that the block names: in
    /// the implementation of a capability under its bare name, in a plain
    /// block with the generic arguments of the original. The items are
    /// rewritten in their order; the first that is refused refuses the block.
    pub open spec fn rewrite(self, block: ItemImplView) -> Result<ItemImplView, MockError> {
        match name_of_type(block.self_ty) {
            Err(e) => Err(e),
            Ok(name) => match try_map(block.items, self.rewrite_item_fn(block.trait_ is Some)) {
                Err(e) => Err(e),
                Ok(items) => Ok(
                    ItemImplView {
                        generics: block.generics,
                        trait_: block.trait_,
                        self_ty: TypeExprView::Named(
                            PathView::of_name(
                                derive_name(name.name),
                                if block.trait_ is Some {
                                    None
                                } else {
                                    name.generics
                                },
                            ),
                        ),
                        items,
                    },
                ),
            },
        }
    }
}

impl View for MockContext {
    type V = MockContextView;

    closed spec fn view(&self) -> MockContextView {
        MockContextView {
            original_type: self.original_type@,
            mocked_extract: self.mocked_extract@,
        }
    }
}

impl MockContext {
    #[verifier::type_invariant]
    spec fn well_formed(self) -> bool {
        context_of(self.original_type@) == Ok::<MockContextView, MockError>(self@)
    }

    /// The context of the blocks written for `original_type`.
    pub fn new(original_type: TypeExpr) -> (r: Result<Self, MockError>)
        ensures
            res_view(r) == context_of(original_type@),
    {
        match original_type.extract_name() {
            Ok(name) => {
                let mocked_extract = prepare_mock_name(&name);
                Ok(Self { original_type, mocked_extract })
            },
            Err(e) => Err(e),
        }
    }

    /// The type that the blocks were written for. Whatever the context, it
    /// is the context of that type.
    pub fn original_type(&self) -> (r: &TypeExpr)
        ensures
            r@ == self@.original_type,
            context_of(r@) == Ok::<MockContextView, MockError>(self@),
    {
        proof {
            use_type_invariant(self);
        }
        &self.original_type
    }

    /// The name of the mock.
    pub fn mocked_extract(&self) -> (r: &Extracted)
        ensures
            r@ == self@.mocked_extract,
    {
        &self.mocked_extract
    }

    /// The type of the mock, with the generic arguments that the original
    /// type was declared with.
    fn mocked_type(&self) -> (r: TypeExpr)
        ensures
            r@ == self@.mocked_type(),
    {
        TypeExpr::Named(
            Path::from_name(self.mocked_extract.name.clone(), self.mocked_extract.generics.clone()),
        )
    }

    /// Whether `ident` is the identifier of the original type.
    fn is_original_ident(&self, ident: &String) -> (r: bool)
        ensures
            r == (self@.original_ident() == Some(ident@)),
    {
        match self.original_type.extract_name() {
            Ok(name) => name.name == *ident,
            Err(_) => false,
        }
    }

    /// One parameter as it stands in the rewritten method.
    fn replace_in_arg(&self, arg: &FnArg) -> (r: FnArg)
        ensures
            r@ == self@.rewrite_arg(arg@),
    {
        match arg {
            FnArg::Typed { pat, ty: TypeExpr::Named(path) } => {
                let found = match &self.original_type {
                    TypeExpr::Named(original) => path.same_but_leaf_arguments(original),
                    _ => false,
                };
                if found {
                    FnArg::Typed {
                        pat: pat.clone(),
                        ty: TypeExpr::Named(path.with_leaf_ident(self.mocked_extract.name.clone())),
                    }
                } else {
                    arg.clone()
                }
            },
            _ => arg.clone(),
        }
    }

    /// The block as it is attached to the mock of its type.
    pub fn mock_impl(&self, tokens: ItemImpl) -> (r: Result<ItemImpl, MockError>)
        ensures
            res_view(r) == self@.rewrite(tokens@),
    {
        let original_name = match tokens.self_ty.extract_name() {
            Ok(name) => name,
            Err(e) => {
                return Err(e);
            },
        };
        let name = mock_ident(&original_name.name);
        let in_trait = tokens.trait_.is_some();
        let ghost all = views(tokens.items@);
        let ghost f = self@.rewrite_item_fn(in_trait);
        let mut items: Vec<ImplItem> = Vec::new();
        let mut i: usize = 0;
        proof {
            lemma_views_empty::<ImplItem>();
            assert(all.take(0) =~= Seq::empty());
        }
        while i < tokens.items.len()
            invariant
                i <= tokens.items.len(),
                all == views(tokens.items@),
                f == self@.rewrite_item_fn(in_trait),
                in_trait == (tokens@.trait_ is Some),
                name_of_type(tokens.self_ty@) is Ok,
                try_map(all.take(i as int), f) == Ok::<Seq<ImplItemView>, MockError>(views(items@)),
            decreases tokens.items.len() - i,
        {
            proof {
                lemma_try_map_step(all, f, i as int);
            }
            let item = match &tokens.items[i] {
                ImplItem::Method(m) => Ok(self.replace_self_from_function_with_mocks(m)),
                ImplItem::Type(t) => if in_trait {
                    let mut ty = AssocType { ident: t.ident.clone(), ty: t.ty.clone() };
                    match self.replace_mocks_in_associated_types(&mut ty) {
                        Ok(()) => Ok(ImplItem::Type(ty)),
                        Err(e) => Err(e),
                    }
                } else {
                    Err(MockError::StructuralImpossibility)
                },
                ImplItem::Other(_) => if in_trait {
                    Err(MockError::UnsupportedShape)
                } else {
                    Err(MockError::StructuralImpossibility)
                },
            };
            match item {
                Ok(item) => {
                    proof {
                        lemma_views_push(items@, item);
                    }
                    items.push(item);
                },
                Err(e) => {
                    proof {
                        lemma_try_map_fails(all, f, i + 1);
                    }
                    return Err(e);
                },
            }
            i += 1;
        }
        proof {
            assert(all.take(tokens.items.len() as int) =~= all);
        }
        let generics = if in_trait {
            None
        } else {
            original_name.generics
        };
        Ok(
            ItemImpl {
                generics: tokens.generics,
                trait_: tokens.trait_,
                self_ty: TypeExpr::Named(Path::from_name(name, generics)),
                items,
            },
        )
    }

    /// The method as it stands in the rewritten block.
    pub fn replace_self_from_function_with_mocks(&self, f: &Method) -> (r: ImplItem)
        ensures
            r@ == ImplItemView::Method(self@.rewrite_method(f@)),
    {
        let mut inputs: Vec<FnArg> = Vec::new();
        let mut i: usize = 0;
        while i < f.inputs.len()
            invariant
                i <= f.inputs.len(),
                inputs@.len() == i,
                forall|j: int| 0 <= j < i ==> inputs@[j]@ == self@.rewrite_arg(f.inputs@[j]@),
            decreases f.inputs.len() - i,
        {
            inputs.push(self.replace_in_arg(&f.inputs[i]));
            i += 1;
        }
        assert(views(inputs@) =~= self@.rewrite_method(f@).inputs);
        let returns_original = match &f.output {
            Some(TypeExpr::Named(path)) => {
                let n = path.segments.len();
                if n > 0 {
                    assert(path@.leaf() == path.segments@[n - 1]@);
                    self.is_original_ident(&path.segments[n - 1].ident)
                } else {
                    false
                }
            },
            _ => false,
        };
        let method = if returns_original {
            Method {
                vis: f.vis.clone(),
                ident: f.ident.clone(),
                inputs,
                output: Some(self.mocked_type()),
                body: MethodBody::MockNew { name: self.mocked_extract.name.clone() },
            }
        } else if f.output.is_some() {
            Method {
                vis: f.vis.clone(),
                ident: f.ident.clone(),
                inputs,
                output: f.output.clone(),
                body: MethodBody::DefaultValue,
            }
        } else {
            Method {
                vis: f.vis.clone(),
                ident: f.ident.clone(),
                inputs,
                output: None,
                body: MethodBody::Empty,
            }
        };
        ImplItem::Method(method)
    }

    /// Gives an associated type the mock as its value where its value is
    /// called like the original type. Where the value names no type, nothing
    /// is changed and the declaration is refused.
    pub fn replace_mocks_in_associated_types(&self, associated_type: &mut AssocType) -> (r: Result<
        (),
        MockError,
    >)
        ensures
            match self@.rewrite_assoc(old(associated_type)@) {
                Ok(out) => r is Ok && final(associated_type)@ == out,
                Err(e) => r == Err::<(), MockError>(e) && final(associated_type)@ == old(
                    associated_type,
                )@,
            },
    {
        match associated_type.ty.extract_name() {
            Err(e) => Err(e),
            Ok(name) => {
                if self.is_original_ident(&name.name) {
                    associated_type.ty = self.mocked_type();
                }
                Ok(())
            },
        }
    }
}

/// The rewritten implementation of a capability implements the same
/// capability, written with the same generic arguments, for the mock of the
/// type that the block names; and every method whose declared result type is
/// called like the original type returns the mock.
pub proof fn lemma_rewrite_keeps_capability(context: MockContextView, block: ItemImplView)
    requires
        block.trait_ is Some,
        context.rewrite(block) is Ok,
    ensures
        ({
            let out = context.rewrite(block)->Ok_0;
            &&& out.trait_ == block.trait_
            &&& out.generics == block.generics
            &&& name_of_type(block.self_ty) matches Ok(name)
            &&& out.self_ty == TypeExprView::Named(PathView::of_ident(derive_name(name.name)))
            &&& out.items.len() == block.items.len()
            &&& forall|i: int|
                0 <= i < block.items.len() ==> context.returns_mock_for_original(
                    #[trigger] block.items[i],
                    out.items[i],
                )
        }),
{
    lemma_try_map_ok(block.items, context.rewrite_item_fn(true));
    let out = context.rewrite(block)->Ok_0;
    assert forall|i: int| 0 <= i < block.items.len() implies context.returns_mock_for_original(
        #[trigger] block.items[i],
        out.items[i],
    ) by {
        assert(context.rewrite_item_fn(true)(block.items[i]) == Ok::<ImplItemView, MockError>(
            out.items[i],
        ));
    }
}

/// A parameter whose declared type names the original type, with whatever
/// generic arguments, gets the type of the same path whose last segment is
/// called like the mock and keeps its generic arguments; a parameter of any
/// other type stays as it is.
pub proof fn lemma_rewrite_of_parameter(context: MockContextView, arg: FnArgView)
    ensures
        match arg {
            FnArgView::Typed { pat, ty: TypeExprView::Named(path) } => if context.names_original(
                path,
            ) {
                &&& context.rewrite_arg(arg) matches FnArgView::Typed {
                    pat: kept,
                    ty: TypeExprView::Named(mocked),
                }
                &&& kept == pat
                &&& mocked.leading_colon == path.leading_colon
                &&& mocked.segments.len() == path.segments.len()
                &&& forall|i: int|
                    0 <= i < path.segments.len() - 1 ==> mocked.segments[i] == path.segments[i]
                &&& mocked.leaf().ident == context.mocked_extract.name
                &&& mocked.leaf().arguments == path.leaf().arguments
            } else {
                context.rewrite_arg(arg) == arg
            },
            _ => context.rewrite_arg(arg) == arg,
        },
{
}

/// In the rewritten plain block every item is a method, with the parameters
/// of the method that stood there, each rewritten on its own.
pub proof fn lemma_rewrite_of_plain_block(context: MockContextView, block: ItemImplView)
    requires
        block.trait_ is None,
        context.rewrite(block) is Ok,
    ensures
        ({
            let out = context.rewrite(block)->Ok_0;
            &&& out.trait_ is None
            &&& out.items.len() == block.items.len()
            &&& forall|i: int|
                0 <= i < block.items.len() ==> {
                    &&& #[trigger] block.items[i] matches ImplItemView::Method(m)
                    &&& out.items[i] matches ImplItemView::Method(rewritten)
                    &&& rewritten.inputs.len() == m.inputs.len()
                    &&& forall|j: int|
                        0 <= j < m.inputs.len() ==> rewritten.inputs[j] == context.rewrite_arg(
                            m.inputs[j],
                        )
                }
        }),
{
    lemma_try_map_ok(block.items, context.rewrite_item_fn(false));
    let out = context.rewrite(block)->Ok_0;
    assert forall|i: int| 0 <= i < block.items.len() implies {
        &&& #[trigger] block.items[i] matches ImplItemView::Method(m)
        &&& out.items[i] matches ImplItemView::Method(rewritten)
        &&& rewritten.inputs.len() == m.inputs.len()
        &&& forall|j: int|
            0 <= j < m.inputs.len() ==> rewritten.inputs[j] == context.rewrite_arg(m.inputs[j])
    } by {
        assert(context.rewrite_item_fn(false)(block.items[i]) == Ok::<ImplItemView, MockError>(
            out.items[i],
        ));
    }
}

} // verus!
