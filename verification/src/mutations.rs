//! Putting a resolved type into a field.

use vstd::prelude::*;

use crate::decl::{Field, FieldView};
use crate::error::MockError;
use crate::extract::{MockPrepared, MockPreparedView};
use crate::syntax::{Path, PathView, TypeExpr, TypeExprView};

verus! {

/// The path of a type that is written as a path, qualified or not.
pub open spec fn path_of(ty: TypeExprView) -> Option<PathView> {
    match ty {
        TypeExprView::Named(path) => Some(path),
        TypeExprView::AssociatedPath { path, .. } => Some(path),
        _ => None,
    }
}

/// The type of a field once the mock has been put into it: where both the
/// type and the mock are written as paths, the path of the mock behind
/// whatever type qualified the path of the field; the type as it was
/// otherwise.
pub open spec fn mutated_type(ty: TypeExprView, mocked: TypeExprView) -> TypeExprView {
    match path_of(mocked) {
        Some(path) => match ty {
            TypeExprView::Named(_) => TypeExprView::Named(path),
            TypeExprView::AssociatedPath { qualifier, position, .. } => TypeExprView::AssociatedPath {
                qualifier,
                position,
                path,
            },
            _ => ty,
        },
        None => ty,
    }
}

/// The field once the mock has been put into it. Only its type changes. A
/// field without a name is not supported.
pub open spec fn mutated(field: FieldView, new: MockPreparedView) -> Result<FieldView, MockError> {
    if field.ident is Some {
        Ok(
            FieldView {
                attrs: field.attrs,
                vis: field.vis,
                ident: field.ident,
                ty: mutated_type(field.ty, new.mocked_type),
            },
        )
    } else {
        Err(MockError::UnsupportedShape)
    }
}

/// Puts a resolved type into a named field. Where the field is refused,
/// nothing is changed.
pub fn mutate(tokens: &mut Field, new: MockPrepared) -> (r: Result<(), MockError>)
    ensures
        match mutated(old(tokens)@, new@) {
            Ok(field) => r is Ok && final(tokens)@ == field,
            Err(e) => r == Err::<(), MockError>(e) && final(tokens)@ == old(tokens)@,
        },
{
    if tokens.ident.is_none() {
        return Err(MockError::UnsupportedShape);
    }
    let path: Path = match new.mocked_type {
        TypeExpr::Named(path) => path,
        TypeExpr::AssociatedPath { qualifier: _, position: _, path } => path,
        _ => {
            return Ok(());
        },
    };
    let ty = match &tokens.ty {
        TypeExpr::Named(_) => TypeExpr::Named(path),
        TypeExpr::AssociatedPath { qualifier, position, path: _ } => TypeExpr::AssociatedPath {
            qualifier: Box::new((&**qualifier).clone()),
            position: *position,
            path,
        },
        _ => {
            return Ok(());
        },
    };
    tokens.ty = ty;
    Ok(())
}

} // verus!
