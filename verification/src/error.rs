use vstd::prelude::*;

verus! {

/// Why a rewriting stopped. Every failure ends the whole rewriting: there is
/// no partial result.
#[derive(Clone, Copy, Debug, PartialEq, Eq, Structural)]
pub enum MockError {
    /// The type expression, or the declaration, has a shape that the resolver
    /// does not mock: function types, macro types, the never type, raw
    /// pointers, tuples, associated-type paths, constant generic parameters.
    UnsupportedShape,
    /// A directive is present but does not carry its value in the expected
    /// form.
    MalformedDirective,
    /// The syntax breaks an invariant that the host grammar guarantees, such
    /// as a path without segments.
    StructuralImpossibility,
}

} // verus!
