//! The errors the two expansion sites can report.
//!
//! Structural errors abort a whole expansion; the per-method errors are
//! recorded at the offending method so that the rest of the trait still
//! expands.

use vstd::prelude::*;

verus! {

/// Everything that can go wrong while expanding a declaration or a
/// registration.
#[derive(Clone, Copy, Debug, PartialEq, Eq)]
pub enum Error {
    /// The trait has generic parameters; no monomorphization can cross the
    /// boundary.
    TraitGenerics,
    /// The trait is not marked unsafe, although crossing the boundary
    /// bypasses the type system.
    TraitNotUnsafe,
    /// A trait item is not a method.
    NotAMethod,
    /// A return type mentions `Self` in a shape the rewriter cannot
    /// classify.
    TooComplexReturn,
    /// A parameter type mentions `Self` in a shape the rewriter cannot
    /// classify.
    TooComplexArg,
    /// A parameter takes `Self` by value; its move semantics cannot be
    /// encoded as an opaque bit pattern.
    SelfByValueArg,
    /// The registration attribute sits on an impl that implements no trait.
    NotATraitImpl,
    /// The registered impl has generic parameters.
    ImplGenerics,
    /// The registered impl has a where clause.
    ImplWhereClause,
    /// The declaration site was handed something other than a trait.
    ExpectedTrait,
    /// The registration site was handed something other than an impl block.
    ExpectedImpl,
}

/// The diagnostic text of an error.
pub open spec fn message_of(e: Error) -> Seq<char> {
    match e {
        Error::TraitGenerics => "#[extern_trait] may not have generics"@,
        Error::TraitNotUnsafe => "#[extern_trait] must be unsafe"@,
        Error::NotAMethod => "#[extern_trait] may only contain methods"@,
        Error::TooComplexReturn => "Too complex return type for #[extern_trait]"@,
        Error::TooComplexArg => "Too complex argument type for #[extern_trait]"@,
        Error::SelfByValueArg => "Passing `Self` by value is not supported for #[extern_trait] yet"@,
        Error::NotATraitImpl => "expected a trait impl"@,
        Error::ImplGenerics => "#[extern_trait] impls may not have generics"@,
        Error::ImplWhereClause => "#[extern_trait] impls may not have a where clause"@,
        Error::ExpectedTrait => "expected an unsafe trait"@,
        Error::ExpectedImpl => "expected a trait impl block"@,
    }
}

impl Error {
    /// The diagnostic text to report at the offending span.
    pub fn message(&self) -> (r: String)
        ensures
            r@ == message_of(*self),
    {
        match self {
            Error::TraitGenerics => String::from_str("#[extern_trait] may not have generics"),
            Error::TraitNotUnsafe => String::from_str("#[extern_trait] must be unsafe"),
            Error::NotAMethod => String::from_str("#[extern_trait] may only contain methods"),
            Error::TooComplexReturn => String::from_str(
                "Too complex return type for #[extern_trait]",
            ),
            Error::TooComplexArg => String::from_str(
                "Too complex argument type for #[extern_trait]",
            ),
            Error::SelfByValueArg => String::from_str(
                "Passing `Self` by value is not supported for #[extern_trait] yet",
            ),
            Error::NotATraitImpl => String::from_str("expected a trait impl"),
            Error::ImplGenerics => String::from_str("#[extern_trait] impls may not have generics"),
            Error::ImplWhereClause => String::from_str(
                "#[extern_trait] impls may not have a where clause",
            ),
            Error::ExpectedTrait => String::from_str("expected an unsafe trait"),
            Error::ExpectedImpl => String::from_str("expected a trait impl block"),
        }
    }
}

} // verus!
