//! Generation engine for ABI-stable trait dispatch across a compiled boundary.
//!
//! The crate models the two expansion sites of the `extern_trait` attribute:
//! declaring a trait together with its opaque two-word proxy type, and
//! registering a concrete implementation against that pair.  Everything the
//! engine decides — how `Self` occurs in a signature, how each position is
//! rewritten for the boundary, which exported symbol every thunk lives under —
//! is computed here over a small type-expression model and carries a proved
//! contract.

pub mod args;
pub mod decl;
pub mod error;
pub mod imp;
pub mod laws;
pub mod sig;
pub mod symbol;
pub mod ty;

use vstd::prelude::*;

use crate::args::Proxy;
use crate::decl::{TraitDecl, DeclOutput, decl_ok, first_cap_error};
use crate::error::Error;
use crate::imp::{ImplBlock, RegOutput};
use crate::symbol::PkgId;
use crate::ty::views_of_segments;

verus! {

/// What one invocation of the attribute is applied to: a trait declaration
/// or a trait-implementation block.
#[derive(Debug, PartialEq, Eq)]
pub enum MacroInput {
    Trait(TraitDecl),
    Impl(ImplBlock),
}

/// What one invocation of the attribute expands to.
#[derive(Debug, PartialEq, Eq)]
pub enum Expansion {
    Decl(DeclOutput),
    Reg(RegOutput),
}

/// The attribute's entry point.  An argument — the proxy name — selects
/// declare mode, which expects a trait; no argument selects registration
/// mode, which expects a trait-implementation block.
pub fn extern_trait(args: Option<Proxy>, input: MacroInput, pkg: &PkgId) -> (r: Result<
    Expansion,
    Error,
>)
    ensures
        match args {
            Option::Some(proxy) => match input {
                MacroInput::Trait(td) => match r {
                    Result::Ok(x) => {
                        &&& !td.has_generics
                        &&& td.is_unsafe
                        &&& first_cap_error(td.supertraits@) is None
                        &&& x matches Expansion::Decl(out) && decl_ok(out, proxy, td, pkg@)
                    },
                    Result::Err(e) => if td.has_generics {
                        e == Error::TraitGenerics
                    } else if !td.is_unsafe {
                        e == Error::TraitNotUnsafe
                    } else {
                        first_cap_error(td.supertraits@) == Option::Some(e)
                    },
                },
                MacroInput::Impl(_) => r == Result::<Expansion, Error>::Err(Error::ExpectedTrait),
            },
            Option::None => match input {
                MacroInput::Impl(ib) => match r {
                    Result::Ok(x) => {
                        &&& ib.trait_path is Some
                        &&& !ib.has_generics
                        &&& !ib.has_where_clause
                        &&& x matches Expansion::Reg(out) && {
                            &&& ib.trait_path matches Option::Some(tp) && views_of_segments(
                                out.binder_path@,
                            ) == views_of_segments(tp@)
                            &&& out.size_check@ == ib.self_ty@
                            &&& out.binder_self_ty@ == ib.self_ty@
                        }
                    },
                    Result::Err(e) => if ib.trait_path is None {
                        e == Error::NotATraitImpl
                    } else if ib.has_generics {
                        e == Error::ImplGenerics
                    } else {
                        ib.has_where_clause && e == Error::ImplWhereClause
                    },
                },
                MacroInput::Trait(_) => r == Result::<Expansion, Error>::Err(Error::ExpectedImpl),
            },
        },
{
    match args {
        Option::Some(proxy) => match input {
            MacroInput::Trait(td) => match decl::expand(proxy, &td, pkg) {
                Result::Ok(out) => Result::Ok(Expansion::Decl(out)),
                Result::Err(e) => Result::Err(e),
            },
            MacroInput::Impl(_) => Result::Err(Error::ExpectedTrait),
        },
        Option::None => match input {
            MacroInput::Impl(ib) => match imp::expand(&ib) {
                Result::Ok(out) => Result::Ok(Expansion::Reg(out)),
                Result::Err(e) => Result::Err(e),
            },
            MacroInput::Trait(_) => Result::Err(Error::ExpectedImpl),
        },
    }
}

} // verus!
