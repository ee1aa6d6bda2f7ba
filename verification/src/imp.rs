//! The registration expansion site.
//!
//! Registering a concrete implementation against a declared trait first
//! validates that the impl is fully concrete — it implements a trait, and
//! has neither generic parameters nor a where clause, since nothing can be
//! monomorphized once compiled — then emits the compile-time size assertion
//! and invokes the trait's published binder, which materializes the
//! export-side thunks under the exported names the declaration site already
//! committed to.

use vstd::prelude::*;

use crate::decl::{DeclOutput, MethodExpansion, CapabilityImpl, ProxyMethod};
use crate::error::Error;
use crate::sig::{BoundarySig, sig_error, boundary_matches, rewrite_signature};
use crate::ty::{
    Type, TypeView, Segment, clone_type, clone_segments, views_of_segments,
};

verus! {

/// The impl block handed to the registration attribute: the path of the
/// trait it implements — absent for an inherent impl, which is rejected —
/// whether it has generic parameters or a where clause, and the concrete
/// implementing type.
#[derive(Debug, PartialEq, Eq)]
pub struct ImplBlock {
    pub trait_path: Option<Vec<Segment>>,
    pub has_generics: bool,
    pub has_where_clause: bool,
    pub self_ty: Type,
}

/// What the registration site emits around the impl: the compile-time
/// assertion that the concrete type fits the proxy's two words, and the
/// invocation of the trait's published binder with the concrete type.
#[derive(Debug, PartialEq, Eq)]
pub struct RegOutput {
    pub size_check: Type,
    pub binder_path: Vec<Segment>,
    pub binder_self_ty: Type,
}

/// One export-side thunk the binder materializes: the exported name fixed
/// at declaration time, the method it forwards to, the capability impl it
/// forwards through if any, and the boundary signature rewritten against
/// the concrete type.
#[derive(Debug, PartialEq, Eq)]
pub struct ExportThunk {
    pub export_name: String,
    pub method_ident: String,
    pub via_as_ref: Option<Type>,
    pub boundary: BoundarySig,
}

/// Everything the binder materializes at one registration: the export-side
/// thunks, and the exported drop thunk that destroys the real value in
/// place.
#[derive(Debug, PartialEq, Eq)]
pub struct BinderExpansion {
    pub thunks: Vec<ExportThunk>,
    pub drop_export: String,
}

/// The registration expansion for one impl block.
pub fn expand(input: &ImplBlock) -> (r: Result<RegOutput, Error>)
    ensures
        match r {
            Result::Ok(out) => {
                &&& input.trait_path matches Option::Some(tp) && views_of_segments(
                    out.binder_path@,
                ) == views_of_segments(tp@)
                &&& !input.has_generics
                &&& !input.has_where_clause
                &&& out.size_check@ == input.self_ty@
                &&& out.binder_self_ty@ == input.self_ty@
            },
            Result::Err(e) => if input.trait_path is None {
                e == Error::NotATraitImpl
            } else if input.has_generics {
                e == Error::ImplGenerics
            } else {
                input.has_where_clause && e == Error::ImplWhereClause
            },
        },
{
    let tp = match &input.trait_path {
        Option::Some(tp) => tp,
        Option::None => {
            return Result::Err(Error::NotATraitImpl);
        },
    };
    if input.has_generics {
        return Result::Err(Error::ImplGenerics);
    }
    if input.has_where_clause {
        return Result::Err(Error::ImplWhereClause);
    }
    Result::Ok(
        RegOutput {
            size_check: clone_type(&input.self_ty),
            binder_path: clone_segments(tp),
            binder_self_ty: clone_type(&input.self_ty),
        },
    )
}

/// The size contract the emitted assertion checks: the implementing type
/// must fit the proxy's two words — `size <= 2 * word` — so that moves,
/// returns by value and drops in place are bit-identical on both sides of
/// the boundary.  A type exactly at the boundary passes.
pub fn size_fits(size: usize, word: usize) -> (r: bool)
    ensures
        r == (size <= 2 * (word as int)),
{
    (size as u128) <= 2 * (word as u128)
}

/// The diagnostic of a failed size assertion, naming the offending type.
pub fn size_error_message(ty_name: &String) -> (r: String)
    ensures
        r@ == ty_name@ + " is too large to be used with #[extern_trait]"@,
{
    let mut out = ty_name.clone();
    out.append(" is too large to be used with #[extern_trait]");
    out
}

/// The proxy methods among a declaration's expanded items, in order.
pub open spec fn successful_methods(ms: Seq<MethodExpansion>) -> Seq<ProxyMethod>
    decreases ms,
{
    if ms.len() == 0 {
        Seq::empty()
    } else {
        successful_methods(ms.drop_last()) + match ms.last() {
            MethodExpansion::Proxy(pm) => seq![pm],
            MethodExpansion::Fail(_) => Seq::empty(),
        }
    }
}

/// The reference-conversion pairs among a declaration's capabilities, in
/// order.
pub open spec fn as_ref_pairs(cs: Seq<CapabilityImpl>) -> Seq<(Type, ProxyMethod)>
    decreases cs,
{
    if cs.len() == 0 {
        Seq::empty()
    } else {
        as_ref_pairs(cs.drop_last()) + match cs.last() {
            CapabilityImpl::AsRefImpl(t, pm) => seq![(t, pm)],
            _ => Seq::empty(),
        }
    }
}

/// What a correct export thunk for one proxy method looks like: the same
/// exported name, the same method, the same route, and the boundary
/// signature rewritten against the concrete type instead of the proxy.
pub open spec fn thunk_ok(
    th: ExportThunk,
    pm: ProxyMethod,
    via: Option<Type>,
    concrete: TypeView,
) -> bool {
    &&& th.export_name@ == pm.export_name@
    &&& th.method_ident@ == pm.proxy_sig@.ident
    &&& (match (th.via_as_ref, via) {
        (Option::None, Option::None) => true,
        (Option::Some(a), Option::Some(b)) => a@ == b@,
        _ => false,
    })
    &&& boundary_matches(th.boundary@, pm.proxy_sig@, concrete)
}

/// Whether every proxy method a declaration emitted can be rewritten — what
/// the declaration site guarantees of its own output.
pub open spec fn binder_wf(decl: DeclOutput) -> bool {
    &&& forall|i: int|
        0 <= i < decl.methods@.len() ==> match #[trigger] decl.methods@[i] {
            MethodExpansion::Proxy(pm) => sig_error(pm.proxy_sig@) is None,
            MethodExpansion::Fail(_) => true,
        }
    &&& forall|i: int|
        0 <= i < decl.capabilities@.len() ==> match #[trigger] decl.capabilities@[i] {
            CapabilityImpl::AsRefImpl(t, pm) => sig_error(pm.proxy_sig@) is None,
            _ => true,
        }
}

proof fn lemma_successful_methods_step(ms: Seq<MethodExpansion>, i: int)
    requires
        0 <= i < ms.len(),
    ensures
        successful_methods(ms.take(i + 1)) == successful_methods(ms.take(i)) + match ms[i] {
            MethodExpansion::Proxy(pm) => seq![pm],
            MethodExpansion::Fail(_) => Seq::<ProxyMethod>::empty(),
        },
{
    let pre = ms.take(i + 1);
    assert(pre.drop_last() =~= ms.take(i));
    assert(pre.last() == ms[i]);
}

proof fn lemma_as_ref_pairs_step(cs: Seq<CapabilityImpl>, i: int)
    requires
        0 <= i < cs.len(),
    ensures
        as_ref_pairs(cs.take(i + 1)) == as_ref_pairs(cs.take(i)) + match cs[i] {
            CapabilityImpl::AsRefImpl(t, pm) => seq![(t, pm)],
            _ => Seq::<(Type, ProxyMethod)>::empty(),
        },
{
    let pre = cs.take(i + 1);
    assert(pre.drop_last() =~= cs.take(i));
    assert(pre.last() == cs[i]);
}

/// The binder's expansion at one registration: one export thunk per proxy
/// method of the declaration — the trait's methods first, then the
/// reference conversions — each under the exported name fixed at
/// declaration time, with its boundary signature rewritten against the
/// concrete type; and the exported drop thunk under the declaration's drop
/// symbol.  Both sites run this same logic, which is how they agree without
/// communicating.
#[verifier::loop_isolation(false)]
pub fn instantiate_binder(decl: &DeclOutput, concrete: &Type) -> (r: BinderExpansion)
    requires
        binder_wf(*decl),
    ensures
        r.drop_export@ == decl.drop_symbol@,
        r.thunks@.len() == successful_methods(decl.methods@).len() + as_ref_pairs(
            decl.capabilities@,
        ).len(),
        forall|i: int|
            0 <= i < successful_methods(decl.methods@).len() ==> thunk_ok(
                #[trigger] r.thunks@[i],
                successful_methods(decl.methods@)[i],
                Option::None,
                concrete@,
            ),
        forall|i: int|
            0 <= i < as_ref_pairs(decl.capabilities@).len() ==> thunk_ok(
                #[trigger] r.thunks@[successful_methods(decl.methods@).len() + i],
                as_ref_pairs(decl.capabilities@)[i].1,
                Option::Some(as_ref_pairs(decl.capabilities@)[i].0),
                concrete@,
            ),
{
    let mut thunks: Vec<ExportThunk> = Vec::new();
    let mut i: usize = 0;
    while i < decl.methods.len()
        invariant
            0 <= i <= decl.methods@.len(),
            thunks@.len() == successful_methods(decl.methods@.take(i as int)).len(),
            forall|j: int|
                0 <= j < thunks@.len() ==> thunk_ok(
                    #[trigger] thunks@[j],
                    successful_methods(decl.methods@.take(i as int))[j],
                    Option::None,
                    concrete@,
                ),
        decreases decl.methods@.len() - i,
    {
        proof {
            lemma_successful_methods_step(decl.methods@, i as int);
        }
        match &decl.methods[i] {
            MethodExpansion::Proxy(pm) => {
                let boundary = match rewrite_signature(&pm.proxy_sig, concrete) {
                    Result::Ok(b) => b,
                    Result::Err(_) => {
                        proof {
                            assert(false);
                        }
                        BoundarySig { inputs: Vec::new(), output: Option::None }
                    },
                };
                thunks.push(
                    ExportThunk {
                        export_name: pm.export_name.clone(),
                        method_ident: pm.proxy_sig.ident.clone(),
                        via_as_ref: Option::None,
                        boundary,
                    },
                );
            },
            MethodExpansion::Fail(_) => {
            },
        }
        i += 1;
    }
    proof {
        assert(decl.methods@.take(decl.methods@.len() as int) =~= decl.methods@);
    }
    let ghost base = thunks@.len() as int;
    let mut k: usize = 0;
    while k < decl.capabilities.len()
        invariant
            0 <= k <= decl.capabilities@.len(),
            thunks@.len() == base + as_ref_pairs(decl.capabilities@.take(k as int)).len(),
            forall|j: int|
                0 <= j < base ==> thunk_ok(
                    #[trigger] thunks@[j],
                    successful_methods(decl.methods@)[j],
                    Option::None,
                    concrete@,
                ),
            forall|j: int|
                0 <= j < thunks@.len() - base ==> thunk_ok(
                    #[trigger] thunks@[base + j],
                    as_ref_pairs(decl.capabilities@.take(k as int))[j].1,
                    Option::Some(as_ref_pairs(decl.capabilities@.take(k as int))[j].0),
                    concrete@,
                ),
        decreases decl.capabilities@.len() - k,
    {
        proof {
            lemma_as_ref_pairs_step(decl.capabilities@, k as int);
        }
        match &decl.capabilities[k] {
            CapabilityImpl::AsRefImpl(t, pm) => {
                let boundary = match rewrite_signature(&pm.proxy_sig, concrete) {
                    Result::Ok(b) => b,
                    Result::Err(_) => {
                        proof {
                            assert(false);
                        }
                        BoundarySig { inputs: Vec::new(), output: Option::None }
                    },
                };
                thunks.push(
                    ExportThunk {
                        export_name: pm.export_name.clone(),
                        method_ident: pm.proxy_sig.ident.clone(),
                        via_as_ref: Option::Some(clone_type(t)),
                        boundary,
                    },
                );
            },
            CapabilityImpl::SendMarker => {
            },
            CapabilityImpl::SyncMarker => {
            },
        }
        k += 1;
    }
    proof {
        assert(decl.capabilities@.take(decl.capabilities@.len() as int) =~= decl.capabilities@);
    }
    BinderExpansion { thunks, drop_export: decl.drop_symbol.clone() }
}

} // verus!
