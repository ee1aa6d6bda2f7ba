//! The engine's cross-cutting guarantees, stated once over the
//! specification functions that the expansion contracts use.

use vstd::prelude::*;

use crate::args::Proxy;
use crate::decl::{
    TraitDecl, DeclOutput, CapabilityImpl, CapShape, Supertrait, MethodExpansion, cap_shape,
    cap_shapes, shape_contribution, expected_cap_shapes, decl_ok, cap_ok, expansion_ok,
    is_send_bound, is_sync_bound, as_ref_bound_target, ident_path_view, as_ref_sig_view,
    as_ref_sig_error, first_cap_error, TraitMember,
};
use crate::imp::binder_wf;
use crate::error::Error;
use crate::sig::{
    SignatureView, BoundarySigView, sig_error, param_error, return_error, rewritten_ty,
    boundary_matches, lemma_first_param_error_at, lemma_first_param_error_none,
};
use crate::symbol::{PkgIdView, symbol_prefix_view, as_ref_symbol_view};
use crate::ty::{Type, TypeView, SelfKind, has_self, kind_of, is_self_view, segment_has_self,
    any_segment_has_self};

verus! {

/// The bare `Self` path is classified as an owned value, and it does
/// mention `Self`.
pub proof fn lemma_self_view_classified(t: TypeView)
    requires
        is_self_view(t),
    ensures
        has_self(t),
        kind_of(t) == Option::Some(SelfKind::Value),
{
    match t {
        TypeView::Path(q, segs) => {
            assert(segment_has_self(segs[0]));
            assert(any_segment_has_self(segs));
            assert(has_self(t));
        },
        _ => {},
    }
}

/// A method signature in which `Self` does not occur anywhere is accepted,
/// and its boundary signature is identical to the original, whatever the
/// replacement target.
pub proof fn lemma_no_self_signature_unchanged(
    s: SignatureView,
    b: BoundarySigView,
    target: TypeView,
)
    requires
        forall|i: int| 0 <= i < s.inputs.len() ==> !has_self(#[trigger] s.inputs[i].ty),
        match s.output {
            Option::Some(t) => !has_self(t),
            Option::None => true,
        },
        boundary_matches(b, s, target),
    ensures
        sig_error(s) is None,
        b.inputs.len() == s.inputs.len(),
        forall|i: int| 0 <= i < s.inputs.len() ==> b.inputs[i] == #[trigger] s.inputs[i].ty,
        b.output == s.output,
{
    assert forall|i: int| 0 <= i < s.inputs.len() implies param_error(
        #[trigger] s.inputs[i].ty,
    ) is None by {}
    lemma_first_param_error_none(s.inputs);
}

/// Classifying a `&self` or `&mut self` receiver and rewriting it for the
/// boundary keeps the receiver's mutability: the boundary parameter is a
/// reference to the target with exactly the original mutability, and the
/// proxy-side signature keeps the original receiver unchanged by
/// construction.
pub proof fn lemma_receiver_mutability_round_trip(m: bool, target: TypeView)
    ensures
        kind_of(TypeView::Reference(m, Box::new(ident_path_view("Self"@)))) == Option::Some(
            SelfKind::Ref(m),
        ),
        rewritten_ty(TypeView::Reference(m, Box::new(ident_path_view("Self"@))), target)
            == TypeView::Reference(m, Box::new(target)),
{
    let st = ident_path_view("Self"@);
    assert(is_self_view(st));
    lemma_self_view_classified(st);
    let rt = TypeView::Reference(m, Box::new(st));
    assert(has_self(rt));
}

/// A method whose first rejected position is a parameter taking `Self` by
/// value — the receiver included — fails expansion with exactly the
/// not-supported diagnostic; no boundary signature is produced for it.
pub proof fn lemma_self_by_value_param_rejected(s: SignatureView, i: int)
    requires
        0 <= i < s.inputs.len(),
        return_error(s.output) is None,
        forall|j: int| 0 <= j < i ==> param_error(#[trigger] s.inputs[j].ty) is None,
        kind_of(s.inputs[i].ty) == Option::Some(SelfKind::Value),
    ensures
        sig_error(s) == Option::Some(Error::SelfByValueArg),
{
    let t = s.inputs[i].ty;
    assert(is_self_view(t));
    lemma_self_view_classified(t);
    assert(param_error(t) == Option::Some(Error::SelfByValueArg));
    lemma_first_param_error_at(s.inputs, i);
}

proof fn lemma_cap_shapes_len(cs: Seq<CapabilityImpl>)
    ensures
        cap_shapes(cs).len() == cs.len(),
    decreases cs,
{
    if cs.len() > 0 {
        lemma_cap_shapes_len(cs.drop_last());
    }
}

proof fn lemma_cap_shapes_index(cs: Seq<CapabilityImpl>, j: int)
    requires
        0 <= j < cs.len(),
    ensures
        cap_shapes(cs)[j] == cap_shape(cs[j]),
    decreases cs,
{
    lemma_cap_shapes_len(cs);
    lemma_cap_shapes_len(cs.drop_last());
    if j < cs.len() - 1 {
        lemma_cap_shapes_index(cs.drop_last(), j);
        assert(cs.drop_last()[j] == cs[j]);
    } else {
        assert(cs.last() == cs[j]);
    }
}

proof fn lemma_expected_shape_at(ss: Seq<Supertrait>, i: int, sh: CapShape)
    requires
        0 <= i < ss.len(),
        shape_contribution(ss[i]) == seq![sh],
    ensures
        exists|j: int|
            0 <= j < expected_cap_shapes(ss).len() && expected_cap_shapes(ss)[j] == sh,
    decreases ss,
{
    if i == ss.len() - 1 {
        assert(ss.last() == ss[i]);
        let pre = expected_cap_shapes(ss.drop_last());
        assert(expected_cap_shapes(ss)[pre.len() as int] == sh);
    } else {
        assert(ss.drop_last()[i] == ss[i]);
        lemma_expected_shape_at(ss.drop_last(), i, sh);
        let j = choose|j: int|
            0 <= j < expected_cap_shapes(ss.drop_last()).len() && expected_cap_shapes(
                ss.drop_last(),
            )[j] == sh;
        assert(expected_cap_shapes(ss)[j] == sh);
    }
}

/// A capability whose shape a supertrait bound contributes is present in
/// the declaration's emitted capability list, and it is correct there.
proof fn lemma_shape_forwarded(
    out: DeclOutput,
    proxy: Proxy,
    td: TraitDecl,
    pkg: PkgIdView,
    i: int,
    sh: CapShape,
)
    requires
        decl_ok(out, proxy, td, pkg),
        0 <= i < td.supertraits@.len(),
        shape_contribution(td.supertraits@[i]) == seq![sh],
    ensures
        exists|j: int|
            0 <= j < out.capabilities@.len() && cap_shape(#[trigger] out.capabilities@[j]) == sh
                && cap_ok(
                out.capabilities@[j],
                symbol_prefix_view(pkg, td.ident@),
                ident_path_view(proxy.ident@),
            ),
{
    lemma_expected_shape_at(td.supertraits@, i, sh);
    let j = choose|j: int|
        0 <= j < expected_cap_shapes(td.supertraits@).len() && expected_cap_shapes(
            td.supertraits@,
        )[j] == sh;
    lemma_cap_shapes_len(out.capabilities@);
    lemma_cap_shapes_index(out.capabilities@, j);
    assert(cap_shape(out.capabilities@[j]) == sh);
}

/// A trait declared with a thread-shareability supertrait produces a proxy
/// that carries the matching marker impl, so instances of the proxy may
/// cross a concurrent boundary exactly as the real type may.
pub proof fn lemma_sync_bound_forwarded(
    out: DeclOutput,
    proxy: Proxy,
    td: TraitDecl,
    pkg: PkgIdView,
    i: int,
)
    requires
        decl_ok(out, proxy, td, pkg),
        0 <= i < td.supertraits@.len(),
        is_sync_bound(td.supertraits@[i]),
    ensures
        exists|j: int|
            0 <= j < out.capabilities@.len() && #[trigger] out.capabilities@[j]
                == CapabilityImpl::SyncMarker,
{
    reveal_strlit("Send");
    reveal_strlit("Sync");
    assert("Send"@[1] != "Sync"@[1]);
    assert(!is_send_bound(td.supertraits@[i]));
    assert(shape_contribution(td.supertraits@[i]) == seq![CapShape::SyncShape]);
    lemma_shape_forwarded(out, proxy, td, pkg, i, CapShape::SyncShape);
    let j = choose|j: int|
        0 <= j < out.capabilities@.len() && cap_shape(#[trigger] out.capabilities@[j])
            == CapShape::SyncShape && cap_ok(
            out.capabilities@[j],
            symbol_prefix_view(pkg, td.ident@),
            ident_path_view(proxy.ident@),
        );
    assert(out.capabilities@[j] == CapabilityImpl::SyncMarker);
}

/// A trait declared with a thread-affinity supertrait produces a proxy
/// that carries the matching marker impl.
pub proof fn lemma_send_bound_forwarded(
    out: DeclOutput,
    proxy: Proxy,
    td: TraitDecl,
    pkg: PkgIdView,
    i: int,
)
    requires
        decl_ok(out, proxy, td, pkg),
        0 <= i < td.supertraits@.len(),
        is_send_bound(td.supertraits@[i]),
    ensures
        exists|j: int|
            0 <= j < out.capabilities@.len() && #[trigger] out.capabilities@[j]
                == CapabilityImpl::SendMarker,
{
    assert(shape_contribution(td.supertraits@[i]) == seq![CapShape::SendShape]);
    lemma_shape_forwarded(out, proxy, td, pkg, i, CapShape::SendShape);
    let j = choose|j: int|
        0 <= j < out.capabilities@.len() && cap_shape(#[trigger] out.capabilities@[j])
            == CapShape::SendShape && cap_ok(
            out.capabilities@[j],
            symbol_prefix_view(pkg, td.ident@),
            ident_path_view(proxy.ident@),
        );
    assert(out.capabilities@[j] == CapabilityImpl::SendMarker);
}

/// A reference-conversion supertrait parameterized by a target type
/// produces, on the proxy, a conversion impl for exactly that target: its
/// synthetic method carries the target's exported symbol, its proxy-side
/// signature is the conversion signature for the target, and its boundary
/// signature is that signature's rewrite — the same pipeline ordinary
/// methods go through, so the registration site materializes the matching
/// thunk that forwards to the real implementation's conversion.
pub proof fn lemma_as_ref_bound_forwarded(
    out: DeclOutput,
    proxy: Proxy,
    td: TraitDecl,
    pkg: PkgIdView,
    i: int,
    t: Type,
)
    requires
        decl_ok(out, proxy, td, pkg),
        0 <= i < td.supertraits@.len(),
        as_ref_bound_target(td.supertraits@[i]) == Option::Some(t),
    ensures
        exists|j: int|
            0 <= j < out.capabilities@.len() && ((#[trigger] out.capabilities@[j]) matches
                CapabilityImpl::AsRefImpl(t2, pm) && t2@ == t@) && cap_ok(
                out.capabilities@[j],
                symbol_prefix_view(pkg, td.ident@),
                ident_path_view(proxy.ident@),
            ),
{
    reveal_strlit("Send");
    reveal_strlit("Sync");
    reveal_strlit("AsRef");
    assert("Send"@.len() == 4);
    assert("Sync"@.len() == 4);
    assert("AsRef"@.len() == 5);
    assert(!is_send_bound(td.supertraits@[i]));
    assert(!is_sync_bound(td.supertraits@[i]));
    assert(shape_contribution(td.supertraits@[i]) == seq![CapShape::AsRefShape(t@)]);
    lemma_shape_forwarded(out, proxy, td, pkg, i, CapShape::AsRefShape(t@));
    let j = choose|j: int|
        0 <= j < out.capabilities@.len() && cap_shape(#[trigger] out.capabilities@[j])
            == CapShape::AsRefShape(t@) && cap_ok(
            out.capabilities@[j],
            symbol_prefix_view(pkg, td.ident@),
            ident_path_view(proxy.ident@),
        );
    assert(out.capabilities@[j] matches CapabilityImpl::AsRefImpl(t2, pm) && t2@ == t@);
}

/// Whether one supertrait bound contributes exactly the given capability
/// shape.
pub open spec fn contributes(s: Supertrait, sh: CapShape) -> bool {
    shape_contribution(s) == seq![sh]
}

proof fn lemma_first_cap_error_none_all(ss: Seq<Supertrait>)
    requires
        first_cap_error(ss) is None,
    ensures
        forall|i: int|
            0 <= i < ss.len() ==> match as_ref_bound_target(#[trigger] ss[i]) {
                Option::Some(t) => as_ref_sig_error(t@) is None,
                Option::None => true,
            },
    decreases ss,
{
    if ss.len() > 0 {
        lemma_first_cap_error_none_all(ss.drop_first());
        assert forall|i: int| 0 <= i < ss.len() implies match as_ref_bound_target(
            #[trigger] ss[i],
        ) {
            Option::Some(t) => as_ref_sig_error(t@) is None,
            Option::None => true,
        } by {
            if i > 0 {
                assert(ss.drop_first()[i - 1] == ss[i]);
            }
        }
    }
}

proof fn lemma_expected_shape_source(ss: Seq<Supertrait>, j: int)
    requires
        0 <= j < expected_cap_shapes(ss).len(),
    ensures
        exists|i: int|
            0 <= i < ss.len() && contributes(#[trigger] ss[i], expected_cap_shapes(ss)[j]),
    decreases ss,
{
    if ss.len() > 0 {
        let pre = expected_cap_shapes(ss.drop_last());
        if j < pre.len() {
            lemma_expected_shape_source(ss.drop_last(), j);
            let i = choose|i: int|
                0 <= i < ss.drop_last().len() && contributes(
                    #[trigger] ss.drop_last()[i],
                    pre[j],
                );
            assert(ss.drop_last()[i] == ss[i]);
            assert(expected_cap_shapes(ss)[j] == pre[j]);
            assert(contributes(ss[i], expected_cap_shapes(ss)[j]));
        } else {
            let s = ss.last();
            let sh = expected_cap_shapes(ss)[j];
            assert(sh == shape_contribution(s)[j - pre.len()]);
            assert(contributes(ss[ss.len() - 1], sh));
        }
    }
}

/// The declaration's output feeds the binder: everything a successful
/// declaration emits — each of its proxy methods and each forwarded
/// conversion — is rewritable again at the registration site, so the two
/// expansion sites compose.
pub proof fn lemma_declaration_feeds_binder(
    out: DeclOutput,
    proxy: Proxy,
    td: TraitDecl,
    pkg: PkgIdView,
)
    requires
        decl_ok(out, proxy, td, pkg),
        first_cap_error(td.supertraits@) is None,
    ensures
        binder_wf(out),
{
    let prefix = symbol_prefix_view(pkg, td.ident@);
    let proxy_ty = ident_path_view(proxy.ident@);
    assert forall|i: int| 0 <= i < out.methods@.len() implies match #[trigger] out.methods@[i] {
        MethodExpansion::Proxy(pm) => sig_error(pm.proxy_sig@) is None,
        MethodExpansion::Fail(_) => true,
    } by {
        assert(expansion_ok(out.methods@[i], td.items@[i], prefix, proxy_ty));
        match td.items@[i] {
            TraitMember::Method(s) => {
                if sig_error(s@) is Some {
                    assert(out.methods@[i] is Fail);
                }
            },
            TraitMember::Other => {},
        }
    }
    lemma_first_cap_error_none_all(td.supertraits@);
    lemma_cap_shapes_len(out.capabilities@);
    assert forall|j: int|
        0 <= j < out.capabilities@.len() implies match #[trigger] out.capabilities@[j] {
        CapabilityImpl::AsRefImpl(t, pm) => sig_error(pm.proxy_sig@) is None,
        _ => true,
    } by {
        match out.capabilities@[j] {
            CapabilityImpl::AsRefImpl(t, pm) => {
                lemma_cap_shapes_index(out.capabilities@, j);
                assert(expected_cap_shapes(td.supertraits@)[j] == CapShape::AsRefShape(t@));
                lemma_expected_shape_source(td.supertraits@, j);
                let i = choose|i: int|
                    0 <= i < td.supertraits@.len() && contributes(
                        #[trigger] td.supertraits@[i],
                        CapShape::AsRefShape(t@),
                    );
                let s = td.supertraits@[i];
                match as_ref_bound_target(s) {
                    Option::Some(t2) => {
                        if is_send_bound(s) {
                            assert(shape_contribution(s)[0] == CapShape::SendShape);
                        } else if is_sync_bound(s) {
                            assert(shape_contribution(s)[0] == CapShape::SyncShape);
                        } else {
                            assert(shape_contribution(s)[0] == CapShape::AsRefShape(t2@));
                            assert(t2@ == t@);
                            assert(as_ref_sig_error(t2@) is None);
                            assert(cap_ok(out.capabilities@[j], prefix, proxy_ty));
                            assert(pm.proxy_sig@ == as_ref_sig_view(t@));
                        }
                    },
                    Option::None => {
                        if is_send_bound(s) {
                            assert(shape_contribution(s)[0] == CapShape::SendShape);
                        } else if is_sync_bound(s) {
                            assert(shape_contribution(s)[0] == CapShape::SyncShape);
                        } else {
                            assert(shape_contribution(s) == Seq::<CapShape>::empty());
                        }
                    },
                }
            },
            _ => {},
        }
    }
}

} // verus!
