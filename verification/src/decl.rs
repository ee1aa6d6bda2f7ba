//! The declaration expansion site.
//!
//! Declaring a trait produces the proxy type, one import-side stub per
//! method on the proxy's trait impl — each calling through an exported
//! symbol both sites derive independently — the forwarded capability impls
//! scanned from the supertrait bounds, and the destructor wiring.  A method
//! the rewriter rejects degrades to an error marker at that method alone;
//! the rest of the trait still expands.

use vstd::prelude::*;

use crate::args::{Proxy, ProxyStruct, proxy_struct_ok};
use crate::error::Error;
use crate::sig::{
    Param, ParamView, Signature, SignatureView, BoundarySig, sig_error, boundary_matches,
    views_of_params, view_of_param, lemma_views_of_params_len, lemma_views_of_params_index,
    rewrite_signature, clone_signature,
};
use crate::symbol::{
    PkgId, PkgIdView, symbol_prefix_view, method_symbol_view, drop_symbol_view, as_ref_symbol_view,
    symbol_prefix, method_symbol, drop_symbol, as_ref_symbol,
};
use crate::ty::{
    Type, TypeView, Segment, SegmentView, PathArgs, PathArgsView, GenericArg, clone_type,
    views_of_segments, lemma_views_of_segments_len, lemma_views_of_segments_index,
};

verus! {

/// One item of the declared trait: a method signature, or anything else —
/// which the expansion rejects with an error marker at that item.
#[derive(Debug, PartialEq, Eq)]
pub enum TraitMember {
    Method(Signature),
    Other,
}

/// One supertrait bound of the declared trait: a trait path — whether it
/// starts with `::`, and its segments — or a non-trait bound such as a
/// lifetime.
#[derive(Debug, PartialEq, Eq)]
pub enum Supertrait {
    Trait(bool, Vec<Segment>),
    Other,
}

/// The declared trait: its name, its safety marker, whether it has generic
/// parameters, its supertrait bounds and its ordered items.
#[derive(Debug, PartialEq, Eq)]
pub struct TraitDecl {
    pub ident: String,
    pub is_unsafe: bool,
    pub has_generics: bool,
    pub supertraits: Vec<Supertrait>,
    pub items: Vec<TraitMember>,
}

/// One method successfully routed through the boundary: the exported name
/// the two sides agree on, the proxy-side signature — the original method,
/// unchanged — and the boundary signature both thunks share.
#[derive(Debug, PartialEq, Eq)]
pub struct ProxyMethod {
    pub export_name: String,
    pub proxy_sig: Signature,
    pub boundary: BoundarySig,
}

/// What the declaration emits for one trait item: a proxy method, or an
/// error marker embedded at that item's span.
#[derive(Debug, PartialEq, Eq)]
pub enum MethodExpansion {
    Proxy(ProxyMethod),
    Fail(Error),
}

/// One capability forwarded from a recognized supertrait bound: a
/// thread-affinity or thread-shareability marker on the proxy, or a
/// reference-conversion impl carrying its target type and its synthetic
/// method, routed through the same rewriter as ordinary methods.
#[derive(Debug, PartialEq, Eq)]
pub enum CapabilityImpl {
    SendMarker,
    SyncMarker,
    AsRefImpl(Type, ProxyMethod),
}

/// Everything the declaration site emits: the proxy declaration, one entry
/// per trait item, the forwarded capabilities, and the exported name of the
/// destructor thunk the proxy's destructor calls through the boundary.
#[derive(Debug, PartialEq, Eq)]
pub struct DeclOutput {
    pub proxy: ProxyStruct,
    pub methods: Vec<MethodExpansion>,
    pub capabilities: Vec<CapabilityImpl>,
    pub drop_symbol: String,
}

/// A bare single-segment path type of the given identifier.
pub open spec fn ident_path_view(name: Seq<char>) -> TypeView {
    TypeView::Path(
        Option::None,
        seq![SegmentView { ident: name, arguments: PathArgsView::Bare }],
    )
}

/// The synthetic reference-conversion signature for one target:
/// `fn as_ref(&self) -> &Target`.
pub open spec fn as_ref_sig_view(target: TypeView) -> SignatureView {
    SignatureView {
        ident: "as_ref"@,
        inputs: seq![
            ParamView {
                receiver: true,
                ty: TypeView::Reference(false, Box::new(ident_path_view("Self"@))),
            },
        ],
        output: Option::Some(TypeView::Reference(false, Box::new(target))),
    }
}

/// Why the synthetic reference-conversion method for one target is
/// rejected, if it is; such a rejection aborts the whole declaration.
pub open spec fn as_ref_sig_error(target: TypeView) -> Option<Error> {
    sig_error(as_ref_sig_view(target))
}

/// Whether a bound is the literal unqualified `Send`.
pub open spec fn is_send_bound(s: Supertrait) -> bool {
    match s {
        Supertrait::Trait(leading, segs) => !leading && segs@.len() == 1 && segs@[0].ident@
            == "Send"@,
        Supertrait::Other => false,
    }
}

/// Whether a bound is the literal unqualified `Sync`.
pub open spec fn is_sync_bound(s: Supertrait) -> bool {
    match s {
        Supertrait::Trait(leading, segs) => !leading && segs@.len() == 1 && segs@[0].ident@
            == "Sync"@,
        Supertrait::Other => false,
    }
}

/// The target of a reference-conversion bound: the first angle-bracketed
/// type argument of a literal unqualified `AsRef`.  Any other bound — and
/// an `AsRef` without such an argument — is silently ignored, a deliberate
/// forward-compatibility choice rather than an error.
pub open spec fn as_ref_bound_target(s: Supertrait) -> Option<Type> {
    match s {
        Supertrait::Trait(leading, segs) => if !leading && segs@.len() == 1 && segs@[0].ident@
            == "AsRef"@ {
            match segs@[0].arguments {
                PathArgs::Angle(gs) => if gs@.len() > 0 {
                    match gs@[0] {
                        GenericArg::Type(t) => Option::Some(*t),
                        GenericArg::Other => Option::None,
                    }
                } else {
                    Option::None
                },
                _ => Option::None,
            }
        } else {
            Option::None
        },
        Supertrait::Other => Option::None,
    }
}

/// The first fatal capability error among the supertrait bounds, scanning
/// in order: only a reference-conversion bound whose synthetic method the
/// rewriter rejects is fatal.
pub open spec fn first_cap_error(ss: Seq<Supertrait>) -> Option<Error>
    decreases ss,
{
    if ss.len() == 0 {
        Option::None
    } else {
        match as_ref_bound_target(ss[0]) {
            Option::Some(t) => if as_ref_sig_error(t@) is Some {
                as_ref_sig_error(t@)
            } else {
                first_cap_error(ss.drop_first())
            },
            Option::None => first_cap_error(ss.drop_first()),
        }
    }
}

/// The shape of one emitted capability, for matching the emitted list
/// against the recognized bounds.
pub ghost enum CapShape {
    SendShape,
    SyncShape,
    AsRefShape(TypeView),
}

/// The shape of one emitted capability impl.
pub open spec fn cap_shape(c: CapabilityImpl) -> CapShape {
    match c {
        CapabilityImpl::SendMarker => CapShape::SendShape,
        CapabilityImpl::SyncMarker => CapShape::SyncShape,
        CapabilityImpl::AsRefImpl(t, pm) => CapShape::AsRefShape(t@),
    }
}

/// The shapes of a list of emitted capability impls.
pub open spec fn cap_shapes(cs: Seq<CapabilityImpl>) -> Seq<CapShape>
    decreases cs,
{
    if cs.len() == 0 {
        Seq::empty()
    } else {
        cap_shapes(cs.drop_last()) + seq![cap_shape(cs.last())]
    }
}

/// What one supertrait bound contributes to the emitted capability list.
pub open spec fn shape_contribution(s: Supertrait) -> Seq<CapShape> {
    if is_send_bound(s) {
        seq![CapShape::SendShape]
    } else if is_sync_bound(s) {
        seq![CapShape::SyncShape]
    } else {
        match as_ref_bound_target(s) {
            Option::Some(t) => seq![CapShape::AsRefShape(t@)],
            Option::None => Seq::empty(),
        }
    }
}

/// The capability shapes a list of supertrait bounds asks for, in order.
pub open spec fn expected_cap_shapes(ss: Seq<Supertrait>) -> Seq<CapShape>
    decreases ss,
{
    if ss.len() == 0 {
        Seq::empty()
    } else {
        expected_cap_shapes(ss.drop_last()) + shape_contribution(ss.last())
    }
}

/// What a correct proxy method for one signature looks like: the exported
/// name is the prefix with the method name as suffix, the proxy-side
/// signature is the original unchanged, and the boundary signature is the
/// rewrite of the original against the proxy type.
pub open spec fn proxy_method_matches(
    pm: ProxyMethod,
    s: SignatureView,
    prefix: Seq<char>,
    proxy_ty: TypeView,
) -> bool {
    &&& pm.export_name@ == method_symbol_view(prefix, s.ident)
    &&& pm.proxy_sig@ == s
    &&& boundary_matches(pm.boundary@, s, proxy_ty)
}

/// What the declaration emits for one trait item: a non-method item fails
/// with its marker, a method the rewriter rejects fails with that error,
/// and any other method becomes a correct proxy method.
pub open spec fn expansion_ok(
    m: MethodExpansion,
    item: TraitMember,
    prefix: Seq<char>,
    proxy_ty: TypeView,
) -> bool {
    match item {
        TraitMember::Method(s) => match sig_error(s@) {
            Option::Some(e) => m == MethodExpansion::Fail(e),
            Option::None => m matches MethodExpansion::Proxy(pm) && proxy_method_matches(
                pm,
                s@,
                prefix,
                proxy_ty,
            ),
        },
        TraitMember::Other => m == MethodExpansion::Fail(Error::NotAMethod),
    }
}

/// What a correct emitted capability looks like on its own: a
/// reference-conversion impl carries the synthetic method for its target,
/// under the target's exported name.
pub open spec fn cap_ok(c: CapabilityImpl, prefix: Seq<char>, proxy_ty: TypeView) -> bool {
    match c {
        CapabilityImpl::SendMarker => true,
        CapabilityImpl::SyncMarker => true,
        CapabilityImpl::AsRefImpl(t, pm) => {
            &&& pm.export_name@ == as_ref_symbol_view(prefix, t@)
            &&& pm.proxy_sig@ == as_ref_sig_view(t@)
            &&& boundary_matches(pm.boundary@, as_ref_sig_view(t@), proxy_ty)
        },
    }
}

/// Everything the declaration of one trait guarantees: the proxy has the
/// requested name over two opaque word slots, every trait item expands to
/// its entry in order, the capability list matches the recognized bounds in
/// order, each forwarded capability is correct, and the destructor thunk's
/// exported name is the prefix with the drop suffix.
pub open spec fn decl_ok(out: DeclOutput, proxy: Proxy, td: TraitDecl, pkg: PkgIdView) -> bool {
    let prefix = symbol_prefix_view(pkg, td.ident@);
    let proxy_ty = ident_path_view(proxy.ident@);
    &&& proxy_struct_ok(out.proxy, proxy)
    &&& out.methods@.len() == td.items@.len()
    &&& forall|i: int|
        0 <= i < td.items@.len() ==> expansion_ok(
            #[trigger] out.methods@[i],
            td.items@[i],
            prefix,
            proxy_ty,
        )
    &&& cap_shapes(out.capabilities@) == expected_cap_shapes(td.supertraits@)
    &&& forall|i: int|
        0 <= i < out.capabilities@.len() ==> cap_ok(
            #[trigger] out.capabilities@[i],
            prefix,
            proxy_ty,
        )
    &&& out.drop_symbol@ == drop_symbol_view(prefix)
}

proof fn lemma_marker_not_as_ref(s: Supertrait)
    requires
        is_send_bound(s) || is_sync_bound(s),
    ensures
        as_ref_bound_target(s) is None,
{
    reveal_strlit("Send");
    reveal_strlit("Sync");
    reveal_strlit("AsRef");
    assert("Send"@.len() == 4);
    assert("Sync"@.len() == 4);
    assert("AsRef"@.len() == 5);
    match s {
        Supertrait::Trait(leading, segs) => {
            assert(segs@[0].ident@ != "AsRef"@);
        },
        Supertrait::Other => {},
    }
}

proof fn lemma_cap_shapes_push(cs: Seq<CapabilityImpl>, c: CapabilityImpl)
    ensures
        cap_shapes(cs.push(c)) == cap_shapes(cs) + seq![cap_shape(c)],
{
    assert(cs.push(c).drop_last() =~= cs);
    assert(cs.push(c).last() == c);
}

proof fn lemma_expected_cap_shapes_step(ss: Seq<Supertrait>, k: int)
    requires
        0 <= k < ss.len(),
    ensures
        expected_cap_shapes(ss.take(k + 1)) == expected_cap_shapes(ss.take(k))
            + shape_contribution(ss[k]),
{
    let pre = ss.take(k + 1);
    assert(pre.drop_last() =~= ss.take(k));
    assert(pre.last() == ss[k]);
}

proof fn lemma_first_cap_error_at(ss: Seq<Supertrait>, k: int, e: Error)
    requires
        0 <= k < ss.len(),
        forall|j: int|
            0 <= j < k ==> match as_ref_bound_target(#[trigger] ss[j]) {
                Option::Some(t) => as_ref_sig_error(t@) is None,
                Option::None => true,
            },
        as_ref_bound_target(ss[k]) matches Option::Some(t) && as_ref_sig_error(t@)
            == Option::Some(e),
    ensures
        first_cap_error(ss) == Option::Some(e),
    decreases k,
{
    if k > 0 {
        lemma_first_cap_error_at(ss.drop_first(), k - 1, e);
    }
}

proof fn lemma_first_cap_error_none(ss: Seq<Supertrait>)
    requires
        forall|j: int|
            0 <= j < ss.len() ==> match as_ref_bound_target(#[trigger] ss[j]) {
                Option::Some(t) => as_ref_sig_error(t@) is None,
                Option::None => true,
            },
    ensures
        first_cap_error(ss) is None,
    decreases ss,
{
    if ss.len() > 0 {
        lemma_first_cap_error_none(ss.drop_first());
    }
}

/// A bare single-segment path type of the given identifier.
pub fn path_of_ident(ident: String) -> (r: Type)
    ensures
        r@ == ident_path_view(ident@),
{
    let mut segs: Vec<Segment> = Vec::new();
    segs.push(Segment { ident, arguments: PathArgs::Bare });
    proof {
        lemma_views_of_segments_len(segs@);
        lemma_views_of_segments_index(segs@, 0);
        assert(views_of_segments(segs@) =~= seq![
            SegmentView { ident: ident@, arguments: PathArgsView::Bare },
        ]);
    }
    Type::Path(Option::None, segs)
}

/// The synthetic reference-conversion signature for one target.
fn as_ref_signature(target: &Type) -> (r: Signature)
    ensures
        r@ == as_ref_sig_view(target@),
{
    let self_ty = Type::Reference(false, Box::new(path_of_ident(String::from_str("Self"))));
    let mut inputs: Vec<Param> = Vec::new();
    inputs.push(Param { receiver: true, ty: self_ty });
    let output = Option::Some(Type::Reference(false, Box::new(clone_type(target))));
    proof {
        lemma_views_of_params_len(inputs@);
        lemma_views_of_params_index(inputs@, 0);
        assert(views_of_params(inputs@) =~= seq![
            ParamView {
                receiver: true,
                ty: TypeView::Reference(false, Box::new(ident_path_view("Self"@))),
            },
        ]);
    }
    let r = Signature { ident: String::from_str("as_ref"), inputs, output };
    proof {
        assert(r@ == as_ref_sig_view(target@));
    }
    r
}

/// The import-side stub for one method: the proxy-side signature — the
/// original, unchanged — over the boundary signature declared under the
/// exported name.  A rejected method reports why instead.
pub fn generate_proxy_impl(export_name: String, sig: &Signature, proxy_ty: &Type) -> (r: Result<
    ProxyMethod,
    Error,
>)
    ensures
        match sig_error(sig@) {
            Option::Some(e) => r == Result::<ProxyMethod, Error>::Err(e),
            Option::None => r matches Result::Ok(pm) && pm.export_name@ == export_name@
                && proxy_method_matches_name_free(pm, sig@, proxy_ty@),
        },
{
    match rewrite_signature(sig, proxy_ty) {
        Result::Ok(b) => Result::Ok(
            ProxyMethod { export_name, proxy_sig: clone_signature(sig), boundary: b },
        ),
        Result::Err(e) => Result::Err(e),
    }
}

/// As [`proxy_method_matches`], but with the exported name pinned by the
/// caller rather than recomputed from the prefix.
pub open spec fn proxy_method_matches_name_free(
    pm: ProxyMethod,
    s: SignatureView,
    proxy_ty: TypeView,
) -> bool {
    &&& pm.proxy_sig@ == s
    &&& boundary_matches(pm.boundary@, s, proxy_ty)
}

/// Whether an identifier is the given literal.
fn ident_is(id: &String, probe: &str) -> (r: bool)
    ensures
        r == (id@ == probe@),
{
    let p = String::from_str(probe);
    *id == p
}

/// The capability one supertrait bound forwards, if any: a marker impl for
/// a thread-affinity or thread-shareability bound, the synthetic
/// reference-conversion method for a recognized conversion bound — whose
/// rejection by the rewriter is fatal — and nothing for every other bound.
fn forward_capability(s: &Supertrait, prefix: &String, proxy_ty: &Type) -> (r: Result<
    Option<CapabilityImpl>,
    Error,
>)
    ensures
        match r {
            Result::Ok(c) => {
                &&& (match as_ref_bound_target(*s) {
                    Option::Some(t) => as_ref_sig_error(t@) is None,
                    Option::None => true,
                })
                &&& (match c {
                    Option::Some(ci) => shape_contribution(*s) == seq![cap_shape(ci)] && cap_ok(
                        ci,
                        prefix@,
                        proxy_ty@,
                    ),
                    Option::None => shape_contribution(*s) == Seq::<CapShape>::empty(),
                })
            },
            Result::Err(e) => as_ref_bound_target(*s) matches Option::Some(t) && as_ref_sig_error(
                t@,
            ) == Option::Some(e),
        },
{
    proof {
        reveal_strlit("Send");
        reveal_strlit("Sync");
        reveal_strlit("AsRef");
    }
    match s {
        Supertrait::Trait(leading, segs) => {
            if !*leading && segs.len() == 1 {
                let seg = &segs[0];
                if ident_is(&seg.ident, "Send") {
                    proof {
                        lemma_marker_not_as_ref(*s);
                    }
                    Result::Ok(Option::Some(CapabilityImpl::SendMarker))
                } else if ident_is(&seg.ident, "Sync") {
                    proof {
                        lemma_marker_not_as_ref(*s);
                    }
                    Result::Ok(Option::Some(CapabilityImpl::SyncMarker))
                } else if ident_is(&seg.ident, "AsRef") {
                    match &seg.arguments {
                        PathArgs::Angle(gs) => {
                            if gs.len() > 0 {
                                match &gs[0] {
                                    GenericArg::Type(t) => {
                                        let target: &Type = &**t;
                                        let sig = as_ref_signature(target);
                                        let export_name = as_ref_symbol(prefix, target);
                                        match generate_proxy_impl(export_name, &sig, proxy_ty) {
                                            Result::Ok(pm) => Result::Ok(
                                                Option::Some(
                                                    CapabilityImpl::AsRefImpl(
                                                        clone_type(target),
                                                        pm,
                                                    ),
                                                ),
                                            ),
                                            Result::Err(e) => Result::Err(e),
                                        }
                                    },
                                    GenericArg::Other => Result::Ok(Option::None),
                                }
                            } else {
                                Result::Ok(Option::None)
                            }
                        },
                        _ => Result::Ok(Option::None),
                    }
                } else {
                    Result::Ok(Option::None)
                }
            } else {
                Result::Ok(Option::None)
            }
        },
        Supertrait::Other => Result::Ok(Option::None),
    }
}

/// The whole declaration expansion for one trait: reject a generic or a
/// safe trait outright, then expand every item — methods through the
/// rewriter, anything else to an error marker — scan the supertrait bounds
/// for forwardable capabilities, and wire the destructor thunk.
#[verifier::loop_isolation(false)]
pub fn expand(proxy: Proxy, input: &TraitDecl, pkg: &PkgId) -> (r: Result<DeclOutput, Error>)
    ensures
        match r {
            Result::Ok(out) => {
                &&& !input.has_generics
                &&& input.is_unsafe
                &&& first_cap_error(input.supertraits@) is None
                &&& decl_ok(out, proxy, *input, pkg@)
            },
            Result::Err(e) => if input.has_generics {
                e == Error::TraitGenerics
            } else if !input.is_unsafe {
                e == Error::TraitNotUnsafe
            } else {
                first_cap_error(input.supertraits@) == Option::Some(e)
            },
        },
{
    if input.has_generics {
        return Result::Err(Error::TraitGenerics);
    }
    if !input.is_unsafe {
        return Result::Err(Error::TraitNotUnsafe);
    }
    let ghost prefix_v = symbol_prefix_view(pkg@, input.ident@);
    let ghost proxy_ty_v = ident_path_view(proxy.ident@);
    let prefix = symbol_prefix(pkg, &input.ident);
    let proxy_ty = path_of_ident(proxy.ident.clone());

    let mut methods: Vec<MethodExpansion> = Vec::new();
    let mut i: usize = 0;
    while i < input.items.len()
        invariant
            0 <= i <= input.items.len(),
            methods@.len() == i,
            forall|j: int|
                0 <= j < i ==> expansion_ok(
                    #[trigger] methods@[j],
                    input.items@[j],
                    prefix_v,
                    proxy_ty_v,
                ),
        decreases input.items.len() - i,
    {
        match &input.items[i] {
            TraitMember::Method(s) => {
                let export_name = method_symbol(&prefix, &s.ident);
                match generate_proxy_impl(export_name, s, &proxy_ty) {
                    Result::Ok(pm) => {
                        methods.push(MethodExpansion::Proxy(pm));
                    },
                    Result::Err(e) => {
                        methods.push(MethodExpansion::Fail(e));
                    },
                }
            },
            TraitMember::Other => {
                methods.push(MethodExpansion::Fail(Error::NotAMethod));
            },
        }
        i += 1;
    }

    let ghost ss = input.supertraits@;
    let mut capabilities: Vec<CapabilityImpl> = Vec::new();
    let mut k: usize = 0;
    while k < input.supertraits.len()
        invariant
            0 <= k <= input.supertraits.len(),
            cap_shapes(capabilities@) == expected_cap_shapes(ss.take(k as int)),
            forall|j: int|
                0 <= j < capabilities@.len() ==> cap_ok(
                    #[trigger] capabilities@[j],
                    prefix_v,
                    proxy_ty_v,
                ),
            forall|j: int|
                0 <= j < k ==> match as_ref_bound_target(#[trigger] ss[j]) {
                    Option::Some(t) => as_ref_sig_error(t@) is None,
                    Option::None => true,
                },
        decreases input.supertraits.len() - k,
    {
        match forward_capability(&input.supertraits[k], &prefix, &proxy_ty) {
            Result::Ok(Option::Some(ci)) => {
                proof {
                    lemma_cap_shapes_push(capabilities@, ci);
                    lemma_expected_cap_shapes_step(ss, k as int);
                }
                capabilities.push(ci);
            },
            Result::Ok(Option::None) => {
                proof {
                    lemma_expected_cap_shapes_step(ss, k as int);
                    assert(cap_shapes(capabilities@) =~= expected_cap_shapes(
                        ss.take(k as int + 1),
                    ));
                }
            },
            Result::Err(e) => {
                proof {
                    lemma_first_cap_error_at(ss, k as int, e);
                }
                return Result::Err(e);
            },
        }
        k += 1;
    }

    let out = DeclOutput {
        proxy: proxy.into_struct(),
        methods,
        capabilities,
        drop_symbol: drop_symbol(&prefix),
    };
    proof {
        lemma_first_cap_error_none(ss);
        assert(ss.take(ss.len() as int) =~= ss);
        assert(decl_ok(out, proxy, *input, pkg@));
    }
    Result::Ok(out)
}

} // verus!
