//! The signature rewriter.
//!
//! For one method signature and a replacement target — the proxy type at the
//! declaration site, the concrete implementing type at the registration site
//! — the rewriter produces the boundary-facing signature: every classified
//! `Self` position is replaced by the target under the original pointer or
//! reference wrapper, every other position is kept as it stands.  A `Self`
//! passed by value as a parameter is rejected, and so is any `Self` mention
//! the analyzer cannot classify.

use vstd::prelude::*;

use crate::error::Error;
use crate::ty::{
    Type, TypeView, SelfKind, TypeExt, has_self, kind_of, type_contains_self,
    clone_type, views_of_types, view_of_type, lemma_views_of_types_len, lemma_views_of_types_index,
};

verus! {

/// One parameter of a method signature: its type, and whether it is the
/// receiver.  The receiver's type is spelled out (`Self`, `&Self`,
/// `&mut Self`, `*const Self`), so it is classified exactly like any other
/// parameter.
#[derive(Debug, PartialEq, Eq)]
pub struct Param {
    pub receiver: bool,
    pub ty: Type,
}

/// A method signature: a name, the ordered parameters, and the return type
/// if the method has one.
#[derive(Debug, PartialEq, Eq)]
pub struct Signature {
    pub ident: String,
    pub inputs: Vec<Param>,
    pub output: Option<Type>,
}

/// The boundary-facing shape of a signature: the positional parameter types
/// and the return type of the thunk under its exported name.
#[derive(Debug, PartialEq, Eq)]
pub struct BoundarySig {
    pub inputs: Vec<Type>,
    pub output: Option<Type>,
}

/// The mathematical value of a [`Param`].
pub ghost struct ParamView {
    pub receiver: bool,
    pub ty: TypeView,
}

/// The mathematical value of a [`Signature`].
pub ghost struct SignatureView {
    pub ident: Seq<char>,
    pub inputs: Seq<ParamView>,
    pub output: Option<TypeView>,
}

/// The mathematical value of a [`BoundarySig`].
pub ghost struct BoundarySigView {
    pub inputs: Seq<TypeView>,
    pub output: Option<TypeView>,
}

/// The view of one parameter.
pub open spec fn view_of_param(p: Param) -> ParamView {
    ParamView { receiver: p.receiver, ty: view_of_type(p.ty) }
}

/// The views of the elements of a sequence of parameters.
pub open spec fn views_of_params(ps: Seq<Param>) -> Seq<ParamView>
    decreases ps,
{
    if ps.len() == 0 {
        Seq::empty()
    } else {
        seq![view_of_param(ps[0])] + views_of_params(ps.drop_first())
    }
}

/// The view of an optional return type.
pub open spec fn view_of_output(o: Option<Type>) -> Option<TypeView> {
    match o {
        Option::Some(t) => Option::Some(view_of_type(t)),
        Option::None => Option::None,
    }
}

impl View for Param {
    type V = ParamView;

    open spec fn view(&self) -> ParamView {
        view_of_param(*self)
    }
}

impl View for Signature {
    type V = SignatureView;

    open spec fn view(&self) -> SignatureView {
        SignatureView {
            ident: self.ident@,
            inputs: views_of_params(self.inputs@),
            output: view_of_output(self.output),
        }
    }
}

impl View for BoundarySig {
    type V = BoundarySigView;

    open spec fn view(&self) -> BoundarySigView {
        BoundarySigView { inputs: views_of_types(self.inputs@), output: view_of_output(self.output) }
    }
}

pub broadcast proof fn lemma_views_of_params_len(ps: Seq<Param>)
    ensures
        #[trigger] views_of_params(ps).len() == ps.len(),
    decreases ps,
{
    if ps.len() > 0 {
        lemma_views_of_params_len(ps.drop_first());
    }
}

pub broadcast proof fn lemma_views_of_params_index(ps: Seq<Param>, i: int)
    requires
        0 <= i < ps.len(),
    ensures
        #[trigger] views_of_params(ps)[i] == view_of_param(ps[i]),
    decreases ps,
{
    lemma_views_of_params_len(ps);
    if i > 0 {
        lemma_views_of_params_index(ps.drop_first(), i - 1);
    }
}

/// The mutability recorded on a raw-pointer type; threaded through to the
/// rewritten pointer, though classification does not distinguish it.
pub open spec fn ptr_mutability(t: TypeView) -> bool {
    match t {
        TypeView::Ptr(m, _) => m,
        _ => false,
    }
}

/// The boundary type for one position: a type that does not mention `Self`
/// stays as it is; a classified position is the target under the original
/// wrapper — the target itself for an owned `Self`, a raw pointer or a
/// reference to the target, with the original mutability, otherwise.
pub open spec fn rewritten_ty(t: TypeView, target: TypeView) -> TypeView {
    if !has_self(t) {
        t
    } else {
        match kind_of(t) {
            Option::Some(SelfKind::Value) => target,
            Option::Some(SelfKind::Ptr) => TypeView::Ptr(ptr_mutability(t), Box::new(target)),
            Option::Some(SelfKind::Ref(m)) => TypeView::Reference(m, Box::new(target)),
            Option::None => t,
        }
    }
}

/// Why one parameter position is rejected, if it is.
pub open spec fn param_error(t: TypeView) -> Option<Error> {
    if !has_self(t) {
        Option::None
    } else {
        match kind_of(t) {
            Option::Some(SelfKind::Value) => Option::Some(Error::SelfByValueArg),
            Option::Some(_) => Option::None,
            Option::None => Option::Some(Error::TooComplexArg),
        }
    }
}

/// Why the return position is rejected, if it is.  An owned `Self` return is
/// allowed: the proxy takes ownership of exactly two words.
pub open spec fn return_error(o: Option<TypeView>) -> Option<Error> {
    match o {
        Option::Some(t) => if !has_self(t) {
            Option::None
        } else if kind_of(t) is Some {
            Option::None
        } else {
            Option::Some(Error::TooComplexReturn)
        },
        Option::None => Option::None,
    }
}

/// The first rejected parameter's error, scanning left to right.
pub open spec fn first_param_error(ps: Seq<ParamView>) -> Option<Error>
    decreases ps,
{
    if ps.len() == 0 {
        Option::None
    } else if param_error(ps[0].ty) is Some {
        param_error(ps[0].ty)
    } else {
        first_param_error(ps.drop_first())
    }
}

/// Why a whole signature is rejected, if it is: the return position is
/// examined first, then the parameters in order.
pub open spec fn sig_error(s: SignatureView) -> Option<Error> {
    if return_error(s.output) is Some {
        return_error(s.output)
    } else {
        first_param_error(s.inputs)
    }
}

/// What a correct boundary signature looks like for a given signature and
/// target: pointwise rewritten parameters and return type.
pub open spec fn boundary_matches(b: BoundarySigView, s: SignatureView, target: TypeView) -> bool {
    &&& b.inputs.len() == s.inputs.len()
    &&& forall|i: int|
        0 <= i < s.inputs.len() ==> b.inputs[i] == rewritten_ty(#[trigger] s.inputs[i].ty, target)
    &&& match (b.output, s.output) {
        (Option::None, Option::None) => true,
        (Option::Some(bo), Option::Some(so)) => bo == rewritten_ty(so, target),
        _ => false,
    }
}

pub proof fn lemma_first_param_error_at(ps: Seq<ParamView>, i: int)
    requires
        0 <= i < ps.len(),
        forall|j: int| 0 <= j < i ==> param_error(#[trigger] ps[j].ty) is None,
        param_error(ps[i].ty) is Some,
    ensures
        first_param_error(ps) == param_error(ps[i].ty),
    decreases i,
{
    if i > 0 {
        lemma_first_param_error_at(ps.drop_first(), i - 1);
    }
}

pub proof fn lemma_first_param_error_none(ps: Seq<ParamView>)
    requires
        forall|j: int| 0 <= j < ps.len() ==> param_error(#[trigger] ps[j].ty) is None,
    ensures
        first_param_error(ps) is None,
    decreases ps,
{
    if ps.len() > 0 {
        lemma_first_param_error_none(ps.drop_first());
    }
}

/// The boundary type for one classified position: the target under the
/// original wrapper.
fn apply_kind(t: &Type, k: SelfKind, target: &Type) -> (r: Type)
    requires
        has_self(t@),
        kind_of(t@) == Option::Some(k),
    ensures
        r@ == rewritten_ty(t@, target@),
{
    match k {
        SelfKind::Value => clone_type(target),
        SelfKind::Ptr => {
            let m = match t {
                Type::Ptr(m, _) => *m,
                _ => false,
            };
            Type::Ptr(m, Box::new(clone_type(target)))
        },
        SelfKind::Ref(m) => Type::Reference(m, Box::new(clone_type(target))),
    }
}

/// The boundary type for one parameter position, or why it is rejected.
fn rewrite_param_ty(t: &Type, target: &Type) -> (r: Result<Type, Error>)
    ensures
        match param_error(t@) {
            Option::Some(e) => r == Result::<Type, Error>::Err(e),
            Option::None => r matches Result::Ok(b) && b@ == rewritten_ty(t@, target@),
        },
{
    if type_contains_self(t) {
        match t.self_kind() {
            Option::Some(SelfKind::Value) => Result::Err(Error::SelfByValueArg),
            Option::Some(k) => Result::Ok(apply_kind(t, k, target)),
            Option::None => Result::Err(Error::TooComplexArg),
        }
    } else {
        Result::Ok(clone_type(t))
    }
}

/// The boundary return type, or why it is rejected.
fn rewrite_return_ty(o: &Option<Type>, target: &Type) -> (r: Result<Option<Type>, Error>)
    ensures
        match return_error(view_of_output(*o)) {
            Option::Some(e) => r == Result::<Option<Type>, Error>::Err(e),
            Option::None => r matches Result::Ok(b) && view_of_output(b) == match view_of_output(
                *o,
            ) {
                Option::Some(t) => Option::Some(rewritten_ty(t, target@)),
                Option::None => Option::<TypeView>::None,
            },
        },
{
    match o {
        Option::None => Result::Ok(Option::None),
        Option::Some(t) => {
            if type_contains_self(t) {
                match t.self_kind() {
                    Option::Some(k) => Result::Ok(Option::Some(apply_kind(t, k, target))),
                    Option::None => Result::Err(Error::TooComplexReturn),
                }
            } else {
                Result::Ok(Option::Some(clone_type(t)))
            }
        },
    }
}

/// The boundary-facing signature for one method and one replacement target,
/// or the error of the first position the rewriter rejects: the return
/// position first, then the parameters — the receiver among them — from
/// left to right.
pub fn rewrite_signature(sig: &Signature, target: &Type) -> (r: Result<BoundarySig, Error>)
    ensures
        match sig_error(sig@) {
            Option::Some(e) => r == Result::<BoundarySig, Error>::Err(e),
            Option::None => r matches Result::Ok(b) && boundary_matches(b@, sig@, target@),
        },
{
    proof {
        lemma_views_of_params_len(sig.inputs@);
    }
    let output = match rewrite_return_ty(&sig.output, target) {
        Result::Ok(o) => o,
        Result::Err(e) => {
            return Result::Err(e);
        },
    };
    let mut inputs: Vec<Type> = Vec::new();
    let mut i: usize = 0;
    while i < sig.inputs.len()
        invariant
            0 <= i <= sig.inputs.len(),
            inputs@.len() == i,
            return_error(sig@.output) is None,
            forall|j: int| 0 <= j < i ==> param_error(#[trigger] sig@.inputs[j].ty) is None,
            forall|j: int|
                0 <= j < i ==> view_of_type(#[trigger] inputs@[j]) == rewritten_ty(
                    sig@.inputs[j].ty,
                    target@,
                ),
            sig@.inputs.len() == sig.inputs@.len(),
            view_of_output(output) == match sig@.output {
                Option::Some(t) => Option::Some(rewritten_ty(t, target@)),
                Option::None => Option::<TypeView>::None,
            },
        decreases sig.inputs.len() - i,
    {
        proof {
            lemma_views_of_params_index(sig.inputs@, i as int);
        }
        match rewrite_param_ty(&sig.inputs[i].ty, target) {
            Result::Ok(b) => {
                inputs.push(b);
            },
            Result::Err(e) => {
                proof {
                    lemma_first_param_error_at(sig@.inputs, i as int);
                }
                return Result::Err(e);
            },
        }
        i += 1;
    }
    proof {
        lemma_first_param_error_none(sig@.inputs);
        lemma_views_of_types_len(inputs@);
        assert forall|j: int| 0 <= j < sig@.inputs.len() implies views_of_types(inputs@)[j]
            == rewritten_ty(sig@.inputs[j].ty, target@) by {
            lemma_views_of_types_index(inputs@, j);
        }
    }
    Result::Ok(BoundarySig { inputs, output })
}

/// A deep copy of a parameter with the same view.
pub fn clone_param(p: &Param) -> (r: Param)
    ensures
        r@ == p@,
{
    Param { receiver: p.receiver, ty: clone_type(&p.ty) }
}

/// A deep copy of a signature with the same view.
pub fn clone_signature(s: &Signature) -> (r: Signature)
    ensures
        r@ == s@,
{
    let mut inputs: Vec<Param> = Vec::new();
    let mut i: usize = 0;
    while i < s.inputs.len()
        invariant
            0 <= i <= s.inputs.len(),
            inputs@.len() == i,
            forall|j: int| 0 <= j < i ==> view_of_param(#[trigger] inputs@[j]) == view_of_param(
                s.inputs@[j],
            ),
        decreases s.inputs.len() - i,
    {
        inputs.push(clone_param(&s.inputs[i]));
        i += 1;
    }
    let output = match &s.output {
        Option::Some(t) => Option::Some(clone_type(t)),
        Option::None => Option::None,
    };
    proof {
        lemma_views_of_params_len(inputs@);
        lemma_views_of_params_len(s.inputs@);
        assert forall|j: int| 0 <= j < s.inputs@.len() implies views_of_params(inputs@)[j]
            == views_of_params(s.inputs@)[j] by {
            lemma_views_of_params_index(inputs@, j);
            lemma_views_of_params_index(s.inputs@, j);
        }
        assert(views_of_params(inputs@) =~= views_of_params(s.inputs@));
    }
    Signature { ident: s.ident.clone(), inputs, output }
}

impl Clone for Signature {
    /// A deep copy with the same view.
    fn clone(&self) -> (r: Self)
        ensures
            r@ == self@,
    {
        clone_signature(self)
    }
}

} // verus!
