//! The proxy shape builder.
//!
//! The declaration attribute's argument names the proxy type.  Whatever the
//! implementing type looks like, the proxy declared for it is always the
//! same shape: exactly two opaque word-sized slots, never dereferenced by
//! consumers, so the proxy acquires no host-visible layout and stays within
//! the two-word size budget the registration site enforces.

use vstd::prelude::*;

use crate::ty::{Type, TypeView, views_of_types, view_of_type, lemma_views_of_types_len,
    lemma_views_of_types_index};

verus! {

/// The visibility requested for the proxy type; it is passed through to the
/// generated declaration and never branched on.
#[derive(Clone, Copy, Debug, PartialEq, Eq)]
pub enum Visibility {
    /// No visibility keyword.
    Inherited,
    /// `pub`.
    Public,
    /// `pub(...)` with some restriction.
    Restricted,
}

/// The parsed argument of the declaration attribute: the name and
/// visibility of the proxy type to generate.
#[derive(Debug, PartialEq, Eq)]
pub struct Proxy {
    pub vis: Visibility,
    pub ident: String,
}

/// The declaration of the proxy type itself: a tuple struct whose fields
/// are the opaque slots.
#[derive(Debug, PartialEq, Eq)]
pub struct ProxyStruct {
    pub vis: Visibility,
    pub ident: String,
    pub fields: Vec<Type>,
}

/// One opaque word-sized slot: a `*const ()`.
pub open spec fn opaque_word_view() -> TypeView {
    TypeView::Ptr(false, Box::new(TypeView::Tuple(Seq::empty())))
}

/// What the proxy declaration must look like: the requested name and
/// visibility over exactly two opaque word-sized slots.
pub open spec fn proxy_struct_ok(ps: ProxyStruct, arg: Proxy) -> bool {
    &&& ps.vis == arg.vis
    &&& ps.ident@ == arg.ident@
    &&& views_of_types(ps.fields@) =~= seq![opaque_word_view(), opaque_word_view()]
}

/// One opaque word-sized slot, as a type expression.
fn opaque_word() -> (r: Type)
    ensures
        r@ == opaque_word_view(),
{
    let empty: Vec<Type> = Vec::new();
    proof {
        assert(views_of_types(empty@) =~= Seq::empty());
    }
    let r = Type::Ptr(false, Box::new(Type::Tuple(empty)));
    proof {
        reveal_with_fuel(view_of_type, 3);
        assert(r@ == opaque_word_view());
    }
    r
}

impl Proxy {
    /// The declaration of the proxy type this argument asks for.
    pub fn into_struct(self) -> (r: ProxyStruct)
        ensures
            proxy_struct_ok(r, self),
    {
        let mut fields: Vec<Type> = Vec::new();
        fields.push(opaque_word());
        fields.push(opaque_word());
        proof {
            lemma_views_of_types_len(fields@);
            lemma_views_of_types_index(fields@, 0);
            lemma_views_of_types_index(fields@, 1);
            assert(views_of_types(fields@) =~= seq![opaque_word_view(), opaque_word_view()]);
        }
        ProxyStruct { vis: self.vis, ident: self.ident, fields }
    }
}

} // verus!
