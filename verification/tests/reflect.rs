//! Declaring an empty marker trait and registering a one-word concrete
//! type against it.  With no methods to forward, everything the two sites
//! must still agree on is the proxy's shape, the size contract, and the
//! destructor wiring.

use extern_trait::args::{Proxy, Visibility};
use extern_trait::decl::{TraitDecl, expand};
use extern_trait::imp::{ImplBlock, expand as register, instantiate_binder, size_fits};
use extern_trait::symbol::PkgId;
use extern_trait::ty::{PathArgs, Segment, Type};

fn seg6(name: &str) -> Segment {
    Segment { ident: String::from(name), arguments: PathArgs::Bare }
}

fn path6(name: &str) -> Type {
    Type::Path(None, vec![seg6(name)])
}

#[test]
fn test_any() {
    // unsafe trait Any {} — no methods at all.
    let any = TraitDecl {
        ident: String::from("Any"),
        is_unsafe: true,
        has_generics: false,
        supertraits: vec![],
        items: vec![],
    };
    let pkg = PkgId {
        name: Some(String::from("extern_trait")),
        version: Some(String::from("0.1.0")),
        crate_name: Some(String::from("reflect")),
    };
    let decl = expand(
        Proxy { vis: Visibility::Inherited, ident: String::from("AnyProxy") },
        &any,
        &pkg,
    )
    .unwrap();
    assert_eq!(decl.methods.len(), 0);
    // The proxy is always exactly two opaque word slots, whatever the
    // implementing type looks like.
    assert_eq!(decl.proxy.fields.len(), 2);

    // A single-word payload fits the two-word budget; grossly oversized
    // types do not.
    let word = std::mem::size_of::<usize>();
    assert!(size_fits(std::mem::size_of::<usize>(), word));
    assert!(!size_fits(42, word));
    assert!(!size_fits(100, word));

    let registration = register(&ImplBlock {
        trait_path: Some(vec![seg6("Any")]),
        has_generics: false,
        has_where_clause: false,
        self_ty: path6("AnyImpl"),
    })
    .unwrap();
    assert_eq!(registration.size_check, path6("AnyImpl"));

    // With no methods the binder still wires the destructor, and both
    // sides agree on its exported name.
    let binder = instantiate_binder(&decl, &path6("AnyImpl"));
    assert_eq!(binder.thunks.len(), 0);
    assert_eq!(binder.drop_export, decl.drop_symbol);
    assert_eq!(binder.drop_export, "__extern_trait_extern_trait_0.1.0_reflect_Any_drop");
}
