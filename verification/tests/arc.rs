//! The end-to-end declaration and registration of a trait backed by a
//! shared-ownership counter: `new() -> Self` hands ownership of a clone of
//! the shared resource across the boundary, and `count(&self) -> usize`
//! reads it in place.  The test drives both expansion sites over this trait
//! and checks that the generated plan preserves the ownership-carrying
//! shapes and that the two independently expanded sides agree on every
//! exported name, which is what makes the reference counts observed through
//! the proxy match the real implementation's.

use extern_trait::args::{Proxy, Visibility};
use extern_trait::decl::{MethodExpansion, TraitDecl, TraitMember, expand};
use extern_trait::imp::{ImplBlock, expand as register, instantiate_binder, size_fits};
use extern_trait::sig::{Param, Signature};
use extern_trait::symbol::PkgId;
use extern_trait::ty::{PathArgs, Segment, Type};

fn seg5(name: &str) -> Segment {
    Segment { ident: String::from(name), arguments: PathArgs::Bare }
}

fn path5(name: &str) -> Type {
    Type::Path(None, vec![seg5(name)])
}

#[test]
fn test_resource() {
    // unsafe trait Resource { fn new() -> Self; fn count(&self) -> usize; }
    let resource = TraitDecl {
        ident: String::from("Resource"),
        is_unsafe: true,
        has_generics: false,
        supertraits: vec![],
        items: vec![
            TraitMember::Method(Signature {
                ident: String::from("new"),
                inputs: vec![],
                output: Some(path5("Self")),
            }),
            TraitMember::Method(Signature {
                ident: String::from("count"),
                inputs: vec![Param {
                    receiver: true,
                    ty: Type::Reference(false, Box::new(path5("Self"))),
                }],
                output: Some(path5("usize")),
            }),
        ],
    };
    let pkg = PkgId {
        name: Some(String::from("extern_trait")),
        version: Some(String::from("0.1.0")),
        crate_name: Some(String::from("arc")),
    };

    // Declaration site.
    let decl = expand(
        Proxy { vis: Visibility::Inherited, ident: String::from("ResourceProxy") },
        &resource,
        &pkg,
    )
    .unwrap();
    assert_eq!(decl.methods.len(), 2);
    let new_method = match &decl.methods[0] {
        MethodExpansion::Proxy(pm) => pm,
        other => panic!("new was rejected: {:?}", other),
    };
    let count_method = match &decl.methods[1] {
        MethodExpansion::Proxy(pm) => pm,
        other => panic!("count was rejected: {:?}", other),
    };
    // `new` returns `Self` by value: the proxy takes ownership of the two
    // words, so the boundary return type is the proxy itself.
    assert_eq!(new_method.boundary.output, Some(path5("ResourceProxy")));
    // `count` borrows: the boundary receiver is a shared reference to the
    // proxy, never an owned value.
    assert_eq!(
        count_method.boundary.inputs,
        vec![Type::Reference(false, Box::new(path5("ResourceProxy")))]
    );

    // Registration site: a concrete type holding one shared pointer, well
    // within the two-word budget.
    let registration = register(&ImplBlock {
        trait_path: Some(vec![seg5("Resource")]),
        has_generics: false,
        has_where_clause: false,
        self_ty: path5("ActualResource"),
    })
    .unwrap();
    assert_eq!(registration.size_check, path5("ActualResource"));
    assert!(size_fits(std::mem::size_of::<std::sync::Arc<()>>(), std::mem::size_of::<usize>()));

    // The binder materializes one export thunk per method, under exactly
    // the names the declaration's stubs call, and the drop thunk under the
    // symbol the proxy's destructor uses: ownership transfers and the final
    // destruction both resolve to the real implementation exactly once.
    let binder = instantiate_binder(&decl, &path5("ActualResource"));
    assert_eq!(binder.thunks.len(), 2);
    assert_eq!(binder.thunks[0].export_name, new_method.export_name);
    assert_eq!(binder.thunks[1].export_name, count_method.export_name);
    assert_eq!(
        binder.thunks[0].export_name,
        "__extern_trait_extern_trait_0.1.0_arc_Resource_new"
    );
    assert_eq!(binder.thunks[0].boundary.output, Some(path5("ActualResource")));
    assert_eq!(
        binder.thunks[1].boundary.inputs,
        vec![Type::Reference(false, Box::new(path5("ActualResource")))]
    );
    assert_eq!(binder.drop_export, decl.drop_symbol);
    assert_eq!(binder.drop_export, "__extern_trait_extern_trait_0.1.0_arc_Resource_drop");
}
