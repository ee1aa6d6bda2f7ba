use extern_trait::args::{Proxy, Visibility};
use extern_trait::decl::{
    CapabilityImpl, MethodExpansion, Supertrait, TraitDecl, TraitMember, expand,
};
use extern_trait::error::Error;
use extern_trait::imp;
use extern_trait::sig::{Param, Signature};
use extern_trait::symbol::PkgId;
use extern_trait::ty::{GenericArg, PathArgs, Segment, Type};
use extern_trait::{Expansion, MacroInput, extern_trait};

fn seg4(name: &str) -> Segment {
    Segment { ident: String::from(name), arguments: PathArgs::Bare }
}

fn path4(name: &str) -> Type {
    Type::Path(None, vec![seg4(name)])
}

fn self_ty4() -> Type {
    path4("Self")
}

fn pkg4() -> PkgId {
    PkgId {
        name: Some(String::from("gadget")),
        version: Some(String::from("1.2.3")),
        crate_name: Some(String::from("gadget")),
    }
}

fn proxy4(name: &str) -> Proxy {
    Proxy { vis: Visibility::Inherited, ident: String::from(name) }
}

fn trait4(name: &str, supertraits: Vec<Supertrait>, items: Vec<TraitMember>) -> TraitDecl {
    TraitDecl {
        ident: String::from(name),
        is_unsafe: true,
        has_generics: false,
        supertraits,
        items,
    }
}

fn bound(name: &str) -> Supertrait {
    Supertrait::Trait(false, vec![seg4(name)])
}

fn as_ref_bound(target: Type) -> Supertrait {
    Supertrait::Trait(
        false,
        vec![Segment {
            ident: String::from("AsRef"),
            arguments: PathArgs::Angle(vec![GenericArg::Type(Box::new(target))]),
        }],
    )
}

#[test]
fn generic_trait_is_fatal() {
    let mut td = trait4("Widget", vec![], vec![]);
    td.has_generics = true;
    let e = expand(proxy4("WidgetProxy"), &td, &pkg4()).unwrap_err();
    assert_eq!(e, Error::TraitGenerics);
    assert_eq!(e.message(), "#[extern_trait] may not have generics");
}

#[test]
fn safe_trait_is_fatal() {
    let mut td = trait4("Widget", vec![], vec![]);
    td.is_unsafe = false;
    let e = expand(proxy4("WidgetProxy"), &td, &pkg4()).unwrap_err();
    assert_eq!(e, Error::TraitNotUnsafe);
    assert_eq!(e.message(), "#[extern_trait] must be unsafe");
}

#[test]
fn non_method_item_degrades_to_a_marker() {
    let td = trait4(
        "Widget",
        vec![],
        vec![
            TraitMember::Other,
            TraitMember::Method(Signature {
                ident: String::from("refresh"),
                inputs: vec![Param {
                    receiver: true,
                    ty: Type::Reference(true, Box::new(self_ty4())),
                }],
                output: None,
            }),
        ],
    );
    let out = expand(proxy4("WidgetProxy"), &td, &pkg4()).unwrap();
    assert_eq!(out.methods.len(), 2);
    assert_eq!(out.methods[0], MethodExpansion::Fail(Error::NotAMethod));
    assert!(matches!(out.methods[1], MethodExpansion::Proxy(_)));
    assert_eq!(Error::NotAMethod.message(), "#[extern_trait] may only contain methods");
}

#[test]
fn bad_method_does_not_abort_the_trait() {
    let td = trait4(
        "Widget",
        vec![],
        vec![
            TraitMember::Method(Signature {
                ident: String::from("consume"),
                inputs: vec![Param { receiver: true, ty: self_ty4() }],
                output: Some(path4("u64")),
            }),
            TraitMember::Method(Signature {
                ident: String::from("len"),
                inputs: vec![Param {
                    receiver: true,
                    ty: Type::Reference(false, Box::new(self_ty4())),
                }],
                output: Some(path4("usize")),
            }),
        ],
    );
    let out = expand(proxy4("WidgetProxy"), &td, &pkg4()).unwrap();
    assert_eq!(out.methods[0], MethodExpansion::Fail(Error::SelfByValueArg));
    match &out.methods[1] {
        MethodExpansion::Proxy(pm) => {
            assert_eq!(pm.export_name, "__extern_trait_gadget_1.2.3_gadget_Widget_len");
        }
        other => panic!("expected a proxy method, got {:?}", other),
    }
}

#[test]
fn marker_capabilities_are_forwarded() {
    let td = trait4("Widget", vec![bound("Send"), bound("Sync"), bound("Unpin")], vec![]);
    let out = expand(proxy4("WidgetProxy"), &td, &pkg4()).unwrap();
    assert_eq!(
        out.capabilities,
        vec![CapabilityImpl::SendMarker, CapabilityImpl::SyncMarker]
    );
}

#[test]
fn conversion_capability_runs_through_the_rewriter() {
    let td = trait4("Widget", vec![as_ref_bound(path4("str"))], vec![]);
    let out = expand(proxy4("WidgetProxy"), &td, &pkg4()).unwrap();
    assert_eq!(out.capabilities.len(), 1);
    match &out.capabilities[0] {
        CapabilityImpl::AsRefImpl(target, pm) => {
            assert_eq!(*target, path4("str"));
            assert_eq!(pm.export_name, "__extern_trait_gadget_1.2.3_gadget_Widget_AsRef_str");
            assert_eq!(pm.proxy_sig.ident, "as_ref");
            assert_eq!(
                pm.boundary.inputs,
                vec![Type::Reference(false, Box::new(path4("WidgetProxy")))]
            );
            assert_eq!(
                pm.boundary.output,
                Some(Type::Reference(false, Box::new(path4("str"))))
            );
        }
        other => panic!("expected a conversion impl, got {:?}", other),
    }
}

#[test]
fn conversion_to_a_self_bearing_target_is_fatal() {
    let vec_self = Type::Path(
        None,
        vec![Segment {
            ident: String::from("Vec"),
            arguments: PathArgs::Angle(vec![GenericArg::Type(Box::new(self_ty4()))]),
        }],
    );
    let td = trait4("Widget", vec![as_ref_bound(vec_self)], vec![]);
    let e = expand(proxy4("WidgetProxy"), &td, &pkg4()).unwrap_err();
    assert_eq!(e, Error::TooComplexReturn);
}

#[test]
fn registration_validates_the_impl() {
    let good = imp::ImplBlock {
        trait_path: Some(vec![seg4("Widget")]),
        has_generics: false,
        has_where_clause: false,
        self_ty: path4("RealWidget"),
    };
    let out = imp::expand(&good).unwrap();
    assert_eq!(out.size_check, path4("RealWidget"));
    assert_eq!(out.binder_path, vec![seg4("Widget")]);
    assert_eq!(out.binder_self_ty, path4("RealWidget"));

    let inherent = imp::ImplBlock { trait_path: None, ..good_clone(&good) };
    assert_eq!(imp::expand(&inherent).unwrap_err(), Error::NotATraitImpl);

    let generic = imp::ImplBlock { has_generics: true, ..good_clone(&good) };
    let e = imp::expand(&generic).unwrap_err();
    assert_eq!(e, Error::ImplGenerics);
    assert_eq!(e.message(), "#[extern_trait] impls may not have generics");

    let with_where = imp::ImplBlock { has_where_clause: true, ..good_clone(&good) };
    let e = imp::expand(&with_where).unwrap_err();
    assert_eq!(e, Error::ImplWhereClause);
    assert_eq!(e.message(), "#[extern_trait] impls may not have a where clause");
}

fn good_clone(b: &imp::ImplBlock) -> imp::ImplBlock {
    imp::ImplBlock {
        trait_path: Some(vec![seg4("Widget")]),
        has_generics: b.has_generics,
        has_where_clause: b.has_where_clause,
        self_ty: path4("RealWidget"),
    }
}

#[test]
fn entry_point_dispatches_on_the_argument() {
    let td = trait4("Widget", vec![], vec![]);
    let ib = imp::ImplBlock {
        trait_path: Some(vec![seg4("Widget")]),
        has_generics: false,
        has_where_clause: false,
        self_ty: path4("RealWidget"),
    };
    let declared = extern_trait(
        Some(proxy4("WidgetProxy")),
        MacroInput::Trait(trait4("Widget", vec![], vec![])),
        &pkg4(),
    );
    assert!(matches!(declared, Ok(Expansion::Decl(_))));
    let registered = extern_trait(None, MacroInput::Impl(good_clone(&ib)), &pkg4());
    assert!(matches!(registered, Ok(Expansion::Reg(_))));

    let e = extern_trait(Some(proxy4("WidgetProxy")), MacroInput::Impl(ib), &pkg4());
    assert_eq!(e.unwrap_err(), Error::ExpectedTrait);
    let e = extern_trait(None, MacroInput::Trait(td), &pkg4());
    assert_eq!(e.unwrap_err(), Error::ExpectedImpl);
}

#[test]
fn proxy_declaration_is_two_opaque_words() {
    let td = trait4("Widget", vec![], vec![]);
    let out = expand(proxy4("WidgetProxy"), &td, &pkg4()).unwrap();
    assert_eq!(out.proxy.ident, "WidgetProxy");
    let word = || Type::Ptr(false, Box::new(Type::Tuple(vec![])));
    assert_eq!(out.proxy.fields, vec![word(), word()]);
}
