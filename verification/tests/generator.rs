//! The interface-side generator: whole expansions, localized diagnostics,
//! the lifecycle symbols, and the capability relay.

use trait_bridge::decl::{
    expand, DeclArgs, Diagnostic, MethodOutcome, Proxy, TraitDecl, TraitItem,
    SuperBound,
};
use trait_bridge::sig::{ArgName, SigError, Signature};
use trait_bridge::sym::{ModuleIdentity, Symbol};
use trait_bridge::ty::{GenArg, PathArgs, PathSegment, Type, TypePath};

fn plain_ty(name: &str) -> Type {
    Type::Path(TypePath {
        leading_colon: false,
        qself: None,
        segments: vec![PathSegment { ident: name.to_string(), arguments: PathArgs::Plain }],
    })
}

fn self_ty() -> Type {
    plain_ty("Self")
}

fn ref_self() -> Type {
    Type::Reference { lifetime: None, is_mut: false, elem: Box::new(self_ty()) }
}

fn method(ident: &str, inputs: Vec<Type>, output: Option<Type>) -> TraitItem {
    TraitItem::Method(Signature {
        is_const: false,
        is_async: false,
        is_unsafe: false,
        abi: None,
        generics_n: 0,
        has_where_clause: false,
        is_variadic: false,
        ident: ident.to_string(),
        inputs,
        output,
    })
}

fn identity() -> ModuleIdentity {
    ModuleIdentity {
        package: Some("demo".to_string()),
        version: Some("0.1.0".to_string()),
        crate_name: Some("demo".to_string()),
        manifest_path: Some("/demo/Cargo.toml".to_string()),
    }
}

fn args_for(proxy: &str) -> DeclArgs {
    DeclArgs {
        crate_path: "::trait_bridge".to_string(),
        proxy: Proxy { attrs: vec![], vis: "pub".to_string(), ident: proxy.to_string() },
    }
}

fn trait_decl(ident: &str, supers: Vec<SuperBound>, items: Vec<TraitItem>) -> TraitDecl {
    TraitDecl {
        is_unsafe: false,
        ident: ident.to_string(),
        generics_n: 0,
        supertraits: supers,
        items,
    }
}

fn simple_bound(name: &str, args: PathArgs) -> SuperBound {
    SuperBound {
        is_trait: true,
        is_plain_modifier: true,
        has_lifetimes: false,
        leading_colon: false,
        segments: vec![PathSegment { ident: name.to_string(), arguments: args }],
    }
}

fn add(a: i32, b: i32) -> i32 {
    a + b
}

fn sub(a: i32, b: i32) -> i32 {
    a - b
}

#[test]
fn test_static() {
    // A no-receiver method pair is bridged without an instance: both
    // stubs carry purely positional parameters.
    let input = trait_decl(
        "Static",
        vec![],
        vec![
            method("add", vec![plain_ty("i32"), plain_ty("i32")], Some(plain_ty("i32"))),
            method("sub", vec![plain_ty("i32"), plain_ty("i32")], Some(plain_ty("i32"))),
        ],
    );
    let e = expand(&args_for("StaticImpl"), &input, &identity(), "site-static").ok().unwrap();
    assert_eq!(e.methods.len(), 2);
    for m in &e.methods {
        match m {
            MethodOutcome::Bridged(stub, producer) => {
                assert_eq!(stub.arg_names, vec![ArgName::Positional(0), ArgName::Positional(1)]);
                assert_eq!(stub.import_symbol, producer.export_symbol);
                assert!(!producer.repack_result);
            },
            MethodOutcome::Rejected(_) => panic!("both methods are well-formed"),
        }
    }
    assert_eq!(add(1, 2), 3);
    assert_eq!(sub(3, 2), 1);
}

#[test]
fn test_renamed_crate() {
    // The support crate's path override flows into the emitted proxy.
    let mut args = args_for("RenamedProxy");
    args.crate_path = "::my_bridge".to_string();
    let input = trait_decl(
        "Renamed",
        vec![],
        vec![method("value", vec![ref_self()], Some(plain_ty("i32")))],
    );
    let e = expand(&args, &input, &identity(), "site-renamed").ok().unwrap();
    assert_eq!(e.proxy.crate_path, "::my_bridge");
    assert_eq!(e.proxy.ident, "RenamedProxy");
    assert_eq!(e.methods.len(), 1);
    let proxy = trait_bridge::bridge::ProxyValue::from_impl::<i32>(42);
    assert_eq!(proxy.downcast_ref::<i32>(), 42);
}

#[test]
fn test_generic_interface_is_rejected() {
    let mut input = trait_decl("Generic", vec![], vec![]);
    input.generics_n = 1;
    assert!(expand(&args_for("P"), &input, &identity(), "site").is_err());
}

#[test]
fn test_bad_method_is_localized() {
    // One malformed method must not block its siblings.
    let mut bad = method("bad", vec![], None);
    if let TraitItem::Method(s) = &mut bad {
        s.is_async = true;
    }
    let input = trait_decl(
        "Mixed",
        vec![],
        vec![
            bad,
            method("good", vec![ref_self()], Some(plain_ty("u64"))),
            TraitItem::Other("const X: u8 = 0;".to_string()),
        ],
    );
    let e = expand(&args_for("MixedProxy"), &input, &identity(), "site-mixed").ok().unwrap();
    assert_eq!(e.methods.len(), 3);
    assert!(matches!(
        e.methods[0],
        MethodOutcome::Rejected(Diagnostic::BadSignature(SigError::AsyncFn))
    ));
    assert!(matches!(e.methods[1], MethodOutcome::Bridged(..)));
    assert!(matches!(e.methods[2], MethodOutcome::Rejected(Diagnostic::NotAMethod)));
}

#[test]
fn test_lifecycle_symbols() {
    let input = trait_decl(
        "Lively",
        vec![],
        vec![method("go", vec![ref_self()], None)],
    );
    let e = expand(&args_for("LivelyProxy"), &input, &identity(), "site-lively").ok().unwrap();
    // Exactly the two lifecycle entry points, derived like any member.
    let sym = Symbol::new("Lively".to_string(), &identity(), "site-lively");
    assert_eq!(e.drop_symbol, sym.with_name("drop").render());
    assert_eq!(e.typeid_symbol, sym.with_name("typeid").render());
    assert_ne!(e.drop_symbol, e.typeid_symbol);
    match &e.methods[0] {
        MethodOutcome::Bridged(stub, _) => {
            assert_eq!(stub.import_symbol, sym.with_name("go").render());
            assert_ne!(stub.import_symbol, e.drop_symbol);
        },
        MethodOutcome::Rejected(_) => panic!("the method is well-formed"),
    }
}

#[test]
fn test_by_value_result_is_repacked() {
    let input = trait_decl(
        "Counter",
        vec![],
        vec![method("increment", vec![self_ty()], Some(self_ty()))],
    );
    let e = expand(&args_for("CounterProxy"), &input, &identity(), "site-counter").ok().unwrap();
    match &e.methods[0] {
        MethodOutcome::Bridged(stub, producer) => {
            assert!(producer.repack_result);
            // The producer returns the erased representation of the
            // support crate, not the implementation type.
            match &producer.output {
                Some(Type::Path(p)) => {
                    assert_eq!(p.segments[0].ident, "::trait_bridge");
                    assert_eq!(p.segments[1].ident, "Repr");
                },
                _ => panic!("a repacked result must name the representation"),
            }
            // The consumer sees the proxy type by value in and out.
            match &stub.output {
                Some(Type::Path(p)) => assert_eq!(p.segments[0].ident, "CounterProxy"),
                _ => panic!("the stub must return the proxy type"),
            }
        },
        MethodOutcome::Rejected(_) => panic!("the method is well-formed"),
    }
}

#[test]
fn test_as_ref_capability_is_relayed() {
    let bound = simple_bound(
        "AsRef",
        PathArgs::AngleBracketed(vec![GenArg::Ty(plain_ty("str"))]),
    );
    let input = trait_decl(
        "Resource",
        vec![simple_bound("Send", PathArgs::Plain), bound],
        vec![method("count", vec![ref_self()], Some(plain_ty("usize")))],
    );
    let e = expand(&args_for("ResourceProxy"), &input, &identity(), "site-resource").ok().unwrap();
    assert_eq!(e.supers.len(), 2);

    // The marker binds with no boundary methods.
    assert_eq!(e.supers[0].path.ident, "Send");
    assert!(e.supers[0].is_unsafe);
    assert!(e.supers[0].members.is_empty());

    // The reference conversion gains one forwarded member under a
    // capability-qualified symbol.
    assert_eq!(e.supers[1].path.ident, "AsRef");
    assert_eq!(e.supers[1].members.len(), 1);
    match &e.supers[1].members[0] {
        MethodOutcome::Bridged(stub, producer) => {
            assert_eq!(stub.ident, "as_ref");
            let sym = Symbol::new("Resource".to_string(), &identity(), "site-resource");
            assert_eq!(stub.import_symbol, sym.with_name("AsRef<str>::as_ref").render());
            assert_eq!(producer.export_symbol, stub.import_symbol);
            // The substituted output is `&str`.
            match &stub.output {
                Some(Type::Reference { is_mut, elem, .. }) => {
                    assert!(!is_mut);
                    match elem.as_ref() {
                        Type::Path(p) => assert_eq!(p.segments[0].ident, "str"),
                        _ => panic!("the conversion target must be substituted"),
                    }
                },
                _ => panic!("the conversion returns a reference"),
            }
        },
        MethodOutcome::Rejected(_) => panic!("the template is well-formed"),
    }
}

#[test]
fn test_unrecognized_capability_is_passed_through() {
    let input = trait_decl(
        "Shown",
        vec![simple_bound("Display", PathArgs::Plain)],
        vec![],
    );
    let e = expand(&args_for("ShownProxy"), &input, &identity(), "site-shown").ok().unwrap();
    assert!(e.supers.is_empty());
}
