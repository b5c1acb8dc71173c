//! The symbol deriver: the hash's reference values, determinism, and
//! collision freedom between distinct generation sites.

use trait_bridge::hash;
use trait_bridge::sym::{ModuleIdentity, Symbol};

fn identity(pkg: &str, manifest: &str) -> ModuleIdentity {
    ModuleIdentity {
        package: Some(pkg.to_string()),
        version: Some("1.0.0".to_string()),
        crate_name: Some(pkg.to_string()),
        manifest_path: Some(manifest.to_string()),
    }
}

#[test]
fn test_hash_reference_values() {
    assert_eq!(hash(""), 0xcbf29ce484222325);
    assert_eq!(hash("a"), 0xaf63dc4c8601ec8c);
    assert_eq!(hash("foobar"), 0x85944171f73967e8);
}

#[test]
fn test_symbol_is_deterministic() {
    let a = Symbol::new("Greeter".to_string(), &identity("pkg", "/a/Cargo.toml"), "site-1")
        .with_name("greet")
        .render();
    let b = Symbol::new("Greeter".to_string(), &identity("pkg", "/a/Cargo.toml"), "site-1")
        .with_name("greet")
        .render();
    assert_eq!(a, b);
}

#[test]
fn test_distinct_sites_never_collide() {
    // Same interface name, same member, two distinct generation sites.
    let a = Symbol::new("Greeter".to_string(), &identity("pkg", "/a/Cargo.toml"), "site-1")
        .with_name("greet")
        .render();
    let b = Symbol::new("Greeter".to_string(), &identity("pkg", "/a/Cargo.toml"), "site-2")
        .with_name("greet")
        .render();
    assert_ne!(a, b);

    // Same everything but the module identity.
    let c = Symbol::new("Greeter".to_string(), &identity("other", "/b/Cargo.toml"), "site-1")
        .with_name("greet")
        .render();
    assert_ne!(a, c);
}

#[test]
fn test_members_never_collide() {
    let sym = Symbol::new("Greeter".to_string(), &identity("pkg", "/a/Cargo.toml"), "site-1");
    let drop_sym = sym.with_name("drop").render();
    let typeid_sym = sym.with_name("typeid").render();
    let method_sym = sym.with_name("greet").render();
    assert_ne!(drop_sym, typeid_sym);
    assert_ne!(drop_sym, method_sym);
    assert_ne!(typeid_sym, method_sym);
}

#[test]
fn test_symbol_exact_rendering() {
    // The whole wire format of one symbol: the fixed marker, then each
    // field length-prefixed with sixteen hex digits, the two disambiguators
    // as plain sixteen-digit fields.
    let s = Symbol::new("Greeter".to_string(), &identity("pkg", "/a/Cargo.toml"), "site-1")
        .with_name("greet")
        .render();
    assert_eq!(
        s,
        "__trait_bridge_0000000000000002_v0_0000000000000003_pkg_0000000000000005_1.0.0\
         _0000000000000003_pkg_c7a6d8ac12938448_0000000000000007_Greeter_2f805f0177ed56f8\
         _0000000000000005_greet"
    );
}

#[test]
fn test_missing_identity_degrades_to_placeholder() {
    let id = ModuleIdentity { package: None, version: None, crate_name: None, manifest_path: None };
    let a = Symbol::new("Greeter".to_string(), &id, "site-1").with_name("greet").render();
    let b = Symbol::new("Greeter".to_string(), &id, "site-1").with_name("greet").render();
    // Generation does not fail; the fallback is still deterministic.
    assert_eq!(a, b);
    assert!(a.contains("<unknown>"));
}
