//! The implementation-side binding: the capacity rule of each layout
//! policy and the structural rejections.

use trait_bridge::decl::ImplArgs;
use trait_bridge::imp::{check_capacity, expand, ImplBlock, ImplError, ReprPolicy};
use trait_bridge::ty::{PathArgs, PathSegment, Type, TypePath};

fn plain_ty(name: &str) -> Type {
    Type::Path(TypePath {
        leading_colon: false,
        qself: None,
        segments: vec![PathSegment { ident: name.to_string(), arguments: PathArgs::Plain }],
    })
}

fn args() -> ImplArgs {
    ImplArgs { crate_path: "::trait_bridge".to_string() }
}

fn block() -> ImplBlock {
    ImplBlock {
        is_trait_impl: true,
        trait_name: "Counter".to_string(),
        self_ty: plain_ty("CounterImpl"),
        generics_n: 0,
        has_where_clause: false,
    }
}

#[test]
fn test_register_pair_capacity() {
    // Two machine words of eight bytes each.
    assert!(check_capacity(&ReprPolicy::RegisterPair, 0));
    assert!(check_capacity(&ReprPolicy::RegisterPair, 16));
    assert!(!check_capacity(&ReprPolicy::RegisterPair, 17));
}

#[test]
fn test_sized_buffer_capacity() {
    assert!(check_capacity(&ReprPolicy::SizedBuffer(4), 4));
    assert!(!check_capacity(&ReprPolicy::SizedBuffer(4), 5));
}

#[test]
fn test_impl_expansion() {
    let e = expand(&args(), &block()).ok().unwrap();
    assert_eq!(e.size_assertion.max_bytes, 16);
    assert_eq!(e.invocation.trait_name, "Counter");
    match &e.invocation.self_ty {
        Type::Path(p) => assert_eq!(p.segments[0].ident, "CounterImpl"),
        _ => panic!("the concrete type is carried through"),
    }
}

#[test]
fn test_impl_rejections() {
    let mut b = block();
    b.is_trait_impl = false;
    assert_eq!(expand(&args(), &b).err(), Some(ImplError::NotTraitImpl));

    let mut b = block();
    b.generics_n = 2;
    assert_eq!(expand(&args(), &b).err(), Some(ImplError::ImplGenerics));

    let mut b = block();
    b.has_where_clause = true;
    assert_eq!(expand(&args(), &b).err(), Some(ImplError::ImplWhereClause));
}
