//! The interface normalizer: every structural rejection, and the
//! canonical shapes of the accepted signatures.

use trait_bridge::sig::{ArgName, MaybeSelf, SigError, Signature, VerifiedSignature};
use trait_bridge::ty::{PathArgs, PathSegment, SelfKind, Type, TypePath};

fn plain_ty(name: &str) -> Type {
    Type::Path(TypePath {
        leading_colon: false,
        qself: None,
        segments: vec![PathSegment { ident: name.to_string(), arguments: PathArgs::Plain }],
    })
}

fn self_ty() -> Type {
    plain_ty("Self")
}

fn ref_ty(is_mut: bool, elem: Type) -> Type {
    Type::Reference { lifetime: None, is_mut, elem: Box::new(elem) }
}

fn vec_of_self() -> Type {
    Type::Path(TypePath {
        leading_colon: false,
        qself: None,
        segments: vec![PathSegment {
            ident: "Vec".to_string(),
            arguments: PathArgs::AngleBracketed(vec![trait_bridge::ty::GenArg::Ty(self_ty())]),
        }],
    })
}

fn base_sig(ident: &str, inputs: Vec<Type>, output: Option<Type>) -> Signature {
    Signature {
        is_const: false,
        is_async: false,
        is_unsafe: false,
        abi: None,
        generics_n: 0,
        has_where_clause: false,
        is_variadic: false,
        ident: ident.to_string(),
        inputs,
        output,
    }
}

#[test]
fn test_rejects_const_fn() {
    let mut s = base_sig("f", vec![], None);
    s.is_const = true;
    assert_eq!(VerifiedSignature::try_new(&s).err(), Some(SigError::ConstFn));
}

#[test]
fn test_rejects_suspendable_fn() {
    let mut s = base_sig("f", vec![], None);
    s.is_async = true;
    assert_eq!(VerifiedSignature::try_new(&s).err(), Some(SigError::AsyncFn));
}

#[test]
fn test_rejects_generic_fn() {
    let mut s = base_sig("f", vec![], None);
    s.generics_n = 1;
    assert_eq!(VerifiedSignature::try_new(&s).err(), Some(SigError::GenericFn));
}

#[test]
fn test_rejects_where_clause() {
    let mut s = base_sig("f", vec![], None);
    s.has_where_clause = true;
    assert_eq!(VerifiedSignature::try_new(&s).err(), Some(SigError::WhereClauseFn));
}

#[test]
fn test_rejects_variadic_fn() {
    let mut s = base_sig("f", vec![], None);
    s.is_variadic = true;
    assert_eq!(VerifiedSignature::try_new(&s).err(), Some(SigError::VariadicFn));
}

#[test]
fn test_rejects_nested_self_parameter() {
    // `Self` buried inside a generic argument is too complex a shape.
    let s = base_sig("f", vec![ref_ty(false, self_ty()), vec_of_self()], None);
    assert_eq!(VerifiedSignature::try_new(&s).err(), Some(SigError::TooComplexSelfArg(1)));
}

#[test]
fn test_rejects_nested_self_return() {
    let s = base_sig("f", vec![ref_ty(false, self_ty())], Some(vec_of_self()));
    assert_eq!(VerifiedSignature::try_new(&s).err(), Some(SigError::TooComplexSelfReturn));
}

#[test]
fn test_accepts_recognized_self_shapes() {
    let s = base_sig(
        "f",
        vec![
            self_ty(),
            ref_ty(false, self_ty()),
            ref_ty(true, self_ty()),
            Type::Ptr { is_mut: false, elem: Box::new(self_ty()) },
            plain_ty("u64"),
        ],
        Some(self_ty()),
    );
    let v = VerifiedSignature::try_new(&s).ok().unwrap();
    assert!(matches!(v.inputs[0], MaybeSelf::Self_(SelfKind::Value)));
    assert!(matches!(v.inputs[1], MaybeSelf::Self_(SelfKind::Ref { is_mut: false, .. })));
    assert!(matches!(v.inputs[2], MaybeSelf::Self_(SelfKind::Ref { is_mut: true, .. })));
    assert!(matches!(v.inputs[3], MaybeSelf::Self_(SelfKind::Ptr { is_mut: false })));
    assert!(matches!(v.inputs[4], MaybeSelf::Typed(_)));
    assert!(v.is_return_self_value());
}

#[test]
fn test_receiver_position_alone_keeps_the_receiver_name() {
    // A self-placeholder outside the first position is given a positional
    // name: only the first parameter may carry the receiver's convention.
    let s = base_sig("add", vec![self_ty(), self_ty()], Some(self_ty()));
    let v = VerifiedSignature::try_new(&s).ok().unwrap();
    let names = v.arg_names();
    assert_eq!(names, vec![ArgName::SelfName, ArgName::Positional(1)]);
    let no_self = v.arg_names_no_self();
    assert_eq!(no_self, vec![ArgName::Positional(0), ArgName::Positional(1)]);
}

#[test]
fn test_substitutes_the_proxy_for_the_placeholder() {
    let s = base_sig("get", vec![ref_ty(false, self_ty())], Some(plain_ty("u64")));
    let v = VerifiedSignature::try_new(&s).ok().unwrap();
    let types = v.arg_types(&plain_ty("CounterProxy"));
    assert_eq!(types.len(), 1);
    match &types[0] {
        Type::Reference { is_mut, elem, .. } => {
            assert!(!is_mut);
            match elem.as_ref() {
                Type::Path(p) => assert_eq!(p.segments[0].ident, "CounterProxy"),
                _ => panic!("the receiver must become a proxy reference"),
            }
        },
        _ => panic!("the receiver must stay behind a reference"),
    }
    match v.return_type(&plain_ty("CounterProxy")) {
        Some(Type::Path(p)) => assert_eq!(p.segments[0].ident, "u64"),
        _ => panic!("a concrete return type must be kept"),
    }
}
