//! The runtime protocol of the erased proxy: conversion in both
//! directions, gated reads and writes, and tuple payloads.

use trait_bridge::bridge::ProxyValue;

#[test]
fn test_any() {
    let any: usize = 42;

    let mut any = ProxyValue::from_impl::<usize>(any);
    assert_eq!(any.downcast_ref::<usize>(), 42);

    any.downcast_mut::<usize>(100);
    assert_eq!(any.downcast_ref::<usize>(), 100);

    let any = any.into_impl::<usize>();
    assert_eq!(any, 100);
}

#[test]
fn test_atomic() {
    let mut atomic = ProxyValue::from_impl::<i32>(0);
    assert_eq!(atomic.downcast_ref::<i32>(), 0);

    atomic.downcast_mut::<i32>(42);
    assert_eq!(atomic.downcast_ref::<i32>(), 42);

    atomic.downcast_mut::<i32>(100);
    assert_eq!(atomic.downcast_ref::<i32>(), 100);
}

#[test]
fn tuple_test_tuple() {
    let tuple = ProxyValue::from_impl::<(usize, usize)>((1, 2));
    let (a, b) = tuple.into_impl::<(usize, usize)>();
    assert_eq!(a, 1);
    assert_eq!(b, 2);
}

#[test]
fn size_test_tuple() {
    let tuple = ProxyValue::from_impl::<(u32, u32, u32, u32)>((1, 2, 3, 4));
    let (a, b, c, d) = tuple.into_impl::<(u32, u32, u32, u32)>();
    assert_eq!(a, 1);
    assert_eq!(b, 2);
    assert_eq!(c, 3);
    assert_eq!(d, 4);
}

#[test]
fn test_wrong_type_is_refused() {
    let p = ProxyValue::from_impl::<u64>(7);
    assert!(p.is_impl::<u64>());
    assert!(!p.is_impl::<i32>());
    assert!(p.try_downcast_ref::<i32>().is_none());
    assert_eq!(p.try_downcast_ref::<u64>(), Some(7));
    let p = match p.try_into_impl::<i32>() {
        Ok(_) => panic!("a mismatched conversion must be refused"),
        Err(p) => p,
    };
    match p.try_into_impl::<u64>() {
        Ok(v) => assert_eq!(v, 7),
        Err(_) => panic!("the bound type must convert"),
    }
}

#[test]
fn test_round_trips() {
    assert!(ProxyValue::from_impl::<bool>(true).into_impl::<bool>());
    assert_eq!(ProxyValue::from_impl::<u32>(9).into_impl::<u32>(), 9);
    assert_eq!(ProxyValue::from_impl::<i32>(-5).into_impl::<i32>(), -5);
    assert_eq!(ProxyValue::from_impl::<i64>(-6).into_impl::<i64>(), -6);
    assert_eq!(ProxyValue::from_impl::<u64>(u64::MAX).into_impl::<u64>(), u64::MAX);
    assert_eq!(
        ProxyValue::from_impl::<(u64, u64)>((3, 4)).into_impl::<(u64, u64)>(),
        (3, 4)
    );
    ProxyValue::from_impl::<()>(()).into_impl::<()>();
}
