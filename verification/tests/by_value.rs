//! By-value receiver round trips across the erased representation: a
//! counter value is packed, unpacked, advanced, and repacked, and the
//! accumulated number survives every crossing.

use trait_bridge::bridge::ProxyValue;

fn counter_new(value: u64) -> ProxyValue {
    ProxyValue::from_impl::<u64>(value)
}

fn counter_get(c: &ProxyValue) -> u64 {
    c.downcast_ref::<u64>()
}

fn counter_increment(c: ProxyValue) -> ProxyValue {
    let v = c.into_impl::<u64>();
    ProxyValue::from_impl::<u64>(v + 1)
}

fn counter_add(a: ProxyValue, b: ProxyValue) -> ProxyValue {
    let x = a.into_impl::<u64>();
    let y = b.into_impl::<u64>();
    ProxyValue::from_impl::<u64>(x + y)
}

#[test]
fn test_by_value_self() {
    let counter = counter_new(10);
    assert_eq!(counter_get(&counter), 10);

    let counter = counter_increment(counter);
    assert_eq!(counter_get(&counter), 11);

    let counter = counter_increment(counter_increment(counter));
    assert_eq!(counter_get(&counter), 13);
}

#[test]
fn test_by_value_self_with_other() {
    let a = counter_new(5);
    let b = counter_new(7);

    let result = counter_add(a, b);
    assert_eq!(counter_get(&result), 12);
}

#[test]
fn test_chained_operations() {
    let result = counter_increment(
        counter_increment(counter_add(counter_increment(counter_new(1)), counter_new(10))),
    );
    assert_eq!(counter_get(&result), 14);
}
