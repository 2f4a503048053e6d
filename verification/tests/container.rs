use whirled::container::CounterMap;

#[test]
fn keys_count_up_from_zero() {
    let mut m: CounterMap<&str> = CounterMap::new();
    assert_eq!(m.insert("a"), 0);
    assert_eq!(m.insert("b"), 1);
    assert_eq!(m.insert("c"), 2);
    assert_eq!(m.len(), 3);
    assert_eq!(m.get(&0), Some(&"a"));
    assert_eq!(m.get(&2), Some(&"c"));
    assert_eq!(m.get(&3), None);
}

#[test]
fn drain_hands_values_out_in_insertion_order() {
    let mut m: CounterMap<u32> = CounterMap::new();
    m.insert(10);
    m.insert(20);
    m.insert(30);
    let out = m.drain();
    assert_eq!(out, vec![10, 20, 30]);
    assert_eq!(m.len(), 0);
}

#[test]
fn keys_are_never_reused_after_a_drain() {
    let mut m: CounterMap<u32> = CounterMap::new();
    let k0 = m.insert(10);
    let k1 = m.insert(20);
    let _ = m.drain();
    assert_eq!(m.get(&k0), None);
    assert_eq!(m.get(&k1), None);
    let k2 = m.insert(99);
    assert_eq!(k2, 2);
    assert_eq!(m.get(&k2), Some(&99));
    assert_eq!(m.get(&k0), None);
}

#[test]
fn reserve_changes_nothing_observable() {
    let mut m: CounterMap<u8> = CounterMap::new();
    m.insert(1);
    m.reserve(100);
    assert_eq!(m.len(), 1);
    assert_eq!(m.get(&0), Some(&1));
    assert_eq!(m.insert(2), 1);
}
