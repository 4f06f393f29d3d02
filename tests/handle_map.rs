use handle_map::{Handle, HandleMap};

#[test]
fn insert_and_get() {
    let mut map = HandleMap::new();

    let one_handle = map.insert("one", 1);
    let five_handle = map.insert("five", 5);

    assert_eq!(1, *map.index(one_handle));
    assert_eq!(5, *map.index(five_handle));
}

#[test]
fn lookup_by_name_reads_back_each_value() {
    let mut map = HandleMap::new();
    let names = ["alpha", "beta", "gamma", "delta"];
    for (i, name) in names.iter().enumerate() {
        let h = map.insert(name, i * 10);
        assert_eq!(map.handle(name), Some(h));
        assert_eq!(*map.index(h), i * 10);
    }
    for (i, name) in names.iter().enumerate() {
        let h = map.handle(name).unwrap();
        assert!(map.is_alive(h));
        assert_eq!(h.index(), i);
        assert_eq!(*map.index(h), i * 10);
    }
}

#[test]
fn unknown_name_has_no_handle() {
    let mut map = HandleMap::new();
    assert_eq!(map.handle("a"), None);
    map.insert("a", 'a');
    assert_eq!(map.handle("b"), None);
    assert!(map.handle("a").is_some());
}

#[test]
fn pop_kills_handle_and_forgets_name() {
    let mut map = HandleMap::new();
    let ha = map.insert("A", 1);
    let hb = map.insert("B", 2);
    assert_eq!(map.pop(), Some(2));
    assert!(!map.is_alive(hb));
    assert_eq!(map.handle("B"), None);
    assert!(map.is_alive(ha));
    assert_eq!(map.handle("A"), Some(ha));
    assert_eq!(*map.index(ha), 1);
}

#[test]
fn popped_handle_stays_dead_after_reuse() {
    let mut map = HandleMap::new();
    map.insert("one", 1);
    let five_handle = map.insert("five", 5);
    map.pop();
    let four_handle = map.insert("four", 4);
    assert_eq!(four_handle.index(), five_handle.index());
    assert_ne!(four_handle, five_handle);
    assert!(!map.is_alive(five_handle));
    assert!(map.is_alive(four_handle));
    assert_eq!(*map.index(four_handle), 4);
}

#[test]
fn pop_returns_most_recent_value() {
    let mut map = HandleMap::new();
    map.insert("a", "first");
    map.insert("b", "second");
    map.insert("c", "third");
    assert_eq!(map.pop(), Some("third"));
    map.insert("d", "fourth");
    assert_eq!(map.pop(), Some("fourth"));
    assert_eq!(map.pop(), Some("second"));
    assert_eq!(map.pop(), Some("first"));
    assert_eq!(map.pop(), None);
}

#[test]
fn replace_returns_old_value_and_kills_handle() {
    let mut map = HandleMap::new();
    let h = map.insert("x", 5);
    assert_eq!(map.replace(h, 6), 5);
    assert!(!map.is_alive(h));
    // The name index still holds the handle that was issued, now dead.
    assert_eq!(map.handle("x"), Some(h));
    assert!(!map.is_alive(map.handle("x").unwrap()));
    // The slot still holds the new value and is popped as usual.
    assert_eq!(map.pop(), Some(6));
    assert_eq!(map.pop(), None);
}

#[test]
fn replace_leaves_other_slots_alone() {
    let mut map = HandleMap::new();
    let h0 = map.insert("p", 1);
    let h1 = map.insert("q", 2);
    assert_eq!(map.replace(h0, 10), 1);
    assert!(map.is_alive(h1));
    assert_eq!(*map.index(h1), 2);
    assert_eq!(map.pop(), Some(2));
    assert_eq!(map.pop(), Some(10));
}

#[test]
fn index_mut_changes_in_place_and_keeps_handles() {
    let mut map = HandleMap::new();
    let h = map.insert("v", vec![1, 2]);
    map.index_mut(h).push(3);
    assert!(map.is_alive(h));
    assert_eq!(*map.index(h), vec![1, 2, 3]);
    assert_eq!(map.handle("v"), Some(h));
}

#[test]
fn handles_order_by_index_then_generation() {
    let mut map = HandleMap::new();
    let h1 = map.insert("a", 0);
    let h2 = map.insert("b", 0);
    assert!(h1 < h2);

    let mut other = HandleMap::new();
    let g0 = other.insert("a", 0);
    other.pop();
    let g1 = other.insert("a", 0);
    assert_eq!(g0, h1);
    assert_eq!(g0.index(), g1.index());
    assert!(g0 < g1);
    assert!(g1 < h2);
}

#[test]
fn pop_on_empty_map_returns_none() {
    let mut map: HandleMap<u32> = HandleMap::new();
    assert_eq!(map.pop(), None);
    assert_eq!(map.pop(), None);
    let mut roomy: HandleMap<u32> = HandleMap::with_capacity(8);
    assert_eq!(roomy.pop(), None);
    let mut default: HandleMap<u32> = HandleMap::default();
    assert_eq!(default.pop(), None);
}

fn run_script(map: &mut HandleMap<u32>) -> Vec<(Handle, Option<u32>)> {
    let mut log = Vec::new();
    for i in 0..5u32 {
        let name = format!("n{}", i);
        let h = map.insert(&name, i);
        log.push((h, map.handle(&name).map(|x| *map.index(x))));
    }
    let p = map.pop();
    log.push((map.insert("again", 99), p));
    let h = map.handle("n1").unwrap();
    log.push((h, Some(map.replace(h, 7))));
    log
}

#[test]
fn capacity_does_not_change_behaviour() {
    let mut plain = HandleMap::new();
    let mut small = HandleMap::with_capacity(2);
    let mut large = HandleMap::with_capacity(64);
    let expected = run_script(&mut plain);
    assert_eq!(run_script(&mut small), expected);
    assert_eq!(run_script(&mut large), expected);
}

#[test]
fn reused_name_shadows_earlier_value() {
    let mut map = HandleMap::new();
    let first = map.insert("k", 1);
    let second = map.insert("k", 2);
    assert_eq!(map.handle("k"), Some(second));
    assert!(map.is_alive(first));
    assert_eq!(*map.index(first), 1);
    assert_eq!(*map.index(second), 2);
    assert_eq!(map.pop(), Some(2));
    assert_eq!(map.handle("k"), None);
    assert!(map.is_alive(first));
}

#[test]
fn generation_wraps_after_many_reuses() {
    let mut map = HandleMap::new();
    let first = map.insert("w", 0u8);
    map.pop();
    for _ in 0..65535u32 {
        let h = map.insert("w", 1u8);
        assert_ne!(h, first);
        map.pop();
    }
    let wrapped = map.insert("w", 2u8);
    assert_eq!(wrapped, first);
    assert!(map.is_alive(first));
    assert_eq!(*map.index(first), 2);
}
