use enum_arena::{UnsafeArena, UnsafeArenaRef};

fn position<T>(r: &UnsafeArenaRef<T>) -> (usize, usize) {
    (r.chunk(), r.elem())
}

#[test]
fn fresh_store_is_empty() {
    let store: UnsafeArena<u32> = UnsafeArena::new(4);
    assert_eq!(store.len(), 0);
    assert!(store.is_empty());
    assert_eq!(store.capacity(), 4);
}

#[test]
fn first_allocation_lands_at_origin() {
    let mut store: UnsafeArena<u32> = UnsafeArena::new(4);
    let r = store.allocate(11);
    assert_eq!(position(&r), (0, 0));
    assert_eq!(*store.get(&r), 11);
    assert_eq!(store.len(), 1);
    assert!(!store.is_empty());
}

#[test]
fn slot_index_is_the_length_before_insertion() {
    let mut store: UnsafeArena<u32> = UnsafeArena::new(3);
    let mut seen = vec![];
    for i in 0..7u32 {
        let r = store.allocate(i);
        seen.push(position(&r));
    }
    assert_eq!(seen, vec![(0, 0), (0, 1), (0, 2), (1, 0), (1, 1), (1, 2), (2, 0)]);
}

#[test]
fn length_counts_full_chunks_and_the_last() {
    let mut store: UnsafeArena<u8> = UnsafeArena::new(3);
    for i in 0..7u8 {
        store.allocate(i);
    }
    // 3 * (3 - 1) + 1
    assert_eq!(store.len(), 7);
    assert_eq!(store.capacity(), 3);
    for i in 7..9u8 {
        store.allocate(i);
    }
    // 3 * (3 - 1) + 3: the last chunk is full and no chunk has been added yet
    assert_eq!(store.len(), 9);
    let r = store.allocate(9);
    assert_eq!(position(&r), (3, 0));
    assert_eq!(store.len(), 10);
}

#[test]
fn capacity_is_the_chunk_size_not_a_total() {
    let mut store: UnsafeArena<u64> = UnsafeArena::new(2);
    for i in 0..50u64 {
        store.allocate(i);
        assert_eq!(store.capacity(), 2);
    }
    assert_eq!(store.len(), 50);
}

#[test]
fn write_is_read_back_and_touches_no_other_slot() {
    let mut store: UnsafeArena<String> = UnsafeArena::new(2);
    let a = store.allocate(String::from("a"));
    let b = store.allocate(String::from("b"));
    let c = store.allocate(String::from("c"));
    *store.get_mut(&b) = String::from("B");
    store.get_mut(&c).push('!');
    assert_eq!(store.get(&a), "a");
    assert_eq!(store.get(&b), "B");
    assert_eq!(store.get(&c), "c!");
    *store.get_mut(&b) = String::from("again");
    assert_eq!(store.get(&b), "again");
    assert_eq!(store.len(), 3);
}

#[test]
fn positions_survive_chunk_boundaries() {
    let mut store: UnsafeArena<usize> = UnsafeArena::new(5);
    let first = store.allocate(12345);
    let mut all = vec![first];
    for i in 1..1000usize {
        all.push(store.allocate(i));
        assert_eq!(position(&first), (0, 0));
        assert_eq!(*store.get(&first), 12345);
    }
    for (i, r) in all.iter().enumerate().skip(1) {
        assert_eq!(*store.get(r), i);
        assert_eq!(position(r), (i / 5, i % 5));
    }
}

#[test]
fn chunk_of_one_opens_a_chunk_per_value() {
    let mut store: UnsafeArena<char> = UnsafeArena::new(1);
    let a = store.allocate('a');
    let b = store.allocate('b');
    let c = store.allocate('c');
    assert_eq!(position(&a), (0, 0));
    assert_eq!(position(&b), (1, 0));
    assert_eq!(position(&c), (2, 0));
    assert_eq!(store.len(), 3);
    assert_eq!((*store.get(&a), *store.get(&b), *store.get(&c)), ('a', 'b', 'c'));
}

#[test]
fn capacity_zero_never_has_room() {
    let mut store: UnsafeArena<u8> = UnsafeArena::new(0);
    assert!(store.is_empty());
    assert_eq!(store.len(), 0);
    let a = store.allocate(1);
    let b = store.allocate(2);
    assert_eq!(position(&a), (1, 0));
    assert_eq!(position(&b), (2, 0));
    assert_eq!((*store.get(&a), *store.get(&b)), (1, 2));
    assert!(!store.is_empty());
    assert_eq!(store.capacity(), 0);
    // 0 * (3 - 1) + 1: no chunk before the last counts
    assert_eq!(store.len(), 1);
}

#[test]
fn copied_position_reads_the_same_slot() {
    let mut store: UnsafeArena<i32> = UnsafeArena::new(8);
    let r = store.allocate(-4);
    let again = r;
    *store.get_mut(&r) = 40;
    assert_eq!(*store.get(&again), 40);
    assert_eq!(position(&again.clone()), position(&r));
}

#[test]
fn contains_tells_filled_slots_from_the_rest() {
    let mut small: UnsafeArena<u8> = UnsafeArena::new(2);
    let mut large: UnsafeArena<u8> = UnsafeArena::new(2);
    let a = small.allocate(1);
    let mut last = large.allocate(0);
    for i in 1..5u8 {
        last = large.allocate(i);
    }
    assert_eq!(position(&last), (2, 0));
    assert!(small.contains(&a));
    assert!(large.contains(&a));
    assert!(large.contains(&last));
    assert!(!small.contains(&last));
    let b = small.allocate(2);
    let c = small.allocate(3);
    assert_eq!(position(&c), (1, 0));
    assert!(small.contains(&b));
    assert!(small.contains(&c));
    assert!(!small.contains(&last));
}
