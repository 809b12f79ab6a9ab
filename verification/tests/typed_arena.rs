use enum_arena::{Arena, ArenaMutRef, ArenaRef, BasicArena, BasicArenaMutRef, BasicArenaRef};

#[derive(Clone, Debug, PartialEq)]
struct Point {
    x: i64,
    y: i64,
}

#[test]
fn empty_arena_reports_nothing() {
    let arena: BasicArena<Point> = BasicArena::new(16);
    assert_eq!(arena.len(), 0);
    assert!(arena.is_empty());
    assert_eq!(arena.capacity(), 16);
}

#[test]
fn shared_allocation_round_trips() {
    let mut arena: BasicArena<Point> = BasicArena::new(4);
    let r = arena.allocate(Point { x: 1, y: 2 });
    assert_eq!(r.deref(&arena), &Point { x: 1, y: 2 });
    assert_eq!((r.chunk(), r.elem()), (0, 0));
    assert_eq!(arena.len(), 1);
    assert!(!arena.is_empty());
}

#[test]
fn exclusive_allocation_reads_and_writes() {
    let mut arena: BasicArena<Point> = BasicArena::new(4);
    let mut m = arena.alloc_mut(Point { x: 1, y: 2 });
    assert_eq!(m.deref(&arena), &Point { x: 1, y: 2 });
    m.deref_mut(&mut arena).x = 10;
    assert_eq!(m.deref(&arena), &Point { x: 10, y: 2 });
    *m.deref_mut(&mut arena) = Point { x: -1, y: -2 };
    assert_eq!(m.deref(&arena), &Point { x: -1, y: -2 });
    *m.deref_mut(&mut arena) = Point { x: 7, y: 7 };
    assert_eq!(m.deref(&arena), &Point { x: 7, y: 7 });
}

#[test]
fn handles_outlive_many_allocations() {
    let mut arena: BasicArena<u64> = BasicArena::new(3);
    let early = arena.allocate(99);
    let mut later: Vec<BasicArenaRef<u64>> = vec![];
    for i in 0..100u64 {
        later.push(arena.allocate(i));
        assert_eq!(*early.deref(&arena), 99);
        assert_eq!((early.chunk(), early.elem()), (0, 0));
    }
    for (i, r) in later.iter().enumerate() {
        assert_eq!(*r.deref(&arena), i as u64);
    }
    assert_eq!(arena.len(), 101);
}

#[test]
fn freeze_keeps_the_slot_and_the_data() {
    let mut arena: BasicArena<Point> = BasicArena::new(2);
    arena.allocate(Point { x: 0, y: 0 });
    let mut m = arena.alloc_mut(Point { x: 3, y: 4 });
    m.deref_mut(&mut arena).y = 5;
    let before = m.deref(&arena).clone();
    let at = (m.chunk(), m.elem());
    let count = arena.len();
    let r = m.freeze();
    assert_eq!((r.chunk(), r.elem()), at);
    assert_eq!(at, (0, 1));
    assert_eq!(arena.len(), count);
    assert_eq!(r.deref(&arena), &before);
    assert_eq!(r.deref(&arena), &Point { x: 3, y: 5 });
}

#[test]
fn shared_handles_duplicate_freely() {
    let mut arena: BasicArena<u8> = BasicArena::new(2);
    let r = arena.allocate(5);
    let s = r;
    let t = r.clone();
    assert_eq!(*r.deref(&arena), 5);
    assert_eq!(*s.deref(&arena), 5);
    assert_eq!(*t.deref(&arena), 5);
    assert_eq!((t.chunk(), t.elem()), (r.chunk(), r.elem()));
}

#[test]
fn make_mut_on_shared_copies_into_a_new_slot() {
    let mut arena: BasicArena<Point> = BasicArena::new(2);
    let r = arena.allocate(Point { x: 1, y: 1 });
    let mut m = r.make_mut(&mut arena);
    assert_eq!((m.chunk(), m.elem()), (0, 1));
    assert_eq!(arena.len(), 2);
    assert_eq!(m.deref(&arena), &Point { x: 1, y: 1 });
    m.deref_mut(&mut arena).x = 100;
    assert_eq!(r.deref(&arena), &Point { x: 1, y: 1 });
    assert_eq!(m.deref(&arena), &Point { x: 100, y: 1 });
}

#[test]
fn make_mut_on_exclusive_copies_into_a_new_slot() {
    let mut arena: BasicArena<Point> = BasicArena::new(1);
    let mut m = arena.alloc_mut(Point { x: 1, y: 1 });
    let mut n = m.make_mut(&mut arena);
    assert_eq!((m.chunk(), m.elem()), (0, 0));
    assert_eq!((n.chunk(), n.elem()), (1, 0));
    n.deref_mut(&mut arena).y = 2;
    assert_eq!(m.deref(&arena), &Point { x: 1, y: 1 });
    assert_eq!(n.deref(&arena), &Point { x: 1, y: 2 });
    m.deref_mut(&mut arena).x = 3;
    assert_eq!(m.deref(&arena), &Point { x: 3, y: 1 });
    assert_eq!(n.deref(&arena), &Point { x: 1, y: 2 });
}

#[test]
fn copy_and_copy_mut_leave_the_source_alone() {
    let mut arena: BasicArena<String> = BasicArena::new(2);
    let r = arena.allocate(String::from("shared"));
    let m = arena.alloc_mut(String::from("exclusive"));
    let mut from_shared = arena.copy(&r);
    let mut from_exclusive = arena.copy_mut(&m);
    assert_eq!((from_shared.chunk(), from_shared.elem()), (1, 0));
    assert_eq!((from_exclusive.chunk(), from_exclusive.elem()), (1, 1));
    from_shared.deref_mut(&mut arena).push_str(" copy");
    from_exclusive.deref_mut(&mut arena).push_str(" copy");
    assert_eq!(r.deref(&arena), "shared");
    assert_eq!(m.deref(&arena), "exclusive");
    assert_eq!(from_shared.deref(&arena), "shared copy");
    assert_eq!(from_exclusive.deref(&arena), "exclusive copy");
    assert_eq!(arena.len(), 4);
}

#[test]
fn frozen_value_is_reached_again_through_make_mut() {
    let mut arena: BasicArena<u32> = BasicArena::new(4);
    let mut m = arena.alloc_mut(1);
    *m.deref_mut(&mut arena) += 1;
    let r = m.freeze();
    let mut again: BasicArenaMutRef<u32> = r.make_mut(&mut arena);
    *again.deref_mut(&mut arena) += 10;
    assert_eq!(*r.deref(&arena), 2);
    assert_eq!(*again.deref(&arena), 12);
    assert_eq!((r.chunk(), r.elem()), (0, 0));
    assert_eq!((again.chunk(), again.elem()), (0, 1));
}

#[test]
fn full_chunk_sends_the_next_value_to_a_new_chunk() {
    let mut arena: BasicArena<u16> = BasicArena::new(4);
    for i in 0..4u16 {
        let r = arena.allocate(i);
        assert_eq!((r.chunk(), r.elem()), (0, i as usize));
    }
    assert_eq!(arena.capacity(), 4);
    let r = arena.allocate(4);
    assert_eq!((r.chunk(), r.elem()), (1, 0));
    assert_eq!(arena.capacity(), 4);
    assert_eq!(arena.len(), 5);
    for i in 5..8u16 {
        let r = arena.alloc_mut(i);
        assert_eq!((r.chunk(), r.elem()), (1, (i - 4) as usize));
    }
    let r = arena.alloc_mut(8);
    assert_eq!((r.chunk(), r.elem()), (2, 0));
    assert_eq!(arena.capacity(), 4);
    assert_eq!(arena.len(), 9);
}

#[test]
fn latest_write_wins_among_allocations() {
    let mut arena: BasicArena<u64> = BasicArena::new(2);
    let mut a = arena.alloc_mut(1);
    let mut b = arena.alloc_mut(2);
    *a.deref_mut(&mut arena) = 10;
    let c = arena.allocate(3);
    *b.deref_mut(&mut arena) = 20;
    *a.deref_mut(&mut arena) = 11;
    let d = arena.allocate(4);
    assert_eq!(*a.deref(&arena), 11);
    assert_eq!(*b.deref(&arena), 20);
    assert_eq!(*c.deref(&arena), 3);
    assert_eq!(*d.deref(&arena), 4);
}

#[test]
fn is_in_holds_for_every_handle_the_arena_gave() {
    let mut arena: BasicArena<u8> = BasicArena::new(2);
    let empty: BasicArena<u8> = BasicArena::new(2);
    let r = arena.allocate(1);
    let m = arena.alloc_mut(2);
    let n = arena.copy(&r);
    assert!(r.is_in(&arena));
    assert!(m.is_in(&arena));
    assert!(n.is_in(&arena));
    assert!(!r.is_in(&empty));
    assert!(!m.is_in(&empty));
    let frozen = n.freeze();
    assert!(frozen.is_in(&arena));
    assert!(!frozen.is_in(&empty));
}
