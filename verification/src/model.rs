//! The mathematical model of a chunked store: a sequence of chunks, each a
//! sequence of values, together with the capacity the chunks were
//! configured with. Every contract in this crate is stated over it.
use vstd::prelude::*;

verus! {

/// Whether the last chunk can take one more value.
pub open spec fn has_room<T>(chunks: Seq<Seq<T>>, cap: nat) -> bool {
    chunks.len() > 0 && chunks.last().len() < cap
}

/// The position the next allocation is given: the end of the last chunk
/// while it has room, else slot 0 of a chunk that does not exist yet.
pub open spec fn next_position<T>(chunks: Seq<Seq<T>>, cap: nat) -> (nat, nat) {
    if has_room(chunks, cap) {
        ((chunks.len() - 1) as nat, chunks.last().len())
    } else {
        (chunks.len(), 0)
    }
}

/// The chunks once `t` has been allocated.
pub open spec fn with_value<T>(chunks: Seq<Seq<T>>, cap: nat, t: T) -> Seq<Seq<T>> {
    if has_room(chunks, cap) {
        chunks.update(chunks.len() - 1, chunks.last().push(t))
    } else {
        chunks.push(seq![t])
    }
}

/// The chunks once each of `ts` has been allocated, in order.
pub open spec fn with_values<T>(chunks: Seq<Seq<T>>, cap: nat, ts: Seq<T>) -> Seq<Seq<T>>
    decreases ts.len(),
{
    if ts.len() == 0 {
        chunks
    } else {
        with_value(with_values(chunks, cap, ts.drop_last()), cap, ts.last())
    }
}

/// Whether `p` names a slot that has been filled.
pub open spec fn holds<T>(chunks: Seq<Seq<T>>, p: (nat, nat)) -> bool {
    p.0 < chunks.len() && p.1 < chunks[p.0 as int].len()
}

/// The value in the slot that `p` names.
pub open spec fn value_at<T>(chunks: Seq<Seq<T>>, p: (nat, nat)) -> T
    recommends
        holds(chunks, p),
{
    chunks[p.0 as int][p.1 as int]
}

/// The chunks once the slot at `p` has been overwritten with `t`.
pub open spec fn with_write<T>(chunks: Seq<Seq<T>>, p: (nat, nat), t: T) -> Seq<Seq<T>>
    recommends
        holds(chunks, p),
{
    chunks.update(p.0 as int, chunks[p.0 as int].update(p.1 as int, t))
}

/// The shape every store keeps: at least one chunk, every chunk but the
/// last without room, and no chunk of a positive capacity beyond it.
pub open spec fn chunked<T>(chunks: Seq<Seq<T>>, cap: nat) -> bool {
    &&& chunks.len() >= 1
    &&& forall|i: int| 0 <= i < chunks.len() - 1 ==> (#[trigger] chunks[i]).len() >= cap
    &&& cap > 0 ==> forall|i: int| 0 <= i < chunks.len() ==> (#[trigger] chunks[i]).len() <= cap
}

/// The reported length: one capacity for each chunk before the last, plus
/// the last chunk's length. With a positive capacity this is the number of
/// filled slots (`lemma_count_is_live`); with capacity 0 no chunk ever has
/// room, every value opens a chunk of its own, and this is 0 or 1.
pub open spec fn count<T>(chunks: Seq<Seq<T>>, cap: nat) -> nat
    recommends
        chunks.len() >= 1,
{
    (cap * (chunks.len() - 1) + chunks.last().len()) as nat
}

/// The number of filled slots, chunk by chunk.
pub open spec fn live<T>(chunks: Seq<Seq<T>>) -> nat
    decreases chunks.len(),
{
    if chunks.len() == 0 {
        0
    } else {
        live(chunks.drop_last()) + chunks.last().len()
    }
}

/// The store that has not been allocated into: one chunk, empty.
pub open spec fn fresh<T>() -> Seq<Seq<T>> {
    seq![Seq::<T>::empty()]
}

/// Whether nothing has been allocated: exactly one chunk, and it is empty.
pub open spec fn vacant<T>(chunks: Seq<Seq<T>>) -> bool {
    chunks.len() == 1 && chunks[0].len() == 0
}

/// One step in the life of a store.
pub enum Step<T> {
    /// The value is allocated.
    Allocate(T),
    /// The slot at the position is overwritten with the value.
    Write((nat, nat), T),
}

/// The chunks once `steps` have been taken, in order.
pub open spec fn after_steps<T>(chunks: Seq<Seq<T>>, cap: nat, steps: Seq<Step<T>>) -> Seq<Seq<T>>
    decreases steps.len(),
{
    if steps.len() == 0 {
        chunks
    } else {
        let before = after_steps(chunks, cap, steps.drop_last());
        match steps.last() {
            Step::Allocate(t) => with_value(before, cap, t),
            Step::Write(p, t) => with_write(before, p, t),
        }
    }
}

/// Whether every write among `steps` goes to a slot that is filled when
/// the write is made.
pub open spec fn permitted<T>(chunks: Seq<Seq<T>>, cap: nat, steps: Seq<Step<T>>) -> bool
    decreases steps.len(),
{
    if steps.len() == 0 {
        true
    } else {
        &&& permitted(chunks, cap, steps.drop_last())
        &&& match steps.last() {
            Step::Allocate(_) => true,
            Step::Write(p, _) => holds(after_steps(chunks, cap, steps.drop_last()), p),
        }
    }
}

/// Whether none of `steps` writes to the slot at `p`.
pub open spec fn spares<T>(steps: Seq<Step<T>>, p: (nat, nat)) -> bool {
    forall|i: int|
        0 <= i < steps.len() ==> match #[trigger] steps[i] {
            Step::Allocate(_) => true,
            Step::Write(q, _) => q != p,
        }
}

/// The value most recently given to the slot at `p`: by the last write to
/// `p`, else by the allocation that filled `p`, else what it held before
/// any of `steps`.
pub open spec fn latest<T>(chunks: Seq<Seq<T>>, cap: nat, steps: Seq<Step<T>>, p: (nat, nat)) -> T
    decreases steps.len(),
{
    if steps.len() == 0 {
        value_at(chunks, p)
    } else {
        let earlier = steps.drop_last();
        match steps.last() {
            Step::Allocate(t) => if next_position(after_steps(chunks, cap, earlier), cap) == p {
                t
            } else {
                latest(chunks, cap, earlier, p)
            },
            Step::Write(q, t) => if q == p {
                t
            } else {
                latest(chunks, cap, earlier, p)
            },
        }
    }
}

} // verus!
