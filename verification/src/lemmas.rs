//! What holds of the model: the shape is kept, filled slots stay where they
//! are, reads return the latest value, and copies are independent.
use crate::model::{
    after_steps, chunked, count, fresh, has_room, holds, latest, live, next_position, permitted,
    spares, vacant, value_at, with_value, with_values, with_write, Step,
};
use vstd::arithmetic::div_mod::lemma_fundamental_div_mod_converse;
use vstd::prelude::*;

verus! {

/// Overwriting a filled slot changes no chunk's length, so neither the
/// shape of the store nor its length.
pub proof fn lemma_write_keeps_shape<T>(chunks: Seq<Seq<T>>, cap: nat, p: (nat, nat), t: T)
    requires
        holds(chunks, p),
    ensures
        with_write(chunks, p, t).len() == chunks.len(),
        forall|i: int|
            0 <= i < chunks.len() ==> (#[trigger] with_write(chunks, p, t)[i]).len()
                == chunks[i].len(),
        chunked(with_write(chunks, p, t), cap) == chunked(chunks, cap),
        count(with_write(chunks, p, t), cap) == count(chunks, cap),
        live(with_write(chunks, p, t)) == live(chunks),
{
    let after = with_write(chunks, p, t);
    assert forall|i: int| 0 <= i < chunks.len() implies (#[trigger] after[i]).len()
        == chunks[i].len() by {}
    if chunked(chunks, cap) {
        assert forall|i: int| 0 <= i < after.len() - 1 implies (#[trigger] after[i]).len()
            >= cap by {
            assert(chunks[i].len() >= cap);
        }
        if cap > 0 {
            assert forall|i: int| 0 <= i < after.len() implies (#[trigger] after[i]).len()
                <= cap by {
                assert(chunks[i].len() <= cap);
            }
        }
    }
    if chunked(after, cap) {
        assert forall|i: int| 0 <= i < chunks.len() - 1 implies (#[trigger] chunks[i]).len()
            >= cap by {
            assert(after[i].len() >= cap);
        }
        if cap > 0 {
            assert forall|i: int| 0 <= i < chunks.len() implies (#[trigger] chunks[i]).len()
                <= cap by {
                assert(after[i].len() <= cap);
            }
        }
    }
    lemma_live_by_lengths(after, chunks);
}

/// The number of filled slots depends on the chunks' lengths alone.
pub proof fn lemma_live_by_lengths<T>(a: Seq<Seq<T>>, b: Seq<Seq<T>>)
    requires
        a.len() == b.len(),
        forall|i: int| 0 <= i < a.len() ==> (#[trigger] a[i]).len() == b[i].len(),
    ensures
        live(a) == live(b),
    decreases a.len(),
{
    if a.len() > 0 {
        assert forall|i: int| 0 <= i < a.drop_last().len() implies (#[trigger] a.drop_last()[i]).len()
            == b.drop_last()[i].len() by {
            assert(a[i].len() == b[i].len());
        }
        lemma_live_by_lengths(a.drop_last(), b.drop_last());
        assert(a.last().len() == b.last().len());
    }
}

/// An allocation leaves every filled slot where it is, with its value.
pub proof fn lemma_allocation_keeps_slots<T>(chunks: Seq<Seq<T>>, cap: nat, t: T, p: (nat, nat))
    requires
        holds(chunks, p),
    ensures
        holds(with_value(chunks, cap, t), p),
        value_at(with_value(chunks, cap, t), p) == value_at(chunks, p),
        next_position(chunks, cap) != p,
{
}

/// An allocation fills a slot that was not filled before, with the value
/// given, and hands out that slot's position.
pub proof fn lemma_allocation_is_fresh<T>(chunks: Seq<Seq<T>>, cap: nat, t: T)
    ensures
        !holds(chunks, next_position(chunks, cap)),
        holds(with_value(chunks, cap, t), next_position(chunks, cap)),
        value_at(with_value(chunks, cap, t), next_position(chunks, cap)) == t,
{
}

/// An allocation fills the slot it hands out and no other: afterwards a
/// slot is filled exactly if it was filled before or is the one handed out.
pub proof fn lemma_allocation_fills_one_slot<T>(chunks: Seq<Seq<T>>, cap: nat, t: T, p: (nat, nat))
    ensures
        holds(with_value(chunks, cap, t), p) <==> holds(chunks, p) || p == next_position(
            chunks,
            cap,
        ),
{
}

/// A store that has not been allocated into has the shape of a store, no
/// filled slot, and length 0.
pub proof fn lemma_fresh_is_empty<T>(cap: nat, p: (nat, nat))
    ensures
        !holds(fresh::<T>(), p),
        chunked(fresh::<T>(), cap),
        vacant(fresh::<T>()),
        count(fresh::<T>(), cap) == 0,
        live(fresh::<T>()) == 0,
{
    let chunks = fresh::<T>();
    assert(chunks.drop_last().len() == 0);
    assert(live(chunks.drop_last()) == 0);
    assert(cap * 0 == 0);
}

/// With a positive capacity the position handed out next is the length
/// divided by the capacity, and the remainder: positions follow allocation
/// order, chunk after chunk.
pub proof fn lemma_position_by_count<T>(chunks: Seq<Seq<T>>, cap: nat)
    requires
        chunked(chunks, cap),
        cap > 0,
    ensures
        next_position(chunks, cap) == (count(chunks, cap) / cap, count(chunks, cap) % cap),
{
    let n = chunks.len() as int;
    let filled = chunks.last().len() as int;
    let total = count(chunks, cap) as int;
    assert(chunks[n - 1].len() <= cap);
    if has_room(chunks, cap) {
        assert(total == (n - 1) * cap + filled) by (nonlinear_arith)
            requires
                total == cap * (n - 1) + filled,
        ;
        lemma_fundamental_div_mod_converse(total, cap as int, n - 1, filled);
    } else {
        assert(total == n * cap + 0) by (nonlinear_arith)
            requires
                total == cap * (n - 1) + filled,
                filled == cap,
        ;
        lemma_fundamental_div_mod_converse(total, cap as int, n, 0);
    }
}

/// An allocation keeps the shape of the store and fills exactly one more
/// slot; with a positive capacity the reported length grows by one.
pub proof fn lemma_allocation_counts<T>(chunks: Seq<Seq<T>>, cap: nat, t: T)
    requires
        chunked(chunks, cap),
    ensures
        chunked(with_value(chunks, cap, t), cap),
        live(with_value(chunks, cap, t)) == live(chunks) + 1,
        cap > 0 ==> count(with_value(chunks, cap, t), cap) == count(chunks, cap) + 1,
        cap == 0 ==> count(with_value(chunks, cap, t), cap) == 1,
{
    let after = with_value(chunks, cap, t);
    let n = chunks.len() as int;
    if has_room(chunks, cap) {
        assert(after.drop_last() =~= chunks.drop_last());
        assert forall|i: int| 0 <= i < after.len() - 1 implies (#[trigger] after[i]).len()
            >= cap by {
            assert(after[i] == chunks[i]);
        }
        assert forall|i: int| 0 <= i < after.len() implies (#[trigger] after[i]).len() <= cap by {
            if i < n - 1 {
                assert(after[i] == chunks[i]);
            }
        }
    } else {
        assert(after.drop_last() =~= chunks);
        assert forall|i: int| 0 <= i < after.len() - 1 implies (#[trigger] after[i]).len()
            >= cap by {
            assert(after[i] == chunks[i]);
        }
        if cap > 0 {
            assert(chunks[n - 1].len() <= cap);
            assert forall|i: int| 0 <= i < after.len() implies (#[trigger] after[i]).len()
                <= cap by {
                if i < n {
                    assert(after[i] == chunks[i]);
                }
            }
        }
        assert(cap * n == cap * (n - 1) + cap) by (nonlinear_arith);
        assert(cap == 0 ==> cap * n == 0);
    }
}

/// With a positive capacity the reported length is the number of filled slots.
pub proof fn lemma_count_is_live<T>(chunks: Seq<Seq<T>>, cap: nat)
    requires
        chunked(chunks, cap),
        cap > 0,
    ensures
        count(chunks, cap) == live(chunks),
    decreases chunks.len(),
{
    let n = chunks.len() as int;
    let front = chunks.drop_last();
    if n == 1 {
        assert(live(front) == 0);
        assert(cap * (n - 1) == 0);
    } else {
        assert forall|i: int| 0 <= i < front.len() - 1 implies (#[trigger] front[i]).len()
            >= cap by {
            assert(chunks[i].len() >= cap);
        }
        assert forall|i: int| 0 <= i < front.len() implies (#[trigger] front[i]).len() <= cap by {
            assert(chunks[i].len() <= cap);
        }
        lemma_count_is_live(front, cap);
        assert(chunks[n - 2].len() >= cap);
        assert(chunks[n - 2].len() <= cap);
        assert(front.last() == chunks[n - 2]);
        assert(cap * (n - 1) == cap * (n - 2) + cap) by (nonlinear_arith);
    }
}

/// When the last chunk has room, the allocation lands at its end and no
/// chunk is added.
pub proof fn lemma_room_is_used<T>(chunks: Seq<Seq<T>>, cap: nat, t: T)
    requires
        has_room(chunks, cap),
    ensures
        next_position(chunks, cap) == ((chunks.len() - 1) as nat, chunks.last().len()),
        with_value(chunks, cap, t).len() == chunks.len(),
        with_value(chunks, cap, t).last() == chunks.last().push(t),
        forall|i: int|
            0 <= i < chunks.len() - 1 ==> #[trigger] with_value(chunks, cap, t)[i] == chunks[i],
{
}

/// When the last chunk has reached the capacity, the allocation lands at
/// slot 0 of a newly appended chunk, and the chunks before it stay as they are.
pub proof fn lemma_full_chunk_grows<T>(chunks: Seq<Seq<T>>, cap: nat, t: T)
    requires
        chunks.len() >= 1,
        chunks.last().len() >= cap,
    ensures
        next_position(chunks, cap) == (chunks.len(), 0nat),
        with_value(chunks, cap, t).len() == chunks.len() + 1,
        with_value(chunks, cap, t).last() == seq![t],
        forall|i: int| 0 <= i < chunks.len() ==> #[trigger] with_value(chunks, cap, t)[i] == chunks[i],
{
}

/// Any number of further allocations, across any number of chunk
/// boundaries, leaves every filled slot where it is, with its value.
pub proof fn lemma_allocations_keep_slots<T>(
    chunks: Seq<Seq<T>>,
    cap: nat,
    ts: Seq<T>,
    p: (nat, nat),
)
    requires
        holds(chunks, p),
    ensures
        holds(with_values(chunks, cap, ts), p),
        value_at(with_values(chunks, cap, ts), p) == value_at(chunks, p),
    decreases ts.len(),
{
    if ts.len() > 0 {
        lemma_allocations_keep_slots(chunks, cap, ts.drop_last(), p);
        lemma_allocation_keeps_slots(with_values(chunks, cap, ts.drop_last()), cap, ts.last(), p);
    }
}

/// After the values `ts` have been allocated in order, the position handed
/// out for the `k`-th of them still reads `ts[k]`.
pub proof fn lemma_allocations_read_back<T>(chunks: Seq<Seq<T>>, cap: nat, ts: Seq<T>, k: int)
    requires
        0 <= k < ts.len(),
    ensures
        holds(
            with_values(chunks, cap, ts),
            next_position(with_values(chunks, cap, ts.take(k)), cap),
        ),
        value_at(
            with_values(chunks, cap, ts),
            next_position(with_values(chunks, cap, ts.take(k)), cap),
        ) == ts[k],
    decreases ts.len(),
{
    let front = ts.drop_last();
    if k == ts.len() - 1 {
        assert(ts.take(k) =~= front);
        lemma_allocation_is_fresh(with_values(chunks, cap, front), cap, ts.last());
    } else {
        assert(front.take(k) =~= ts.take(k));
        lemma_allocations_read_back(chunks, cap, front, k);
        lemma_allocation_keeps_slots(
            with_values(chunks, cap, front),
            cap,
            ts.last(),
            next_position(with_values(chunks, cap, ts.take(k)), cap),
        );
    }
}

/// A write is read back from the slot it went to and changes no other slot.
pub proof fn lemma_write_reads_back<T>(chunks: Seq<Seq<T>>, p: (nat, nat), t: T, q: (nat, nat))
    requires
        holds(chunks, p),
    ensures
        holds(with_write(chunks, p, t), q) == holds(chunks, q),
        value_at(with_write(chunks, p, t), p) == t,
        holds(chunks, q) && q != p ==> value_at(with_write(chunks, p, t), q) == value_at(chunks, q),
{
}

/// A filled slot that no step writes to keeps its value, whatever is
/// allocated and whatever is written elsewhere.
pub proof fn lemma_spared_slot_keeps_value<T>(
    chunks: Seq<Seq<T>>,
    cap: nat,
    steps: Seq<Step<T>>,
    p: (nat, nat),
)
    requires
        permitted(chunks, cap, steps),
        holds(chunks, p),
        spares(steps, p),
    ensures
        holds(after_steps(chunks, cap, steps), p),
        value_at(after_steps(chunks, cap, steps), p) == value_at(chunks, p),
    decreases steps.len(),
{
    if steps.len() > 0 {
        let earlier = steps.drop_last();
        let before = after_steps(chunks, cap, earlier);
        assert forall|i: int| 0 <= i < earlier.len() implies match #[trigger] earlier[i] {
            Step::Allocate(_) => true,
            Step::Write(q, _) => q != p,
        } by {
            assert(earlier[i] == steps[i]);
        }
        lemma_spared_slot_keeps_value(chunks, cap, earlier, p);
        assert(steps.last() == steps[steps.len() - 1]);
        match steps.last() {
            Step::Allocate(t) => {
                lemma_allocation_keeps_slots(before, cap, t, p);
            },
            Step::Write(q, t) => {
                lemma_write_reads_back(before, q, t, p);
            },
        }
    }
}

/// Copy-on-write isolation: once a copy of the value at `p` has been
/// allocated, the copy has a slot of its own, and whatever is then written
/// there or anywhere but `p`, and whatever is allocated, the slot at `p`
/// reads what it read before the copy was made.
pub proof fn lemma_copy_is_isolated<T>(
    chunks: Seq<Seq<T>>,
    cap: nat,
    p: (nat, nat),
    copy: T,
    steps: Seq<Step<T>>,
)
    requires
        holds(chunks, p),
        permitted(with_value(chunks, cap, copy), cap, steps),
        spares(steps, p),
    ensures
        next_position(chunks, cap) != p,
        holds(after_steps(with_value(chunks, cap, copy), cap, steps), p),
        value_at(after_steps(with_value(chunks, cap, copy), cap, steps), p) == value_at(chunks, p),
{
    lemma_allocation_keeps_slots(chunks, cap, copy, p);
    lemma_spared_slot_keeps_value(with_value(chunks, cap, copy), cap, steps, p);
}

/// Round trip: after any allocations and writes, a filled slot reads the
/// value most recently given to it.
pub proof fn lemma_reads_latest<T>(
    chunks: Seq<Seq<T>>,
    cap: nat,
    steps: Seq<Step<T>>,
    p: (nat, nat),
)
    requires
        permitted(chunks, cap, steps),
        holds(after_steps(chunks, cap, steps), p),
    ensures
        value_at(after_steps(chunks, cap, steps), p) == latest(chunks, cap, steps, p),
    decreases steps.len(),
{
    if steps.len() > 0 {
        let earlier = steps.drop_last();
        let before = after_steps(chunks, cap, earlier);
        match steps.last() {
            Step::Allocate(t) => {
                lemma_allocation_is_fresh(before, cap, t);
                if next_position(before, cap) != p {
                    assert(holds(before, p));
                    lemma_allocation_keeps_slots(before, cap, t, p);
                    lemma_reads_latest(chunks, cap, earlier, p);
                }
            },
            Step::Write(q, t) => {
                lemma_write_reads_back(before, q, t, p);
                if q != p {
                    lemma_reads_latest(chunks, cap, earlier, p);
                }
            },
        }
    }
}

/// Position stability: whatever allocations and writes follow, a filled
/// slot stays filled, and the shape of the store is kept.
pub proof fn lemma_steps_keep_slots<T>(
    chunks: Seq<Seq<T>>,
    cap: nat,
    steps: Seq<Step<T>>,
    p: (nat, nat),
)
    requires
        permitted(chunks, cap, steps),
        holds(chunks, p),
    ensures
        holds(after_steps(chunks, cap, steps), p),
        chunked(chunks, cap) ==> chunked(after_steps(chunks, cap, steps), cap),
    decreases steps.len(),
{
    if steps.len() > 0 {
        let earlier = steps.drop_last();
        let before = after_steps(chunks, cap, earlier);
        lemma_steps_keep_slots(chunks, cap, earlier, p);
        match steps.last() {
            Step::Allocate(t) => {
                lemma_allocation_keeps_slots(before, cap, t, p);
                if chunked(before, cap) {
                    lemma_allocation_counts(before, cap, t);
                }
            },
            Step::Write(q, t) => {
                lemma_write_reads_back(before, q, t, p);
                lemma_write_keeps_shape(before, cap, q, t);
            },
        }
    }
}

} // verus!
