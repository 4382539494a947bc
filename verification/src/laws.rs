//! What holds of rooting and of guarded cells whatever the caller does.

use vstd::prelude::*;
use crate::barrier::GCMethods;
use crate::barrier::Notification;
use crate::context::LinkageView;
use crate::context::ScanTable;
use crate::heap::Heap;
use crate::heap::HeapView;
use crate::kind::TracedKind;
use crate::rooted::RootedGuard;
use crate::rooted::RootedView;

verus! {

/// The table after one slot of each of `kinds` was linked, in order.
pub open spec fn link_all(table: ScanTable, kinds: Seq<TracedKind>) -> ScanTable
    decreases kinds.len(),
{
    if kinds.len() == 0 {
        table
    } else {
        link_all(table, kinds.drop_last()).link(kinds.last())
    }
}

/// The linkages that the slots got while one slot of each of `kinds` was
/// linked, in order.
pub open spec fn linkages_of(table: ScanTable, kinds: Seq<TracedKind>) -> Seq<LinkageView>
    decreases kinds.len(),
{
    if kinds.len() == 0 {
        Seq::empty()
    } else {
        linkages_of(table, kinds.drop_last()).push(
            link_all(table, kinds.drop_last()).next_linkage(kinds.last()),
        )
    }
}

/// The table after the slots with these linkages were unlinked, the last one
/// first. `None` if one of them was not at the head of its chain when its
/// turn came.
pub open spec fn unlink_all(table: ScanTable, linkages: Seq<LinkageView>) -> Option<ScanTable>
    decreases linkages.len(),
{
    if linkages.len() == 0 {
        Some(table)
    } else if !table.is_innermost(linkages.last()) {
        None
    } else {
        unlink_all(table.unlink(linkages.last()), linkages.drop_last())
    }
}

/// Unlinking looks at the heads only: from two tables with the same heads it
/// succeeds or fails alike, and leaves the same heads.
proof fn lemma_unlink_all_reads_heads(a: ScanTable, b: ScanTable, linkages: Seq<LinkageView>)
    requires
        a.same_heads(b),
    ensures
        unlink_all(a, linkages) is Some <==> unlink_all(b, linkages) is Some,
        unlink_all(a, linkages) is Some ==> unlink_all(a, linkages)->0.same_heads(
            unlink_all(b, linkages)->0,
        ),
    decreases linkages.len(),
{
    if linkages.len() > 0 {
        let last = linkages.last();
        if a.is_innermost(last) {
            let a1 = a.unlink(last);
            let b1 = b.unlink(last);
            assert forall|kind: TracedKind| a1.head(kind) == b1.head(kind) by {
                assert(a.head(kind) == b.head(kind));
            }
            lemma_unlink_all_reads_heads(a1, b1, linkages.drop_last());
        }
    }
}

/// Stack order: when any number of slots are linked and then unlinked in the
/// reverse order, every unlink finds its slot at the head of its chain, and
/// in the end the head of every kind is what it was before the first link.
pub proof fn law_lifo_nesting(table: ScanTable, kinds: Seq<TracedKind>)
    ensures
        unlink_all(link_all(table, kinds), linkages_of(table, kinds)) is Some,
        unlink_all(link_all(table, kinds), linkages_of(table, kinds))->0.same_heads(table),
    decreases kinds.len(),
{
    if kinds.len() > 0 {
        // The slot that was linked last is unlinked first, which leaves the
        // heads as they were before it was linked; the rest is the same
        // statement for one slot less.
        let before = link_all(table, kinds.drop_last());
        let earlier = linkages_of(table, kinds.drop_last());
        let unlinked = before.link(kinds.last()).unlink(before.next_linkage(kinds.last()));
        assert(linkages_of(table, kinds).drop_last() =~= earlier);
        assert(unlinked.same_heads(before));
        law_lifo_nesting(table, kinds.drop_last());
        lemma_unlink_all_reads_heads(unlinked, before, earlier);
    }
}

/// Out-of-order detection: after a slot A and then a slot B of the same kind
/// were linked, B has A as its predecessor and is the one that may be
/// unlinked; A is not at the head of the chain, so the check that every
/// unlink makes refuses A while B is linked.
pub proof fn law_out_of_order_is_detected(table: ScanTable, kind: TracedKind)
    requires
        table.has_room(),
    ensures
        ({
            let a = table.next_linkage(kind);
            let b = table.link(kind).next_linkage(kind);
            let both = table.link(kind).link(kind);
            &&& b.previous == a.address
            &&& both.is_innermost(b)
            &&& !both.is_innermost(a)
            &&& unlink_all(both, seq![b, a]) is None
            &&& unlink_all(both, seq![a, b]) is Some
        }),
{
    reveal_with_fuel(unlink_all, 3);
}

/// Every slot is unlinked from the table that it was linked into: the check
/// that every unlink makes refuses a slot of another context, whatever the
/// heads of the two tables are.
pub proof fn law_foreign_slot_is_refused(home: ScanTable, other: ScanTable, kind: TracedKind)
    requires
        home.context != other.context,
    ensures
        home.link(kind).is_innermost(home.next_linkage(kind)),
        !other.is_innermost(home.next_linkage(kind)),
{
}

/// Where linking leaves the heads: the head of a kind that was linked is one
/// of the addresses that were handed out, the head of any other kind is as
/// before.
proof fn lemma_link_all_heads(table: ScanTable, kinds: Seq<TracedKind>, kind: TracedKind)
    requires
        table.next_address + kinds.len() <= usize::MAX,
    ensures
        link_all(table, kinds).next_address == table.next_address + kinds.len(),
        kinds.contains(kind) ==> table.next_address <= link_all(table, kinds).head(kind)
            < table.next_address + kinds.len(),
        !kinds.contains(kind) ==> link_all(table, kinds).head(kind) == table.head(kind),
    decreases kinds.len(),
{
    if kinds.len() > 0 {
        let earlier = kinds.drop_last();
        lemma_link_all_heads(table, earlier, kind);
        if kinds.last() != kind && kinds.contains(kind) {
            let i = choose|i: int| 0 <= i < kinds.len() && kinds[i] == kind;
            assert(earlier[i] == kind);
        }
    }
}

/// Out-of-order detection, however deep: after a slot A was linked and then
/// any slots of which at least one is of A's kind, A is not at the head of
/// its chain. As long as those slots are linked, the check that every unlink
/// makes refuses A.
pub proof fn law_covered_slot_is_refused(
    table: ScanTable,
    kind: TracedKind,
    later: Seq<TracedKind>,
)
    requires
        table.next_address + 1 + later.len() <= usize::MAX,
        later.contains(kind),
    ensures
        !link_all(table.link(kind), later).is_innermost(table.next_linkage(kind)),
{
    lemma_link_all_heads(table.link(kind), later, kind);
}

/// View freshness and plain stores: a store into a slot of the shadow stack
/// replaces the value and nothing else. What is read afterwards is what was
/// stored, and the linkage is as before.
pub proof fn law_store_is_plain<T>(slot: RootedView<T>, v: T)
    ensures
        slot.store(v).value == v,
        slot.store(v).link == slot.link,
{
}

/// View freshness, through the views themselves: stores `x` through a mutable
/// view of a scoped root and returns what a read-only view shows afterwards,
/// which is `x`. The slot stays linked as it was.
pub fn store_then_load<'a, T: Copy>(guard: &mut RootedGuard<'a, T>, x: T) -> (seen: T)
    ensures
        seen == x,
        final(guard).slot()@ == old(guard).slot()@.store(x),
        *final(final(guard).slot()) == *final(old(guard).slot()),
{
    let mut writer = guard.handle_mut();
    writer.set(x);
    let reader = guard.handle();
    reader.get()
}

/// The notification that the `i`-th of `writes` raises in a cell at `address`
/// that was made holding `first`.
pub open spec fn nth_notification<T>(address: usize, first: T, writes: Seq<T>, i: int)
    -> Notification<T> {
    Notification {
        slot: address,
        prev: if i == 0 {
            first
        } else {
            writes[i - 1]
        },
        next: writes[i],
    }
}

/// What a cell has raised and holds after a sequence of stores.
proof fn lemma_set_all<T>(cell: HeapView<T>, writes: Seq<T>)
    requires
        cell.notified.len() == 0,
    ensures
        cell.set_all(writes).address == cell.address,
        cell.set_all(writes).notified.len() == writes.len(),
        cell.set_all(writes).value == if writes.len() == 0 {
            cell.value
        } else {
            writes.last()
        },
        forall|i: int|
            0 <= i < writes.len() ==> #[trigger] cell.set_all(writes).notified[i]
                == nth_notification(cell.address, cell.value, writes, i),
    decreases writes.len(),
{
    if writes.len() > 0 {
        lemma_set_all(cell, writes.drop_last());
        let before = cell.set_all(writes.drop_last());
        assert forall|i: int| 0 <= i < writes.len() implies #[trigger] cell.set_all(
            writes,
        ).notified[i] == nth_notification(cell.address, cell.value, writes, i) by {
            if i < writes.len() - 1 {
                assert(before.notified[i] == nth_notification(
                    cell.address,
                    cell.value,
                    writes.drop_last(),
                    i,
                ));
            }
        }
    }
}

/// Barrier completeness: over the life of a cell, from its making at
/// `address` through any stores to its destruction, the policy is notified
/// once for each store, with the value that the store replaced and the value
/// that it stored, and then exactly once more, with the last value and the
/// sentinel. In between the collector is up to date after every store.
pub proof fn law_barrier_completeness<T: GCMethods<T> + Copy>(address: usize, writes: Seq<T>)
    ensures
        ({
            let cell = Heap::<T>::fresh(address).set_all(writes);
            let trace = cell.set(T::sentinel()).notified;
            &&& Heap::<T>::is_coherent(cell)
            &&& Heap::<T>::is_lifetime(trace, address)
            &&& trace.len() == writes.len() + 1
            &&& forall|i: int|
                0 <= i < writes.len() ==> #[trigger] trace[i] == nth_notification(
                    address,
                    T::sentinel(),
                    writes,
                    i,
                )
            &&& trace.last() == Notification { slot: address, prev: cell.value, next: T::sentinel() }
        }),
{
    let fresh = Heap::<T>::fresh(address);
    lemma_set_all(fresh, writes);
    let cell = fresh.set_all(writes);
    let trace = cell.set(T::sentinel()).notified;
    assert forall|i: int| 0 < i < trace.len() implies (#[trigger] trace[i]).prev == trace[i
        - 1].next by {}
    assert forall|i: int| 0 < i < cell.notified.len() implies (#[trigger] cell.notified[i]).prev
        == cell.notified[i - 1].next by {}
}

} // verus!
