//! Long-lived cells that are guarded by a write barrier.

use vstd::prelude::*;
use crate::barrier::GCMethods;
use crate::barrier::Notification;
use crate::barrier::PostBarrier;
use crate::handle::Handle;

verus! {

/// Whether a trace of notifications is what one cell at `address` raises
/// when it starts out holding `first`: every notification names the cell, the
/// first one leaves `first`, and each later one leaves what the one before it
/// stored.
pub open spec fn is_chain<T>(trace: Seq<Notification<T>>, address: usize, first: T) -> bool {
    &&& forall|i: int| 0 <= i < trace.len() ==> (#[trigger] trace[i]).slot == address
    &&& trace.len() > 0 ==> trace[0].prev == first
    &&& forall|i: int| 0 < i < trace.len() ==> (#[trigger] trace[i]).prev == trace[i - 1].next
}

/// The value that the collector knows a cell to hold after a trace of
/// notifications, when the cell started out holding `first`.
pub open spec fn last_stored<T>(trace: Seq<Notification<T>>, first: T) -> T {
    if trace.len() == 0 {
        first
    } else {
        trace.last().next
    }
}

/// A cell as a mathematical value.
pub struct HeapView<T> {
    /// Where the cell lives. A cell never moves.
    pub address: usize,
    /// The value that the cell holds.
    pub value: T,
    /// The notifications that the cell has raised so far, oldest first.
    pub notified: Seq<Notification<T>>,
}

impl<T> HeapView<T> {
    /// The notification that storing `v` raises.
    pub open spec fn notification(self, v: T) -> Notification<T> {
        Notification { slot: self.address, prev: self.value, next: v }
    }

    /// The cell after `v` was stored: it holds `v` and has raised one more
    /// notification.
    pub open spec fn set(self, v: T) -> HeapView<T> {
        HeapView {
            address: self.address,
            value: v,
            notified: self.notified.push(self.notification(v)),
        }
    }

    /// The cell after each of `writes` was stored, in order.
    pub open spec fn set_all(self, writes: Seq<T>) -> HeapView<T>
        decreases writes.len(),
    {
        if writes.len() == 0 {
            self
        } else {
            self.set_all(writes.drop_last()).set(writes.last())
        }
    }
}

/// A long-lived cell that holds one traced reference. Every store and the
/// destruction of the cell notify the barrier policy of the reference's kind;
/// reading does not. The cell keeps the address that it was made at.
pub struct Heap<T: GCMethods<T> + Copy> {
    ptr: T,
    address: usize,
    notified: Ghost<Seq<Notification<T>>>,
}

impl<T: GCMethods<T> + Copy> View for Heap<T> {
    type V = HeapView<T>;

    closed spec fn view(&self) -> HeapView<T> {
        HeapView { address: self.address, value: self.ptr, notified: self.notified@ }
    }
}

impl<T: GCMethods<T> + Copy> Heap<T> {
    /// The state of a cell that was made at `address` and has not been
    /// written: it holds the sentinel and has raised nothing.
    pub open spec fn fresh(address: usize) -> HeapView<T> {
        HeapView { address, value: T::sentinel(), notified: Seq::empty() }
    }

    /// Whether the collector is up to date on a cell: the cell was made
    /// holding the sentinel, every change since was notified, and what the
    /// last notification stored is what the cell holds.
    pub open spec fn is_coherent(cell: HeapView<T>) -> bool {
        &&& is_chain(cell.notified, cell.address, T::sentinel())
        &&& cell.value == last_stored(cell.notified, T::sentinel())
    }

    /// Whether a trace is all that one cell at `address` raises from its
    /// making to its destruction: a chain that starts from the sentinel and
    /// ends, with its last notification, back at the sentinel.
    pub open spec fn is_lifetime(trace: Seq<Notification<T>>, address: usize) -> bool {
        &&& trace.len() >= 1
        &&& is_chain(trace, address, T::sentinel())
        &&& trace.last().next == T::sentinel()
    }

    #[verifier::type_invariant]
    spec fn coherent(self) -> bool {
        Self::is_coherent(self@)
    }

    /// Makes a cell at `address`. The cell holds the sentinel; nothing has
    /// changed yet, so the policy is not notified.
    pub fn new(address: usize) -> (cell: Heap<T>)
        ensures
            cell@ == Self::fresh(address),
            Self::is_coherent(cell@),
    {
        Heap { ptr: T::initial(), address, notified: Ghost(Seq::empty()) }
    }

    /// Stores `v`: reads the value that was there, overwrites it, and
    /// notifies the policy of the change, also where `v` is the value that
    /// was there. Returns the call that the collector must receive.
    #[must_use]
    pub fn set(&mut self, v: T) -> (call: Option<PostBarrier>)
        ensures
            final(self)@ == old(self)@.set(v),
            call == T::barrier(old(self)@.notification(v)),
            Self::is_coherent(final(self)@),
    {
        proof {
            use_type_invariant(&*self);
        }
        let prev = self.ptr;
        let address = self.address;
        let ghost told = self.notified@.push(Notification { slot: address, prev, next: v });
        *self = Heap { ptr: v, address, notified: Ghost(told) };
        T::post_barrier(address, prev, v)
    }

    /// Reads the value. Reading changes nothing and notifies nobody.
    pub fn get(&self) -> (v: T)
        ensures
            v == self@.value,
            Self::is_coherent(self@),
    {
        proof {
            use_type_invariant(self);
        }
        self.ptr
    }

    /// The address of the cell's storage.
    pub fn get_unsafe(&self) -> (address: usize)
        ensures
            address == self@.address,
    {
        self.address
    }

    /// A read-only view of the value. There is no mutable view of a cell: a
    /// store through one would bypass the barrier.
    pub fn handle(&self) -> (h: Handle<'_, T>)
        ensures
            h.value() == self@.value,
    {
        Handle::from_marked_location(&self.ptr)
    }

    /// Destroys the cell: notifies the policy once more, of the change from
    /// the value that the cell holds to the sentinel, and gives up the
    /// storage. Returns the call that the collector must receive. With this
    /// last notification the trace of the cell is complete.
    #[must_use]
    pub fn destroy(self) -> (call: Option<PostBarrier>)
        ensures
            call == T::barrier(self@.notification(T::sentinel())),
            Self::is_lifetime(self@.set(T::sentinel()).notified, self@.address),
    {
        proof {
            use_type_invariant(&self);
        }
        T::post_barrier(self.address, self.ptr, T::initial())
    }
}

} // verus!
