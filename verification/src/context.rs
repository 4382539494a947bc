//! The scan table of an execution context.
//!
//! For each traced kind the table holds the address of the slot that was
//! linked last and is still linked, or null. A linked slot remembers the
//! table that it is in and the address that it replaced there, so the slots of
//! one kind form a chain that the collector follows from the table. Slots
//! are linked and unlinked in stack order, which the table checks on every
//! unlink.

use vstd::prelude::*;
use crate::kind::KIND_COUNT;
use crate::kind::TracedKind;

verus! {

/// The address that refers to no slot.
pub const NULL_ADDRESS: usize = 0;

/// The first address that a new context hands out.
pub const FIRST_ADDRESS: usize = 1;

/// The place of one slot in a scan table: proof that the slot was linked,
/// and what is needed to unlink it. It is made by linking and used up by
/// unlinking, so no slot is unlinked twice.
#[derive(Debug)]
pub struct Linkage {
    table: usize,
    kind: TracedKind,
    address: usize,
    previous: usize,
}

/// What a linkage records.
pub struct LinkageView {
    /// The table that the slot is linked into, by the address of its
    /// context.
    pub table: usize,
    /// The kind whose chain the slot is in.
    pub kind: TracedKind,
    /// The address of the slot.
    pub address: usize,
    /// The address that was at the head of the chain before the slot.
    pub previous: usize,
}

impl View for Linkage {
    type V = LinkageView;

    closed spec fn view(&self) -> LinkageView {
        LinkageView {
            table: self.table,
            kind: self.kind,
            address: self.address,
            previous: self.previous,
        }
    }
}

impl Linkage {
    /// The table that the slot is linked into, by the address of its
    /// context.
    pub fn table(&self) -> (table: usize)
        ensures
            table == self@.table,
    {
        self.table
    }

    /// The kind whose chain the slot is in.
    pub fn kind(&self) -> (kind: TracedKind)
        ensures
            kind == self@.kind,
    {
        self.kind
    }

    /// The address of the slot.
    pub fn address(&self) -> (address: usize)
        ensures
            address == self@.address,
    {
        self.address
    }

    /// The address that was at the head of the chain before the slot.
    pub fn previous(&self) -> (previous: usize)
        ensures
            previous == self@.previous,
    {
        self.previous
    }
}

/// A scan table as a mathematical value: the address of the context that
/// owns it, the head of each kind's chain, and the next address that will be
/// handed out to a slot.
#[verifier::ext_equal]
pub struct ScanTable {
    pub context: usize,
    pub heads: Map<TracedKind, usize>,
    pub next_address: usize,
}

impl ScanTable {
    /// The table of a new context at the address `context`: every chain is
    /// empty.
    pub open spec fn empty(context: usize) -> ScanTable {
        ScanTable {
            context,
            heads: Map::total(|kind: TracedKind| NULL_ADDRESS),
            next_address: FIRST_ADDRESS,
        }
    }

    /// The address at the head of a kind's chain, null if the chain is empty.
    pub open spec fn head(self, kind: TracedKind) -> usize {
        self.heads[kind]
    }

    /// Whether this table and another are of one context and have the same
    /// head for every kind.
    pub open spec fn same_heads(self, other: ScanTable) -> bool {
        &&& self.context == other.context
        &&& forall|kind: TracedKind| self.head(kind) == other.head(kind)
    }

    /// Whether an address is left for one more slot.
    pub open spec fn has_room(self) -> bool {
        self.next_address < usize::MAX
    }

    /// The linkage that the next slot of a kind gets: a fresh address, and
    /// the present head as its predecessor.
    pub open spec fn next_linkage(self, kind: TracedKind) -> LinkageView {
        LinkageView {
            table: self.context,
            kind,
            address: self.next_address,
            previous: self.head(kind),
        }
    }

    /// The table after a slot of a kind was linked.
    pub open spec fn link(self, kind: TracedKind) -> ScanTable {
        ScanTable {
            context: self.context,
            heads: self.heads.insert(kind, self.next_address),
            next_address: (self.next_address + 1) as usize,
        }
    }

    /// Whether a slot may be unlinked now: it is linked into this table, and
    /// it is the one that was linked last among those of its kind that are
    /// still linked.
    pub open spec fn is_innermost(self, linkage: LinkageView) -> bool {
        &&& linkage.table == self.context
        &&& self.head(linkage.kind) == linkage.address
    }

    /// The table after a slot was unlinked: the head of its chain is its
    /// predecessor again.
    pub open spec fn unlink(self, linkage: LinkageView) -> ScanTable {
        ScanTable {
            context: self.context,
            heads: self.heads.insert(linkage.kind, linkage.previous),
            next_address: self.next_address,
        }
    }
}

/// An execution context, as far as rooting goes: the address of the
/// engine's context, and the scan table, which the context owns. Nothing but
/// linking and unlinking writes to the table.
pub struct Context {
    address: usize,
    stack_roots: [usize; KIND_COUNT],
    next_address: usize,
}

impl View for Context {
    type V = ScanTable;

    closed spec fn view(&self) -> ScanTable {
        ScanTable {
            context: self.address,
            heads: Map::total(|kind: TracedKind| self.stack_roots[kind.slot()]),
            next_address: self.next_address,
        }
    }
}

impl Context {
    #[verifier::type_invariant]
    spec fn addresses_are_not_null(self) -> bool {
        self.next_address >= FIRST_ADDRESS
    }

    /// The context at `address`, with nothing rooted. Contexts that are in
    /// use together have different addresses.
    pub fn new(address: usize) -> (cx: Context)
        ensures
            cx@ == ScanTable::empty(address),
    {
        Context { address, stack_roots: [NULL_ADDRESS; KIND_COUNT], next_address: FIRST_ADDRESS }
    }

    /// The address of the engine's context.
    pub fn address(&self) -> (address: usize)
        ensures
            address == self@.context,
    {
        self.address
    }

    /// The address of the slot that was linked last among the linked slots of
    /// a kind, or null.
    pub fn head(&self, kind: TracedKind) -> (address: usize)
        ensures
            address == self@.head(kind),
    {
        self.stack_roots[kind.index()]
    }

    /// Whether one more slot can be linked.
    pub fn has_room(&self) -> (b: bool)
        ensures
            b == self@.has_room(),
    {
        self.next_address < usize::MAX
    }

    /// Links a new slot at the head of a kind's chain and returns its
    /// linkage. The slot gets an address that no slot of this context had
    /// before; the chains of the other kinds are not touched.
    pub fn link(&mut self, kind: TracedKind) -> (linkage: Linkage)
        requires
            old(self)@.has_room(),
        ensures
            linkage@ == old(self)@.next_linkage(kind),
            linkage@.address != NULL_ADDRESS,
            final(self)@ == old(self)@.link(kind),
            final(self)@.is_innermost(linkage@),
    {
        proof {
            use_type_invariant(&*self);
        }
        let i: usize = kind.index();
        let address: usize = self.next_address;
        let linkage = Linkage { table: self.address, kind, address, previous: self.stack_roots[i] };
        self.stack_roots[i] = address;
        self.next_address = address + 1;
        linkage
    }

    /// Whether the slot with this linkage is linked into this table and at
    /// the head of its chain.
    pub fn is_innermost(&self, linkage: &Linkage) -> (b: bool)
        ensures
            b == self@.is_innermost(linkage@),
    {
        linkage.table == self.address && self.stack_roots[linkage.kind.index()] == linkage.address
    }

    /// Unlinks a slot, which must be at the head of its chain in this table:
    /// the head is the slot's predecessor again, and the other chains are not
    /// touched.
    pub fn unlink(&mut self, linkage: Linkage)
        requires
            old(self)@.is_innermost(linkage@),
        ensures
            final(self)@ == old(self)@.unlink(linkage@),
    {
        proof {
            use_type_invariant(&*self);
        }
        self.stack_roots[linkage.kind.index()] = linkage.previous;
    }

    /// Unlinks the slot if it is at the head of its chain in this table. If
    /// it is not, the slot is being unlinked out of order, or from a table
    /// that it is not in: the table is left as it is and the linkage comes
    /// back as the error.
    pub fn try_unlink(&mut self, linkage: Linkage) -> (r: Result<(), Linkage>)
        ensures
            old(self)@.is_innermost(linkage@) ==> r is Ok && final(self)@ == old(self)@.unlink(
                linkage@,
            ),
            !old(self)@.is_innermost(linkage@) ==> r == Err::<(), Linkage>(linkage) && final(self)@
                == old(self)@,
    {
        if self.is_innermost(&linkage) {
            self.unlink(linkage);
            Ok(())
        } else {
            Err(linkage)
        }
    }
}

} // verus!
