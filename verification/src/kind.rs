//! The kinds of reference that the collector traces.

use vstd::prelude::*;

verus! {

/// The closed set of kinds that the collector recognises. Each kind has a
/// chain of its own in a context's scan table.
#[derive(Clone, Copy, PartialEq, Eq, Structural, Debug, Hash)]
pub enum TracedKind {
    Object,
    String,
    Script,
    Function,
    Symbol,
    Value,
    Identifier,
}

/// How many kinds there are, and so how many entries a scan table has.
pub const KIND_COUNT: usize = 7;

impl TracedKind {
    /// The scan-table entry that belongs to this kind.
    pub open spec fn slot(self) -> int {
        match self {
            TracedKind::Object => 0,
            TracedKind::String => 1,
            TracedKind::Script => 2,
            TracedKind::Function => 3,
            TracedKind::Symbol => 4,
            TracedKind::Value => 5,
            TracedKind::Identifier => 6,
        }
    }

    /// The kind that owns scan-table entry `i`, if `i` is an entry at all.
    pub open spec fn of_slot(i: int) -> Option<TracedKind> {
        if i == 0 {
            Some(TracedKind::Object)
        } else if i == 1 {
            Some(TracedKind::String)
        } else if i == 2 {
            Some(TracedKind::Script)
        } else if i == 3 {
            Some(TracedKind::Function)
        } else if i == 4 {
            Some(TracedKind::Symbol)
        } else if i == 5 {
            Some(TracedKind::Value)
        } else if i == 6 {
            Some(TracedKind::Identifier)
        } else {
            None
        }
    }

    /// The index of this kind's entry in a scan table.
    pub fn index(self) -> (i: usize)
        ensures
            i == self.slot(),
            i < KIND_COUNT,
    {
        match self {
            TracedKind::Object => 0,
            TracedKind::String => 1,
            TracedKind::Script => 2,
            TracedKind::Function => 3,
            TracedKind::Symbol => 4,
            TracedKind::Value => 5,
            TracedKind::Identifier => 6,
        }
    }

    /// The kind whose entry has index `i`.
    pub fn from_index(i: usize) -> (kind: Option<TracedKind>)
        ensures
            kind == Self::of_slot(i as int),
            kind is Some <==> i < KIND_COUNT,
    {
        if i == 0 {
            Some(TracedKind::Object)
        } else if i == 1 {
            Some(TracedKind::String)
        } else if i == 2 {
            Some(TracedKind::Script)
        } else if i == 3 {
            Some(TracedKind::Function)
        } else if i == 4 {
            Some(TracedKind::Symbol)
        } else if i == 5 {
            Some(TracedKind::Value)
        } else if i == 6 {
            Some(TracedKind::Identifier)
        } else {
            None
        }
    }
}

/// Every kind has an entry of its own: the entry of a kind leads back to that
/// kind, so no two kinds share one.
pub proof fn lemma_kinds_do_not_alias(a: TracedKind, b: TracedKind)
    ensures
        0 <= a.slot() < KIND_COUNT,
        TracedKind::of_slot(a.slot()) == Some(a),
        a.slot() == b.slot() ==> a == b,
{
}

/// A type of reference that can be registered as a root. The kind is a
/// property of the type alone.
pub trait RootKind {
    /// The kind under which references of this type are traced.
    spec fn kind() -> TracedKind;

    /// Returns the kind under which references of this type are traced.
    #[allow(non_snake_case)]
    fn rootKind() -> (kind: TracedKind)
        ensures
            kind == Self::kind(),
    ;
}

} // verus!
