//! A pool that keeps names alive for as long as the engine refers to them.

use vstd::prelude::*;

verus! {

/// A pool of names. A name that was added stays in the pool, at the place
/// that it was given.
pub struct NamePool {
    strbufs: Vec<String>,
}

impl View for NamePool {
    type V = Seq<Seq<char>>;

    closed spec fn view(&self) -> Seq<Seq<char>> {
        Seq::new(self.strbufs@.len(), |i: int| self.strbufs@[i]@)
    }
}

/// A new pool, with no name in it.
pub fn name_pool() -> (pool: NamePool)
    ensures
        pool@ == Seq::<Seq<char>>::empty(),
{
    NamePool { strbufs: Vec::new() }
}

impl NamePool {
    /// Adds a name and returns its place in the pool. The names that were in
    /// the pool stay where they are.
    pub fn add(&mut self, s: String) -> (place: usize)
        ensures
            place == old(self)@.len(),
            final(self)@ == old(self)@.push(s@),
    {
        let place: usize = self.strbufs.len();
        self.strbufs.push(s);
        place
    }

    /// The number of names in the pool.
    pub fn len(&self) -> (n: usize)
        ensures
            n == self@.len(),
    {
        self.strbufs.len()
    }
}

} // verus!
