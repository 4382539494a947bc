//! Slots of the shadow stack and the scoped roots that link them.

use vstd::prelude::*;
use crate::context::Context;
use crate::context::Linkage;
use crate::context::LinkageView;
use crate::handle::Handle;
use crate::handle::MutableHandle;
use crate::kind::RootKind;

verus! {

/// A slot of the shadow stack: one traced value, and the slot's linkage while
/// it is linked into a scan table. The linkage of a linked slot does not
/// change until the slot is unlinked.
#[derive(Debug)]
pub struct Rooted<T> {
    link: Option<Linkage>,
    ptr: T,
}

/// What a slot holds.
pub struct RootedView<T> {
    /// The linkage, if the slot is linked.
    pub link: Option<LinkageView>,
    /// The traced value.
    pub value: T,
}

impl<T> RootedView<T> {
    /// The slot after a plain store of `v`: the value is replaced and the
    /// linkage is as before.
    pub open spec fn store(self, v: T) -> RootedView<T> {
        RootedView { link: self.link, value: v }
    }
}

impl<T> View for Rooted<T> {
    type V = RootedView<T>;

    closed spec fn view(&self) -> RootedView<T> {
        RootedView {
            link: match self.link {
                Some(linkage) => Some(linkage@),
                None => None,
            },
            value: self.ptr,
        }
    }
}

impl<T> Rooted<T> {
    /// A slot that holds `initial` and is not linked.
    pub fn new_unrooted(initial: T) -> (root: Rooted<T>)
        ensures
            root@ == (RootedView { link: None, value: initial }),
    {
        Rooted { link: None, ptr: initial }
    }

    /// Whether the slot is linked into a scan table.
    pub fn is_linked(&self) -> (b: bool)
        ensures
            b == (self@.link is Some),
    {
        self.link.is_some()
    }

    /// Links the slot at the head of the chain of its kind. Its value is not
    /// touched.
    pub fn add_to_root_stack(&mut self, cx: &mut Context) where T: RootKind
        requires
            old(self)@.link is None,
            old(cx)@.has_room(),
        ensures
            final(self)@ == (RootedView {
                link: Some(old(cx)@.next_linkage(T::kind())),
                value: old(self)@.value,
            }),
            final(cx)@ == old(cx)@.link(T::kind()),
            final(cx)@.is_innermost(final(self)@.link->0),
    {
        let linkage = cx.link(T::rootKind());
        self.link = Some(linkage);
    }

    /// Unlinks the slot, which must be at the head of its chain in `cx`. Its
    /// value is not touched.
    pub fn remove_from_root_stack(&mut self, cx: &mut Context)
        requires
            old(self)@.link is Some,
            old(cx)@.is_innermost(old(self)@.link->0),
        ensures
            final(self)@ == (RootedView { link: None, value: old(self)@.value }),
            final(cx)@ == old(cx)@.unlink(old(self)@.link->0),
    {
        let link = self.link.take();
        match link {
            Some(linkage) => {
                cx.unlink(linkage);
            },
            None => {},
        }
    }
}

/// A scoped root: it links a slot when it is made and unlinks it when it is
/// destroyed, and hands out views of the slot's value in between. Destroying
/// it uses it up, so a slot cannot be unlinked twice.
pub struct RootedGuard<'a, T> {
    root: &'a mut Rooted<T>,
}

impl<'a, T> RootedGuard<'a, T> {
    /// The slot that the root has borrowed.
    pub closed spec fn slot(&self) -> &'a mut Rooted<T> {
        self.root
    }

    #[verifier::type_invariant]
    spec fn slot_is_linked(self) -> bool {
        self.root.link is Some
    }

    /// The value in the slot.
    pub open spec fn value(&self) -> T {
        self.slot()@.value
    }

    /// Whether the slot is linked, as it is from creation to destruction.
    pub open spec fn is_linked(&self) -> bool {
        self.slot()@.link is Some
    }

    /// The linkage of the slot.
    pub open spec fn linkage(&self) -> LinkageView
        recommends
            self.is_linked(),
    {
        self.slot()@.link->0
    }

    /// Roots a slot in a context: links it at the head of the chain of its
    /// kind and returns the scoped root that will unlink it. The slot's value
    /// is not touched. What the slot holds when the scoped root is gone is
    /// what the scoped root left in it.
    pub fn new(cx: &mut Context, root: &'a mut Rooted<T>) -> (guard: Self) where T: RootKind
        requires
            old(root)@.link is None,
            old(cx)@.has_room(),
        ensures
            guard.is_linked(),
            guard.linkage() == old(cx)@.next_linkage(T::kind()),
            guard.value() == old(root)@.value,
            final(cx)@ == old(cx)@.link(T::kind()),
            final(cx)@.is_innermost(guard.linkage()),
            *final(root) == *final(guard.slot()),
    {
        root.add_to_root_stack(cx);
        RootedGuard { root }
    }

    /// A read-only view of the slot's value.
    pub fn handle(&self) -> (h: Handle<'_, T>)
        ensures
            h.value() == self.value(),
    {
        Handle::from_marked_location(&self.root.ptr)
    }

    /// A mutable view of the slot's value. When the view is given up the slot
    /// holds what the view held last; its linkage is as before.
    pub fn handle_mut(&mut self) -> (h: MutableHandle<'_, T>)
        ensures
            h.value() == old(self).value(),
            final(self).slot()@ == old(self).slot()@.store(*final(h.ptr)),
            *final(final(self).slot()) == *final(old(self).slot()),
    {
        proof {
            use_type_invariant(&*self);
        }
        MutableHandle::from_marked_location(&mut self.root.ptr)
    }

    /// Reads the slot's value.
    pub fn get(&self) -> (v: T) where T: Copy
        ensures
            v == self.value(),
    {
        self.root.ptr
    }

    /// Replaces the slot's value by a plain store. The linkage is as before,
    /// and nothing is told to the collector.
    pub fn set(&mut self, v: T)
        ensures
            final(self).slot()@ == old(self).slot()@.store(v),
            *final(final(self).slot()) == *final(old(self).slot()),
    {
        proof {
            use_type_invariant(&*self);
        }
        self.root.ptr = v;
    }

    /// The address under which the slot is linked.
    pub fn address(&self) -> (address: usize)
        ensures
            self.is_linked(),
            address == self.linkage().address,
    {
        proof {
            use_type_invariant(self);
        }
        match &self.root.link {
            Some(linkage) => linkage.address(),
            None => 0,
        }
    }

    /// The address that was at the head of the chain when the slot was
    /// linked.
    pub fn previous(&self) -> (previous: usize)
        ensures
            self.is_linked(),
            previous == self.linkage().previous,
    {
        proof {
            use_type_invariant(self);
        }
        match &self.root.link {
            Some(linkage) => linkage.previous(),
            None => 0,
        }
    }

    /// Ends the scope of the root: unlinks the slot, which must be at the
    /// head of its chain in `cx`. The slot keeps its value.
    pub fn destroy(self, cx: &mut Context)
        requires
            old(cx)@.is_innermost(self.linkage()),
        ensures
            final(cx)@ == old(cx)@.unlink(self.linkage()),
            final(self.slot())@ == (RootedView { link: None, value: self.value() }),
    {
        proof {
            use_type_invariant(&self);
        }
        let RootedGuard { root } = self;
        root.remove_from_root_stack(cx);
    }

    /// Ends the scope of the root if its slot is at the head of its chain in
    /// `cx`. If it is not, the root is being destroyed out of order, or in a
    /// context that is not its own: nothing is changed, and the root comes
    /// back as the error.
    pub fn try_destroy(self, cx: &mut Context) -> (r: Result<(), RootedGuard<'a, T>>)
        ensures
            old(cx)@.is_innermost(self.linkage()) ==> {
                &&& r is Ok
                &&& final(cx)@ == old(cx)@.unlink(self.linkage())
                &&& final(self.slot())@ == (RootedView { link: None, value: self.value() })
            },
            !old(cx)@.is_innermost(self.linkage()) ==> {
                &&& r == Err::<(), RootedGuard<'a, T>>(self)
                &&& final(cx)@ == old(cx)@
            },
    {
        proof {
            use_type_invariant(&self);
        }
        let innermost = match &self.root.link {
            Some(linkage) => cx.is_innermost(linkage),
            None => false,
        };
        if innermost {
            self.destroy(cx);
            Ok(())
        } else {
            Err(self)
        }
    }
}

impl<'a, T> core::ops::Deref for RootedGuard<'a, T> {
    type Target = T;

    /// The slot's value, by reference.
    fn deref(&self) -> (v: &T)
        ensures
            *v == self.value(),
    {
        &self.root.ptr
    }
}

} // verus!
