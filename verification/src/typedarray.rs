//! Typed arrays: native views of the buffers that scripts fill.
//!
//! The engine owns the arrays and their buffers. A `TypedArray` keeps the
//! array's object alive through a guarded cell and remembers where the
//! engine said the buffer is; what the engine answers is taken as it comes.

use vstd::prelude::*;
use crate::barrier::GCMethods;
use crate::barrier::PostBarrier;
use crate::context::Context;
use crate::handle::MutableHandleObject;
use crate::heap::Heap;
use crate::heap::HeapView;
use crate::kind::TracedKind;
use crate::refs::ObjectRef;
use crate::rooted::Rooted;
use crate::rooted::RootedGuard;

verus! {

/// What a new typed array starts out with.
pub enum CreateWith<'a, T> {
    /// So many elements, all zero.
    Length(u32),
    /// A copy of these elements.
    Slice(&'a [T]),
}

impl<'a, T> CreateWith<'a, T> {
    /// The number of elements that the new array has, if an array can have
    /// so many: a slice gives its own length, which has to fit into 32 bits.
    pub open spec fn length_of(self) -> Option<u32> {
        match self {
            CreateWith::Length(length) => Some(length),
            CreateWith::Slice(slice) => if slice@.len() <= u32::MAX {
                Some(slice@.len() as u32)
            } else {
                None
            },
        }
    }

    /// The number of elements that the new array has, or `None` for a slice
    /// that is longer than any array.
    pub fn length(&self) -> (length: Option<u32>)
        ensures
            length == self.length_of(),
    {
        match self {
            CreateWith::Length(length) => Some(*length),
            CreateWith::Slice(slice) => {
                let n: usize = slice.len();
                if n <= u32::MAX as usize {
                    Some(n as u32)
                } else {
                    None
                }
            },
        }
    }
}

/// The buffer of a typed array as the engine reported it: the address of the
/// first element and the number of elements.
#[derive(Clone, Copy, PartialEq, Eq, Structural, Debug)]
pub struct ArrayData {
    pub pointer: usize,
    pub length: u32,
}

/// A type of element, with what the engine offers for arrays of it. The
/// engine's answers depend on the heap at the time of the call, so nothing
/// is promised of them.
pub trait TypedArrayElement {
    /// The primitive type that holds one element.
    type Element;

    /// Asks the engine for the array behind a reflector; the answer is null
    /// if the object is no typed array of this type of element.
    fn unwrap_array(obj: ObjectRef) -> ObjectRef;

    /// Asks the engine for the buffer of an array.
    fn length_and_data(obj: ObjectRef) -> ArrayData;
}

/// A type of element of which new arrays can be made.
pub trait TypedArrayElementCreator: TypedArrayElement {
    /// Asks the engine for a new array of `length` elements in the context at
    /// the address `cx`; the answer is null if the engine could not make
    /// one.
    fn create_new(cx: usize, length: u32) -> ObjectRef;

    /// Asks the engine for the address of the first element of an array.
    fn get_data(obj: ObjectRef) -> usize;
}

/// A typed array that is kept alive: the array's object sits in a guarded
/// cell of its own, and the buffer is asked for once and remembered.
pub struct TypedArray<T: TypedArrayElement> {
    object: Box<Heap<ObjectRef>>,
    computed: Option<ArrayData>,
    element: core::marker::PhantomData<T>,
}

impl<T: TypedArrayElement> TypedArray<T> {
    /// The cell that holds the array's object.
    pub closed spec fn cell(&self) -> HeapView<ObjectRef> {
        (*self.object)@
    }

    /// The buffer, if it has been asked for.
    pub closed spec fn remembered(&self) -> Option<ArrayData> {
        self.computed
    }

    /// Wraps the array that the engine found behind a reflector, with a new
    /// cell at `address` to hold it. No array was found if `unwrapped` is
    /// null, and that is the one error. Otherwise the array is stored in the
    /// cell, which raises the cell's first notification, and the call for the
    /// collector comes back with the typed array. The buffer is not asked
    /// for yet.
    pub fn from_unwrapped(unwrapped: ObjectRef, address: usize) -> (r: Result<
        (TypedArray<T>, Option<PostBarrier>),
        (),
    >)
        ensures
            unwrapped == ObjectRef(0) <==> r is Err,
            r matches Ok((array, call)) ==> {
                &&& array.cell() == Heap::<ObjectRef>::fresh(address).set(unwrapped)
                &&& array.remembered() is None
                &&& call == <ObjectRef as GCMethods<ObjectRef>>::barrier(
                    Heap::<ObjectRef>::fresh(address).notification(unwrapped),
                )
            },
    {
        if unwrapped.is_null() {
            return Err(());
        }
        let mut cell: Box<Heap<ObjectRef>> = Box::new(Heap::new(address));
        let call = cell.set(unwrapped);
        Ok((TypedArray { object: cell, computed: None, element: core::marker::PhantomData }, call))
    }

    /// Wraps the typed array behind a reflector, with a new cell at
    /// `address` to hold it. The reflector is rooted while the engine is
    /// asked for the array, and unrooted again before this returns: the heads
    /// of the scan table are as before. A null reflector is an error, and so
    /// is a reflector behind which the engine finds no array of this type of
    /// element: see `from_unwrapped` for what the engine's answer leads to.
    pub fn from(cx: &mut Context, object: ObjectRef, address: usize) -> (r: Result<
        (TypedArray<T>, Option<PostBarrier>),
        (),
    >)
        requires
            old(cx)@.has_room(),
        ensures
            final(cx)@ == old(cx)@.link(TracedKind::Object).unlink(
                old(cx)@.next_linkage(TracedKind::Object),
            ),
            final(cx)@.same_heads(old(cx)@),
            object == ObjectRef(0) ==> r is Err,
            r matches Ok((array, call)) ==> {
                &&& array.cell().address == address
                &&& array.cell().value != ObjectRef(0)
                &&& array.cell().notified.len() == 1
                &&& array.remembered() is None
                &&& call == <ObjectRef as GCMethods<ObjectRef>>::barrier(array.cell().notified[0])
            },
    {
        let mut slot = Rooted::new_unrooted(object);
        let rooted = RootedGuard::new(cx, &mut slot);
        let r = if rooted.get().is_null() {
            Err(())
        } else {
            let unwrapped = T::unwrap_array(rooted.get());
            Self::from_unwrapped(unwrapped, address)
        };
        rooted.destroy(cx);
        r
    }

    /// The buffer of the array. The engine is asked the first time only; what
    /// it said then is what every later call returns.
    pub fn data(&mut self) -> (data: ArrayData)
        ensures
            old(self).remembered() is Some ==> data == old(self).remembered()->0,
            final(self).remembered() == Some(data),
            final(self).cell() == old(self).cell(),
    {
        if let Some(data) = self.computed {
            return data;
        }
        let data = T::length_and_data(self.object.get());
        self.computed = Some(data);
        data
    }

    /// The cell that holds the array's object.
    pub fn object(&self) -> (cell: &Heap<ObjectRef>)
        ensures
            cell@ == self.cell(),
    {
        &self.object
    }

    /// Whether `count` elements fit into a buffer of `length` elements, as
    /// they must before they are copied into it.
    pub fn fits(count: usize, length: u32) -> (b: bool)
        ensures
            b == (count <= length),
    {
        count <= length as usize
    }

    /// Gives up the typed array: its cell is destroyed, which raises the
    /// cell's last notification. Returns the call for the collector.
    #[must_use]
    pub fn destroy(self) -> (call: Option<PostBarrier>)
        ensures
            call == <ObjectRef as GCMethods<ObjectRef>>::barrier(
                self.cell().notification(ObjectRef(0)),
            ),
    {
        let cell: Heap<ObjectRef> = *self.object;
        cell.destroy()
    }
}

impl<T: TypedArrayElementCreator> TypedArray<T> {
    /// Makes a new array in the engine's context at the address `cx` and
    /// stores its object through `result`, whatever the engine answered. A
    /// null answer is the one error. For an array that starts out with a copy
    /// of a slice, the engine is then asked for the new array's buffer, and
    /// the buffer comes back for the caller to copy the slice into, once it
    /// has seen that the slice fits.
    pub fn create(
        cx: usize,
        with: &CreateWith<'_, T::Element>,
        result: &mut MutableHandleObject<'_>,
    ) -> (r: Result<Option<ArrayData>, ()>)
        requires
            with.length_of() is Some,
        ensures
            r is Err <==> final(result).value() == ObjectRef(0),
            r matches Ok(buffer) ==> (buffer is Some <==> with is Slice),
            *final(final(result).ptr) == *final(old(result).ptr),
    {
        let length: u32 = match with.length() {
            Some(length) => length,
            None => 0,
        };
        result.set(T::create_new(cx, length));
        if result.get().is_null() {
            return Err(());
        }
        match with {
            CreateWith::Slice(_) => Ok(Some(T::length_and_data(result.get()))),
            CreateWith::Length(_) => Ok(None),
        }
    }
}

} // verus!
