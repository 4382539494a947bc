//! Borrowed views of rooted storage.
//!
//! A view does not own what it shows. It borrows the storage, so it cannot
//! outlive it, and while a mutable view is out nothing else reads or writes
//! the storage.

use vstd::prelude::*;
use crate::refs::FunctionRef;
use crate::refs::JsId;
use crate::refs::ObjectRef;
use crate::refs::ScriptRef;
use crate::refs::StringRef;
use crate::value::Value;

verus! {

/// A read-only view of a rooted value.
#[derive(Debug)]
pub struct Handle<'a, T> {
    pub ptr: &'a T,
}

/// A view of a rooted value through which the value can be replaced. It is
/// only given out for storage that the collector finds through a scan table,
/// so a write through it is a plain store and raises no barrier.
#[derive(Debug)]
pub struct MutableHandle<'a, T> {
    pub ptr: &'a mut T,
}

/// A read-only view of a value.
pub type HandleValue<'a> = Handle<'a, Value>;

/// A read-only view of a reference to an object.
pub type HandleObject<'a> = Handle<'a, ObjectRef>;

/// A read-only view of a reference to a function.
pub type HandleFunction<'a> = Handle<'a, FunctionRef>;

/// A read-only view of a reference to a string.
pub type HandleString<'a> = Handle<'a, StringRef>;

/// A read-only view of a reference to a script.
pub type HandleScript<'a> = Handle<'a, ScriptRef>;

/// A read-only view of an identifier.
pub type HandleId<'a> = Handle<'a, JsId>;

/// A mutable view of a value.
pub type MutableHandleValue<'a> = MutableHandle<'a, Value>;

/// A mutable view of a reference to an object.
pub type MutableHandleObject<'a> = MutableHandle<'a, ObjectRef>;

impl<'a, T> Handle<'a, T> {
    /// The value that the view shows.
    pub open spec fn value(&self) -> T {
        *self.ptr
    }

    /// A view of a location that is already rooted.
    pub fn from_marked_location(ptr: &'a T) -> (h: Handle<'a, T>)
        ensures
            h.value() == *ptr,
    {
        Handle { ptr }
    }

    /// Reads the value.
    pub fn get(&self) -> (v: T) where T: Copy
        ensures
            v == self.value(),
    {
        *self.ptr
    }
}

impl<'a, T> MutableHandle<'a, T> {
    /// The value that the view shows now.
    pub open spec fn value(&self) -> T {
        *self.ptr
    }

    /// A mutable view of a location that is already rooted. What the location
    /// holds in the end is what the view holds in the end.
    pub fn from_marked_location(ptr: &'a mut T) -> (h: MutableHandle<'a, T>)
        ensures
            h.value() == *old(ptr),
            *final(h.ptr) == *final(ptr),
        no_unwind
    {
        MutableHandle { ptr }
    }

    /// A read-only view of the same location.
    pub fn handle(&self) -> (h: Handle<'_, T>)
        ensures
            h.value() == self.value(),
    {
        Handle { ptr: &*self.ptr }
    }

    /// Reads the value.
    pub fn get(&self) -> (v: T) where T: Copy
        ensures
            v == self.value(),
    {
        *self.ptr
    }

    /// Replaces the value. The store is plain: the view stays on the same
    /// location, and nothing is told to the collector.
    pub fn set(&mut self, v: T)
        ensures
            final(self).value() == v,
            *final(final(self).ptr) == *final(old(self).ptr),
    {
        *self.ptr = v;
    }
}

impl<'a, T> Clone for Handle<'a, T> {
    /// Another view of the same location.
    fn clone(&self) -> (h: Self)
        ensures
            h == *self,
    {
        Handle { ptr: self.ptr }
    }
}

impl<'a, T> Copy for Handle<'a, T> {

}

impl<'a, T> core::ops::Deref for Handle<'a, T> {
    type Target = T;

    /// The value that the view shows, by reference.
    fn deref(&self) -> (v: &T)
        ensures
            *v == self.value(),
    {
        self.ptr
    }
}

impl<'a, T> core::ops::Deref for MutableHandle<'a, T> {
    type Target = T;

    /// The value that the view shows now, by reference.
    fn deref(&self) -> (v: &T)
        ensures
            *v == self.value(),
    {
        &*self.ptr
    }
}

impl<'a> HandleValue<'a> {
    /// A view of the null value, which needs no context.
    pub fn null() -> (h: HandleValue<'static>)
        ensures
            h.value() == Value::Null,
    {
        Handle { ptr: &Value::Null }
    }

    /// A view of the undefined value, which needs no context.
    pub fn undefined() -> (h: HandleValue<'static>)
        ensures
            h.value() == Value::Undefined,
    {
        Handle { ptr: &Value::Undefined }
    }
}

impl<'a> HandleObject<'a> {
    /// A view of the reference to no object, which needs no context.
    pub fn null() -> (h: HandleObject<'static>)
        ensures
            h.value() == ObjectRef(0),
    {
        Handle { ptr: &ObjectRef(0) }
    }
}

} // verus!
