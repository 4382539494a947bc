//! The barrier policy of each kind of reference.
//!
//! Whenever a long-lived cell changes what it holds, the kind's policy is
//! notified with the cell's address, the value that was there and the value
//! that is there now. The policy answers with the call that the collector
//! must receive, if the kind needs one. Making that call is left to the
//! caller: nothing here reaches into the collector.

use vstd::prelude::*;
use crate::refs::FunctionRef;
use crate::refs::JsId;
use crate::consts::JSID_TYPE_VOID;
use crate::kind::RootKind;
use crate::refs::ObjectRef;
use crate::refs::ScriptRef;
use crate::refs::StringRef;
use crate::value::Value;

verus! {

/// One notification of a barrier policy: the cell at `slot` held `prev` and
/// now holds `next`.
#[derive(PartialEq, Eq, Structural, Debug)]
pub struct Notification<T> {
    pub slot: usize,
    pub prev: T,
    pub next: T,
}

impl<T: Copy> Clone for Notification<T> {
    fn clone(&self) -> (copy: Self)
        ensures
            copy == *self,
    {
        *self
    }
}

impl<T: Copy> Copy for Notification<T> {

}

/// A call that the collector must receive after a cell has changed.
#[derive(Clone, Copy, PartialEq, Eq, Structural, Debug)]
pub enum PostBarrier {
    /// The post barrier of a cell that holds an object reference.
    HeapObject(Notification<ObjectRef>),
    /// The post barrier of a cell that holds a value.
    HeapValue(Notification<Value>),
}

/// The barrier policy of a type of reference, which has a kind: its value for
/// "no reference", and what the collector must be told when a cell changes.
/// A notification is accepted for every pair of values, equal ones included.
pub trait GCMethods<T>: RootKind {
    /// The value that stands for "no reference".
    spec fn sentinel() -> T;

    /// What the collector must be told of a notification; `None` where the
    /// kind needs no record of the change.
    spec fn barrier(n: Notification<T>) -> Option<PostBarrier>;

    /// Returns the value that stands for "no reference".
    fn initial() -> (v: T)
        ensures
            v == Self::sentinel(),
    ;

    /// Notifies the policy that the cell at address `v` went from `prev` to
    /// `next`, and returns the call that the collector must receive.
    fn post_barrier(v: usize, prev: T, next: T) -> (call: Option<PostBarrier>)
        ensures
            call == Self::barrier(Notification { slot: v, prev, next }),
    ;
}

impl GCMethods<JsId> for JsId {
    open spec fn sentinel() -> JsId {
        JsId { bits: JSID_TYPE_VOID as usize }
    }

    open spec fn barrier(n: Notification<JsId>) -> Option<PostBarrier> {
        None
    }

    fn initial() -> (v: JsId) {
        JsId::void()
    }

    fn post_barrier(v: usize, prev: JsId, next: JsId) -> (call: Option<PostBarrier>) {
        None
    }
}

impl GCMethods<ObjectRef> for ObjectRef {
    open spec fn sentinel() -> ObjectRef {
        ObjectRef(0)
    }

    open spec fn barrier(n: Notification<ObjectRef>) -> Option<PostBarrier> {
        Some(PostBarrier::HeapObject(n))
    }

    fn initial() -> (v: ObjectRef) {
        ObjectRef::null()
    }

    fn post_barrier(v: usize, prev: ObjectRef, next: ObjectRef) -> (call: Option<PostBarrier>) {
        Some(PostBarrier::HeapObject(Notification { slot: v, prev, next }))
    }
}

impl GCMethods<StringRef> for StringRef {
    open spec fn sentinel() -> StringRef {
        StringRef(0)
    }

    open spec fn barrier(n: Notification<StringRef>) -> Option<PostBarrier> {
        None
    }

    fn initial() -> (v: StringRef) {
        StringRef(0)
    }

    fn post_barrier(v: usize, prev: StringRef, next: StringRef) -> (call: Option<PostBarrier>) {
        None
    }
}

impl GCMethods<ScriptRef> for ScriptRef {
    open spec fn sentinel() -> ScriptRef {
        ScriptRef(0)
    }

    open spec fn barrier(n: Notification<ScriptRef>) -> Option<PostBarrier> {
        None
    }

    fn initial() -> (v: ScriptRef) {
        ScriptRef(0)
    }

    fn post_barrier(v: usize, prev: ScriptRef, next: ScriptRef) -> (call: Option<PostBarrier>) {
        None
    }
}

/// A function is an object to the collector, so a cell that holds a function
/// takes the post barrier of object cells.
impl GCMethods<FunctionRef> for FunctionRef {
    open spec fn sentinel() -> FunctionRef {
        FunctionRef(0)
    }

    open spec fn barrier(n: Notification<FunctionRef>) -> Option<PostBarrier> {
        Some(
            PostBarrier::HeapObject(
                Notification { slot: n.slot, prev: ObjectRef(n.prev.0), next: ObjectRef(n.next.0) },
            ),
        )
    }

    fn initial() -> (v: FunctionRef) {
        FunctionRef(0)
    }

    fn post_barrier(v: usize, prev: FunctionRef, next: FunctionRef) -> (call: Option<
        PostBarrier,
    >) {
        Some(
            PostBarrier::HeapObject(
                Notification { slot: v, prev: prev.as_object(), next: next.as_object() },
            ),
        )
    }
}

impl GCMethods<Value> for Value {
    open spec fn sentinel() -> Value {
        Value::Undefined
    }

    open spec fn barrier(n: Notification<Value>) -> Option<PostBarrier> {
        Some(PostBarrier::HeapValue(n))
    }

    fn initial() -> (v: Value) {
        Value::Undefined
    }

    fn post_barrier(v: usize, prev: Value, next: Value) -> (call: Option<PostBarrier>) {
        Some(PostBarrier::HeapValue(Notification { slot: v, prev, next }))
    }
}

} // verus!
