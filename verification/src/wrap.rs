//! Bringing a value into the compartment of the context that receives it.
//!
//! The engine does the wrapping. What is decided here is which of the
//! engine's operations a value needs, from what the caller has read of the
//! value's object.

use vstd::prelude::*;
use crate::handle::MutableHandleValue;
use crate::refs::ObjectRef;
use crate::value::Value;

verus! {

/// What has to be done to a value before the context may see it.
#[derive(Clone, Copy, PartialEq, Eq, Structural, Debug)]
pub enum WrapAction {
    /// The value is as it should be.
    Keep,
    /// The value refers to an object of the embedder in the context's own
    /// compartment: if the object is a window, its proxy takes its place.
    TryToOuterize,
    /// The engine has to wrap the value.
    Wrap,
}

/// What the caller has read of the object that a value refers to.
#[derive(Clone, Copy, PartialEq, Eq, Structural, Debug)]
pub struct ObjectFacts {
    /// Whether the object lives in the compartment of the context.
    pub in_context_compartment: bool,
    /// Whether the object reflects a native object of the embedder.
    pub is_dom_object: bool,
}

/// The action that an object value needs: an object of the embedder in the
/// context's compartment is at most replaced by its proxy, every other
/// object is wrapped.
pub open spec fn action_for_object(facts: ObjectFacts) -> WrapAction {
    if facts.in_context_compartment && facts.is_dom_object {
        WrapAction::TryToOuterize
    } else {
        WrapAction::Wrap
    }
}

/// Decides what an object value needs.
pub fn maybe_wrap_object_value(rval: &Value, facts: ObjectFacts) -> (action: WrapAction)
    requires
        rval is Object,
    ensures
        action == action_for_object(facts),
{
    if facts.in_context_compartment {
        if facts.is_dom_object {
            return WrapAction::TryToOuterize;
        }
    }
    WrapAction::Wrap
}

/// Decides what a value needs that is an object or null: null is kept as it
/// is.
pub fn maybe_wrap_object_or_null_value(rval: &Value, facts: ObjectFacts) -> (action: WrapAction)
    requires
        rval is Object || rval is Null,
    ensures
        action == if rval is Null {
            WrapAction::Keep
        } else {
            action_for_object(facts)
        },
{
    if !rval.is_null() {
        maybe_wrap_object_value(rval, facts)
    } else {
        WrapAction::Keep
    }
}

/// Decides what any value but null needs: an object is treated as an
/// object, everything else is wrapped by the engine.
pub fn maybe_wrap_value(rval: &Value, facts: ObjectFacts) -> (action: WrapAction)
    requires
        !(rval is Null),
    ensures
        action == if rval is Object {
            action_for_object(facts)
        } else {
            WrapAction::Wrap
        },
{
    if rval.is_object_or_null() {
        maybe_wrap_object_value(rval, facts)
    } else {
        WrapAction::Wrap
    }
}

/// Replaces a window by its proxy. `proxy` is what the engine gave for the
/// object if the object is a window, and `None` if it is not one; the value
/// is left alone then.
pub fn try_to_outerize(rval: &mut MutableHandleValue, proxy: Option<ObjectRef>)
    requires
        old(rval).value() is Object,
        proxy is Some ==> proxy->0 != ObjectRef(0),
    ensures
        final(rval).value() == match proxy {
            Some(outer) => Value::Object(outer),
            None => old(rval).value(),
        },
        *final(final(rval).ptr) == *final(old(rval).ptr),
{
    match proxy {
        Some(outer) => {
            rval.set(Value::Object(outer));
        },
        None => {},
    }
}

} // verus!
