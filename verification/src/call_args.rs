//! The arguments of a native function that the engine calls.
//!
//! The engine hands a native function a frame of values: first the callee,
//! whose place also takes the return value, then the receiver, then the
//! arguments. These types give views of the places in a frame.

use vstd::prelude::*;
use crate::handle::Handle;
use crate::handle::HandleValue;
use crate::handle::MutableHandle;
use crate::handle::MutableHandleValue;
use crate::refs::ObjectRef;
use crate::value::Value;

verus! {

/// How many places of a frame come before the first argument.
pub const FRAME_HEADER: usize = 2;

/// A frame as a mathematical value.
pub struct FrameView {
    /// What the first place holds: the callee on entry, the return value on
    /// exit.
    pub callee: Value,
    /// The receiver of the call.
    pub this: Value,
    /// The arguments, in order.
    pub args: Seq<Value>,
}

impl FrameView {
    /// The `i`-th argument, and the undefined value where the call has none.
    pub open spec fn arg_or_undefined(self, i: int) -> Value {
        if 0 <= i < self.args.len() {
            self.args[i]
        } else {
            Value::Undefined
        }
    }
}

/// What replacing the value in one place of a frame does to the arguments:
/// a place of the header leaves them as they are, the place of an argument
/// replaces that argument.
proof fn lemma_update_of_place(places: Seq<Value>, at: int)
    requires
        0 <= at < places.len(),
        places.len() >= FRAME_HEADER,
    ensures
        forall|v: Value|
            at < FRAME_HEADER ==> (#[trigger] places.update(at, v)).subrange(
                FRAME_HEADER as int,
                places.len() as int,
            ) == places.subrange(FRAME_HEADER as int, places.len() as int),
        forall|v: Value|
            at >= FRAME_HEADER ==> (#[trigger] places.update(at, v)).subrange(
                FRAME_HEADER as int,
                places.len() as int,
            ) == places.subrange(FRAME_HEADER as int, places.len() as int).update(
                at - FRAME_HEADER,
                v,
            ),
{
    assert forall|v: Value| at < FRAME_HEADER implies (#[trigger] places.update(at, v)).subrange(
        FRAME_HEADER as int,
        places.len() as int,
    ) == places.subrange(FRAME_HEADER as int, places.len() as int) by {
        assert(places.update(at, v).subrange(FRAME_HEADER as int, places.len() as int)
            =~= places.subrange(FRAME_HEADER as int, places.len() as int));
    }
    assert forall|v: Value| at >= FRAME_HEADER implies (#[trigger] places.update(at, v)).subrange(
        FRAME_HEADER as int,
        places.len() as int,
    ) == places.subrange(FRAME_HEADER as int, places.len() as int).update(
        at - FRAME_HEADER,
        v,
    ) by {
        assert(places.update(at, v).subrange(FRAME_HEADER as int, places.len() as int)
            =~= places.subrange(FRAME_HEADER as int, places.len() as int).update(
            at - FRAME_HEADER,
            v,
        ));
    }
}

/// The frame of one native call: the callee, the receiver and `argc_`
/// arguments.
pub struct CallFrame {
    vp: Vec<Value>,
    argc_: u32,
}

impl View for CallFrame {
    type V = FrameView;

    closed spec fn view(&self) -> FrameView {
        FrameView {
            callee: self.vp@[0],
            this: self.vp@[1],
            args: self.vp@.subrange(FRAME_HEADER as int, self.vp@.len() as int),
        }
    }
}

impl CallFrame {
    #[verifier::type_invariant]
    spec fn holds_header_and_arguments(self) -> bool {
        self.vp@.len() == self.argc_ + FRAME_HEADER
    }

    /// The frame whose places are `vp`, of a call with `argc` arguments.
    pub fn new(vp: Vec<Value>, argc: u32) -> (frame: CallFrame)
        requires
            vp@.len() == argc + FRAME_HEADER,
        ensures
            frame@.callee == vp@[0],
            frame@.this == vp@[1],
            frame@.args == vp@.subrange(FRAME_HEADER as int, vp@.len() as int),
            frame@.args.len() == argc,
    {
        CallFrame { vp, argc_: argc }
    }

    /// The place of the `i`-th argument in the frame, counted back from the
    /// end of the frame.
    fn place_of_argument(&self, i: u32) -> (place: usize)
        requires
            i < self.argc_,
        ensures
            place == i + FRAME_HEADER,
            place < self.vp@.len(),
    {
        proof {
            use_type_invariant(self);
        }
        self.vp.len() - (self.argc_ - i) as usize
    }

    /// The number of arguments.
    pub fn argc(&self) -> (argc: u32)
        ensures
            argc == self@.args.len(),
    {
        proof {
            use_type_invariant(self);
        }
        self.argc_
    }

    /// A view of the `i`-th argument, or of the undefined value if the call
    /// has no such argument.
    pub fn get(&self, i: u32) -> (h: HandleValue<'_>)
        ensures
            h.value() == self@.arg_or_undefined(i as int),
    {
        proof {
            use_type_invariant(self);
        }
        if i < self.argc_ {
            Handle::from_marked_location(&self.vp[self.place_of_argument(i)])
        } else {
            HandleValue::undefined()
        }
    }

    /// A view of the `i`-th argument.
    pub fn index(&self, i: u32) -> (h: HandleValue<'_>)
        requires
            i < self@.args.len(),
        ensures
            h.value() == self@.args[i as int],
    {
        proof {
            use_type_invariant(self);
        }
        Handle::from_marked_location(&self.vp[self.place_of_argument(i)])
    }

    /// A mutable view of the `i`-th argument. When the view is given up the
    /// argument is what the view held last; the rest of the frame is as
    /// before.
    pub fn index_mut(&mut self, i: u32) -> (h: MutableHandleValue<'_>)
        requires
            i < old(self)@.args.len(),
        ensures
            h.value() == old(self)@.args[i as int],
            final(self)@.args == old(self)@.args.update(i as int, *final(h.ptr)),
            final(self)@.callee == old(self)@.callee,
            final(self)@.this == old(self)@.this,
    {
        proof {
            use_type_invariant(&*self);
            lemma_update_of_place(self.vp@, i as int + FRAME_HEADER);
        }
        let place: usize = self.place_of_argument(i);
        MutableHandle::from_marked_location(&mut self.vp[place])
    }

    /// A mutable view of the place of the return value. When the view is
    /// given up the place holds what the view held last; the receiver and the
    /// arguments are as before.
    pub fn rval(&mut self) -> (h: MutableHandleValue<'_>)
        ensures
            h.value() == old(self)@.callee,
            final(self)@.callee == *final(h.ptr),
            final(self)@.this == old(self)@.this,
            final(self)@.args == old(self)@.args,
    {
        proof {
            use_type_invariant(&*self);
            lemma_update_of_place(self.vp@, 0);
        }
        MutableHandle::from_marked_location(&mut self.vp[0])
    }

    /// A view of the receiver.
    pub fn thisv(&self) -> (h: HandleValue<'_>)
        ensures
            h.value() == self@.this,
    {
        proof {
            use_type_invariant(self);
        }
        Handle::from_marked_location(&self.vp[1])
    }

    /// A view of the callee.
    pub fn calleev(&self) -> (h: HandleValue<'_>)
        ensures
            h.value() == self@.callee,
    {
        proof {
            use_type_invariant(self);
        }
        Handle::from_marked_location(&self.vp[0])
    }

    /// Gives the places of the frame back.
    pub fn into_vp(self) -> (vp: Vec<Value>)
        ensures
            vp@.len() == self@.args.len() + FRAME_HEADER,
            vp@[0] == self@.callee,
            vp@[1] == self@.this,
            vp@.subrange(FRAME_HEADER as int, vp@.len() as int) == self@.args,
    {
        proof {
            use_type_invariant(&self);
        }
        self.vp
    }
}

/// The arguments of a call to a native function.
pub struct CallArgs {
    pub _base: CallFrame,
}

impl CallArgs {
    /// The arguments of the call whose frame has the places `vp`, of which
    /// `argc` are arguments.
    pub fn from_vp(vp: Vec<Value>, argc: u32) -> (args: CallArgs)
        requires
            vp@.len() == argc + FRAME_HEADER,
        ensures
            args._base@.callee == vp@[0],
            args._base@.this == vp@[1],
            args._base@.args == vp@.subrange(FRAME_HEADER as int, vp@.len() as int),
            args._base@.args.len() == argc,
    {
        CallArgs { _base: CallFrame::new(vp, argc) }
    }

    /// A view of the `i`-th argument.
    pub fn index(&self, i: u32) -> (h: HandleValue<'_>)
        requires
            i < self._base@.args.len(),
        ensures
            h.value() == self._base@.args[i as int],
    {
        self._base.index(i)
    }

    /// A mutable view of the `i`-th argument.
    pub fn index_mut(&mut self, i: u32) -> (h: MutableHandleValue<'_>)
        requires
            i < old(self)._base@.args.len(),
        ensures
            h.value() == old(self)._base@.args[i as int],
            final(self)._base@.args == old(self)._base@.args.update(i as int, *final(h.ptr)),
            final(self)._base@.callee == old(self)._base@.callee,
            final(self)._base@.this == old(self)._base@.this,
    {
        self._base.index_mut(i)
    }

    /// A view of the `i`-th argument, or of the undefined value if the call
    /// has no such argument.
    pub fn get(&self, i: u32) -> (h: HandleValue<'_>)
        ensures
            h.value() == self._base@.arg_or_undefined(i as int),
    {
        self._base.get(i)
    }

    /// A mutable view of the place of the return value.
    pub fn rval(&mut self) -> (h: MutableHandleValue<'_>)
        ensures
            h.value() == old(self)._base@.callee,
            final(self)._base@.callee == *final(h.ptr),
            final(self)._base@.this == old(self)._base@.this,
            final(self)._base@.args == old(self)._base@.args,
    {
        self._base.rval()
    }

    /// A view of the receiver.
    pub fn thisv(&self) -> (h: HandleValue<'_>)
        ensures
            h.value() == self._base@.this,
    {
        self._base.thisv()
    }

    /// A view of the callee.
    pub fn calleev(&self) -> (h: HandleValue<'_>)
        ensures
            h.value() == self._base@.callee,
    {
        self._base.calleev()
    }

    /// The callee, which is an object as long as no return value has taken
    /// its place.
    pub fn callee(&self) -> (callee: ObjectRef)
        requires
            self._base@.callee is Object,
        ensures
            self._base@.callee == Value::Object(callee),
    {
        self.calleev().get().to_object()
    }
}

/// The arguments of a call to a method through the fast path of the
/// just-in-time compiler.
pub struct JSJitMethodCallArgs {
    pub _base: CallFrame,
}

impl JSJitMethodCallArgs {
    /// A view of the `i`-th argument, or of the undefined value if the call
    /// has no such argument.
    pub fn get(&self, i: u32) -> (h: HandleValue<'_>)
        ensures
            h.value() == self._base@.arg_or_undefined(i as int),
    {
        self._base.get(i)
    }

    /// A view of the `i`-th argument.
    pub fn index(&self, i: u32) -> (h: HandleValue<'_>)
        requires
            i < self._base@.args.len(),
        ensures
            h.value() == self._base@.args[i as int],
    {
        self._base.index(i)
    }

    /// A mutable view of the `i`-th argument.
    pub fn index_mut(&mut self, i: u32) -> (h: MutableHandleValue<'_>)
        requires
            i < old(self)._base@.args.len(),
        ensures
            h.value() == old(self)._base@.args[i as int],
            final(self)._base@.args == old(self)._base@.args.update(i as int, *final(h.ptr)),
            final(self)._base@.callee == old(self)._base@.callee,
            final(self)._base@.this == old(self)._base@.this,
    {
        self._base.index_mut(i)
    }

    /// A mutable view of the place of the return value.
    pub fn rval(&mut self) -> (h: MutableHandleValue<'_>)
        ensures
            h.value() == old(self)._base@.callee,
            final(self)._base@.callee == *final(h.ptr),
            final(self)._base@.this == old(self)._base@.this,
            final(self)._base@.args == old(self)._base@.args,
    {
        self._base.rval()
    }
}

/// The arguments of a call to a getter through the fast path of the
/// just-in-time compiler: only the place of the return value.
pub struct JSJitGetterCallArgs<'a> {
    pub _base: MutableHandleValue<'a>,
}

impl<'a> JSJitGetterCallArgs<'a> {
    /// The mutable view of the place of the return value.
    pub fn rval(self) -> (h: MutableHandleValue<'a>)
        ensures
            h == self._base,
    {
        self._base
    }
}

/// The arguments of a call to a setter through the fast path of the
/// just-in-time compiler: only the value to set.
pub struct JSJitSetterCallArgs<'a> {
    pub _base: MutableHandleValue<'a>,
}

impl<'a> JSJitSetterCallArgs<'a> {
    /// A view of the value to set, which is the argument 0 and the only one.
    pub fn get(&self, i: u32) -> (h: HandleValue<'_>)
        requires
            i == 0,
        ensures
            h.value() == self._base.value(),
    {
        self._base.handle()
    }
}

/// The arguments in a frame: the places after the callee and the receiver.
#[allow(non_snake_case)]
pub fn JS_ARGV(vp: &[Value]) -> (argv: &[Value])
    requires
        vp@.len() >= FRAME_HEADER,
    ensures
        argv@ == vp@.subrange(FRAME_HEADER as int, vp@.len() as int),
{
    vstd::slice::slice_subrange(vp, FRAME_HEADER, vp.len())
}

/// The callee in a frame: what its first place holds.
#[allow(non_snake_case)]
pub fn JS_CALLEE(vp: &[Value]) -> (callee: Value)
    requires
        vp@.len() >= 1,
    ensures
        callee == vp@[0],
{
    vp[0]
}

} // verus!
