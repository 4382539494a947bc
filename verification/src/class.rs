//! Classes of objects, and the tables of methods and properties that are
//! defined on an object.

use vstd::prelude::*;
use crate::consts::JSCLASS_IS_DOMJSCLASS;
use crate::consts::JSCLASS_IS_GLOBAL;
use crate::consts::JSCLASS_RESERVED_SLOTS_MASK;
use crate::consts::JSCLASS_RESERVED_SLOTS_SHIFT;

verus! {

/// The class of an object, as far as native code reads it: the address of
/// its name, its flags and the address of its operations.
#[derive(Clone, Copy, PartialEq, Eq, Structural, Debug)]
#[allow(non_snake_case)]
pub struct JSClass {
    pub name: usize,
    pub flags: u32,
    pub cOps: usize,
}

/// A native function with the information that the just-in-time compiler has
/// on it, both by address.
#[derive(Clone, Copy, PartialEq, Eq, Structural, Debug)]
pub struct JSNativeWrapper {
    pub op: Option<usize>,
    pub info: usize,
}

/// One entry of a table of methods.
#[derive(Clone, Copy, PartialEq, Eq, Structural, Debug)]
#[allow(non_snake_case)]
pub struct JSFunctionSpec {
    pub name: usize,
    pub call: JSNativeWrapper,
    pub nargs: u16,
    pub flags: u16,
    pub selfHostedName: usize,
}

/// One entry of a table of properties.
#[derive(Clone, Copy, PartialEq, Eq, Structural, Debug)]
pub struct JSPropertySpec {
    pub name: usize,
    pub flags: u8,
    pub getter: JSNativeWrapper,
    pub setter: JSNativeWrapper,
}

/// The result of an operation on an object, as the engine codes it.
#[derive(Clone, Copy, PartialEq, Eq, Structural, Debug)]
pub struct ObjectOpResult {
    pub code_: usize,
}

/// The code of an operation that succeeded.
pub const OBJECT_OP_OK: usize = 0;

impl ObjectOpResult {
    /// Sets this result to success and returns true.
    pub fn succeed(&mut self) -> (ok: bool)
        ensures
            ok,
            final(self).code_ == OBJECT_OP_OK,
    {
        self.code_ = OBJECT_OP_OK;
        true
    }
}

/// Whether objects of this class reflect a native object of the embedder:
/// the class has the flag `JSCLASS_IS_DOMJSCLASS`.
pub fn is_dom_class(class: &JSClass) -> (b: bool)
    ensures
        b == (class.flags & JSCLASS_IS_DOMJSCLASS != 0),
{
    class.flags & JSCLASS_IS_DOMJSCLASS != 0
}

/// Whether objects of this class are global objects: the class has the flag
/// `JSCLASS_IS_GLOBAL`. Only a global object can be a window.
pub fn is_global_class(class: &JSClass) -> (b: bool)
    ensures
        b == (class.flags & JSCLASS_IS_GLOBAL != 0),
{
    class.flags & JSCLASS_IS_GLOBAL != 0
}

/// The flags of a class of global objects that reserves `slots` slots: the
/// flag `JSCLASS_IS_GLOBAL`, and the low bits of `slots` in the place of the
/// count of reserved slots.
pub fn global_class_flags(slots: u32) -> (flags: u32)
    ensures
        flags == JSCLASS_IS_GLOBAL | ((slots & JSCLASS_RESERVED_SLOTS_MASK)
            << JSCLASS_RESERVED_SLOTS_SHIFT),
        flags & JSCLASS_IS_GLOBAL != 0,
        flags & JSCLASS_IS_DOMJSCLASS == 0,
{
    let flags: u32 = JSCLASS_IS_GLOBAL | ((slots & JSCLASS_RESERVED_SLOTS_MASK)
        << JSCLASS_RESERVED_SLOTS_SHIFT);
    assert((0x2_0000u32 | ((slots & 0xffu32) << 8u32)) & 0x2_0000u32 != 0) by (bit_vector);
    assert((0x2_0000u32 | ((slots & 0xffu32) << 8u32)) & 0x10u32 == 0) by (bit_vector);
    flags
}

impl JSNativeWrapper {
    /// Whether the wrapper is all zero: no function and no information.
    pub open spec fn zeroed(self) -> bool {
        self.op is None && self.info == 0
    }

    /// Whether the wrapper is all zero: no function and no information.
    pub fn is_zeroed(&self) -> (b: bool)
        ensures
            b == self.zeroed(),
    {
        self.op.is_none() && self.info == 0
    }
}

impl JSFunctionSpec {
    /// Whether the entry is all zero, as the entry that ends a table is.
    pub open spec fn zeroed(self) -> bool {
        &&& self.name == 0
        &&& self.call.zeroed()
        &&& self.nargs == 0
        &&& self.flags == 0
        &&& self.selfHostedName == 0
    }

    /// Whether the entry is all zero.
    pub fn is_zeroed(&self) -> (b: bool)
        ensures
            b == self.zeroed(),
    {
        self.name == 0 && self.call.is_zeroed() && self.nargs == 0 && self.flags == 0
            && self.selfHostedName == 0
    }
}

impl JSPropertySpec {
    /// Whether the entry is all zero, as the entry that ends a table is.
    pub open spec fn zeroed(self) -> bool {
        &&& self.name == 0
        &&& self.flags == 0
        &&& self.getter.zeroed()
        &&& self.setter.zeroed()
    }

    /// Whether the entry is all zero.
    pub fn is_zeroed(&self) -> (b: bool)
        ensures
            b == self.zeroed(),
    {
        self.name == 0 && self.flags == 0 && self.getter.is_zeroed() && self.setter.is_zeroed()
    }
}

/// Whether a table of methods can be handed to the engine: it is not empty
/// and its last entry is all zero. The engine reads a table up to the first
/// such entry, so a table without one would be read past its end.
pub fn methods_are_terminated(methods: &[JSFunctionSpec]) -> (b: bool)
    ensures
        b == (methods@.len() > 0 && methods@.last().zeroed()),
{
    let n: usize = methods.len();
    if n == 0 {
        false
    } else {
        methods[n - 1].is_zeroed()
    }
}

/// Whether a table of properties can be handed to the engine: it is not
/// empty and its last entry is all zero.
pub fn properties_are_terminated(properties: &[JSPropertySpec]) -> (b: bool)
    ensures
        b == (properties@.len() > 0 && properties@.last().zeroed()),
{
    let n: usize = properties.len();
    if n == 0 {
        false
    } else {
        properties[n - 1].is_zeroed()
    }
}

} // verus!
