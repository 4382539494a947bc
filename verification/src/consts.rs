//! Constants of the engine's interface.

use vstd::prelude::*;

verus! {

/// The number of bytes that a runtime may allocate before a collection: 32
/// MiB.
#[allow(non_upper_case_globals)]
pub const default_heapsize: u32 = 0x200_0000;

#[allow(non_upper_case_globals)]
pub const default_stacksize: usize = 8192;

pub const JSID_TYPE_STRING: i64 = 0;

pub const JSID_TYPE_INT: i64 = 1;

pub const JSID_TYPE_VOID: i64 = 2;

pub const JSID_TYPE_OBJECT: i64 = 4;

pub const JSID_TYPE_DEFAULT_XML_NAMESPACE: i64 = 6;

pub const JSID_TYPE_MASK: i64 = 7;

/// A native function that can be called as a constructor.
pub const JSFUN_CONSTRUCTOR: u32 = 0x400;

pub const JSPROP_ENUMERATE: u32 = 0x01;

pub const JSPROP_READONLY: u32 = 0x02;

pub const JSPROP_PERMANENT: u32 = 0x04;

pub const JSPROP_GETTER: u32 = 0x10;

pub const JSPROP_SETTER: u32 = 0x20;

pub const JSPROP_SHARED: u32 = 0x40;

pub const JSPROP_NATIVE_ACCESSORS: u32 = 0x08;

/// Where the count of reserved slots starts in the flags of a class.
pub const JSCLASS_RESERVED_SLOTS_SHIFT: u32 = 8;

/// How many bits the count of reserved slots takes.
pub const JSCLASS_RESERVED_SLOTS_WIDTH: u32 = 8;

/// The bits of a count of reserved slots: `JSCLASS_RESERVED_SLOTS_WIDTH`
/// ones.
pub const JSCLASS_RESERVED_SLOTS_MASK: u32 = 0xff;

/// Where the high flags start: after the count of reserved slots.
pub const JSCLASS_HIGH_FLAGS_SHIFT: u32 = 16;

/// The class of global objects: the high flag 1.
pub const JSCLASS_IS_GLOBAL: u32 = 0x2_0000;

pub const JSCLASS_GLOBAL_APPLICATION_SLOTS: u32 = 4;

/// The class of objects that reflect a native object of the embedder: bit 4.
pub const JSCLASS_IS_DOMJSCLASS: u32 = 0x10;

/// The class keeps the collector's barriers itself: bit 5.
pub const JSCLASS_IMPLEMENTS_BARRIERS: u32 = 0x20;

/// A flag for the embedder's own use: bit 7.
pub const JSCLASS_USERBIT1: u32 = 0x80;

/// The class of proxies: the high flag 4.
pub const JSCLASS_IS_PROXY: u32 = 0x10_0000;

pub const JSSLOT_PROXY_PRIVATE: u32 = 1;

pub const JS_DEFAULT_ZEAL_FREQ: u32 = 100;

pub const JSITER_ENUMERATE: u32 = 0x1;

pub const JSITER_FOREACH: u32 = 0x2;

pub const JSITER_KEYVALUE: u32 = 0x4;

pub const JSITER_OWNONLY: u32 = 0x8;

pub const JSITER_HIDDEN: u32 = 0x10;

pub const JSITER_SYMBOLS: u32 = 0x20;

pub const JSITER_SYMBOLSONLY: u32 = 0x40;

/// How the constants that are made of others are made.
pub proof fn lemma_class_flags()
    ensures
        default_heapsize == 32 * 1024 * 1024,
        JSCLASS_RESERVED_SLOTS_MASK == (1u32 << JSCLASS_RESERVED_SLOTS_WIDTH) - 1,
        JSCLASS_HIGH_FLAGS_SHIFT == JSCLASS_RESERVED_SLOTS_SHIFT + JSCLASS_RESERVED_SLOTS_WIDTH,
        JSCLASS_IS_GLOBAL == 1u32 << ((JSCLASS_HIGH_FLAGS_SHIFT + 1) as u32),
        JSCLASS_IS_PROXY == 1u32 << ((JSCLASS_HIGH_FLAGS_SHIFT + 4) as u32),
        JSCLASS_IS_DOMJSCLASS == 1u32 << 4,
        JSCLASS_IMPLEMENTS_BARRIERS == 1u32 << 5,
        JSCLASS_USERBIT1 == 1u32 << 7,
{
    assert(0xffu32 == (1u32 << 8u32) - 1) by (bit_vector);
    assert(0x2_0000u32 == 1u32 << 17u32) by (bit_vector);
    assert(0x10_0000u32 == 1u32 << 20u32) by (bit_vector);
    assert(0x10u32 == 1u32 << 4u32) by (bit_vector);
    assert(0x20u32 == 1u32 << 5u32) by (bit_vector);
    assert(0x80u32 == 1u32 << 7u32) by (bit_vector);
}

} // verus!
