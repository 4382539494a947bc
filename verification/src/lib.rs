//! Rooting and write barriers for native code that holds references into a
//! heap managed by a tracing garbage collector.
//!
//! The collector cannot scan the native call stack, so every reference that
//! must survive a collection is registered: a stack-scoped one in the scan
//! table of its context ([`rooted`], [`context`]), a long-lived one in a cell
//! that is guarded by a write barrier ([`heap`], [`barrier`]). Registered
//! storage is read and written through borrowed views ([`handle`]). What
//! holds of all this, whatever the caller does, is stated in [`laws`].
//!
//! Nothing here reaches into the engine. References are held by their
//! addresses; where the collector has to be told something, the call that it
//! must receive is handed to the caller. The rest of the crate is what native
//! code needs around rooting: the frames of native calls ([`call_args`]),
//! the conversions that need no engine ([`conversions`]), classes and tables
//! of methods ([`class`]), and the like.

pub mod barrier;
pub mod call_args;
pub mod class;
pub mod consts;
pub mod context;
pub mod conversions;
pub mod handle;
pub mod heap;
pub mod jsfriendapi;
pub mod kind;
pub mod laws;
pub mod name_pool;
pub mod refs;
pub mod rooted;
pub mod runtime;
pub mod typedarray;
pub mod value;
pub mod warning;
pub mod wrap;
