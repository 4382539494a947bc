//! A runtime of the engine and its context.

use vstd::prelude::*;
use crate::context::Context;
use crate::context::ScanTable;

verus! {

/// The native stack that the engine may use, in bytes: about 1 MiB.
pub const STACK_QUOTA: usize = 0x10_0000;

/// The stack that is kept back for system code beyond what trusted script
/// may use.
pub const SYSTEM_CODE_BUFFER: usize = 10240;

/// The stack that is kept back for trusted script beyond what untrusted
/// script may use.
pub const TRUSTED_SCRIPT_BUFFER: usize = 102400;

/// The limits on the native stack for the three classes of code.
#[derive(Clone, Copy, PartialEq, Eq, Structural, Debug)]
pub struct NativeStackQuota {
    pub system_code: usize,
    pub trusted_script: usize,
    pub untrusted_script: usize,
}

/// The limits that a new runtime is given: system code may use the whole
/// quota, trusted script all but the buffer of system code, and untrusted
/// script what is left after the buffer of trusted script.
pub fn native_stack_quota() -> (quota: NativeStackQuota)
    ensures
        quota.system_code == STACK_QUOTA,
        quota.trusted_script == STACK_QUOTA - SYSTEM_CODE_BUFFER,
        quota.untrusted_script == STACK_QUOTA - SYSTEM_CODE_BUFFER - TRUSTED_SCRIPT_BUFFER,
        quota.untrusted_script < quota.trusted_script < quota.system_code,
{
    NativeStackQuota {
        system_code: STACK_QUOTA,
        trusted_script: STACK_QUOTA - SYSTEM_CODE_BUFFER,
        untrusted_script: STACK_QUOTA - SYSTEM_CODE_BUFFER - TRUSTED_SCRIPT_BUFFER,
    }
}

/// A runtime of the engine, by its address, together with its context.
pub struct Runtime {
    rt: usize,
    cx: Context,
}

impl Runtime {
    /// The address of the engine's runtime.
    pub closed spec fn address(&self) -> usize {
        self.rt
    }

    /// The scan table of the runtime's context.
    pub closed spec fn table(&self) -> ScanTable {
        self.cx@
    }

    /// The runtime that the engine made at `rt` with its context at `cx`,
    /// neither of them null. Nothing is rooted in the context yet.
    pub fn new(rt: usize, cx: usize) -> (runtime: Runtime)
        requires
            rt != 0,
            cx != 0,
        ensures
            runtime.address() == rt,
            runtime.table() == ScanTable::empty(cx),
    {
        Runtime { rt, cx: Context::new(cx) }
    }

    /// Returns the address of the engine's runtime.
    pub fn rt(&self) -> (rt: usize)
        ensures
            rt == self.address(),
    {
        self.rt
    }

    /// Returns the context. The runtime's scan table is the context's: what
    /// the caller links and unlinks in the context is linked and unlinked in
    /// the runtime.
    pub fn cx(&mut self) -> (cx: &mut Context)
        ensures
            cx@ == old(self).table(),
            final(self).table() == final(cx)@,
            final(self).address() == old(self).address(),
    {
        &mut self.cx
    }
}

} // verus!
