//! What the engine's friend interface shares with the embedder.

use vstd::prelude::*;

verus! {

/// The kind of operation that a piece of just-in-time information is about.
#[derive(Clone, Copy, PartialEq, Eq, Structural, Debug)]
pub enum OpType {
    Getter,
    Setter,
    Method,
}

impl OpType {
    /// The number by which the engine knows the kind.
    pub open spec fn code_of(self) -> u8 {
        match self {
            OpType::Getter => 0,
            OpType::Setter => 1,
            OpType::Method => 2,
        }
    }

    /// The number by which the engine knows the kind.
    pub fn code(self) -> (code: u8)
        ensures
            code == self.code_of(),
    {
        match self {
            OpType::Getter => 0,
            OpType::Setter => 1,
            OpType::Method => 2,
        }
    }
}

/// What the just-in-time compiler is told about one accessor or method of
/// the embedder. The operation is held by its address.
#[derive(Clone, Copy, PartialEq, Eq, Structural, Debug)]
#[allow(non_snake_case)]
pub struct JSJitInfo {
    pub op: usize,
    pub protoID: u16,
    pub depth: u16,
    pub type_and_aliasSet: u8,
    pub returnType: u8,
    pub infallible_and_isMovable_and_isInSlot_and_isTypedMethod_and_slotIndex: u16,
}

/// The callbacks that the embedder registers for its objects. A callback is
/// held by its address.
#[derive(Clone, Copy, PartialEq, Eq, Structural, Debug)]
#[allow(non_snake_case)]
pub struct DOMCallbacks {
    pub instanceClassMatchesProto: Option<usize>,
}

/// What a check for shadowing by a proxy found.
#[derive(Clone, Copy, PartialEq, Eq, Structural, Debug)]
pub enum DOMProxyShadowsResult {
    ShadowCheckFailed,
    Shadows,
    DoesntShadow,
    DoesntShadowUnique,
}

impl DOMProxyShadowsResult {
    /// The number by which the engine knows the result.
    pub open spec fn code_of(self) -> u8 {
        match self {
            DOMProxyShadowsResult::ShadowCheckFailed => 0,
            DOMProxyShadowsResult::Shadows => 1,
            DOMProxyShadowsResult::DoesntShadow => 2,
            DOMProxyShadowsResult::DoesntShadowUnique => 3,
        }
    }

    /// The number by which the engine knows the result.
    pub fn code(self) -> (code: u8)
        ensures
            code == self.code_of(),
    {
        match self {
            DOMProxyShadowsResult::ShadowCheckFailed => 0,
            DOMProxyShadowsResult::Shadows => 1,
            DOMProxyShadowsResult::DoesntShadow => 2,
            DOMProxyShadowsResult::DoesntShadowUnique => 3,
        }
    }
}

} // verus!
