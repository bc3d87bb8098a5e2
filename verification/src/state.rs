use vstd::prelude::*;

verus! {

/// A fixed-size public-key-like identity, held as four 64-bit words
/// (32 bytes in all). The core never interprets the bytes: it only
/// compares identities for equality, trusting the environment to have
/// authenticated the caller before a handler runs.
#[derive(Clone, Copy, PartialEq, Eq, Structural, Debug)]
pub struct Pubkey {
    pub w0: u64,
    pub w1: u64,
    pub w2: u64,
    pub w3: u64,
}

/// The persisted counter record: an owner identity, set exactly once at
/// creation, and an unsigned count that never leaves the closed range
/// `[0, 1]`.
#[derive(Clone, Copy, PartialEq, Eq, Structural, Debug)]
pub struct Counter {
    pub authority: Pubkey,
    pub count: u64,
}

impl Counter {
    /// The record invariant: the count stays within the closed range
    /// `[0, 1]`. Creation establishes it and both mutating handlers
    /// preserve it.
    pub open spec fn wf(self) -> bool {
        self.count <= 1
    }
}

/// The named resources for `create`: the fresh record slot the
/// environment allocated, and the funding identity that paid for the
/// allocation. The funder is never retained as the counter's owner.
pub struct Create {
    pub counter: Counter,
    pub user: Pubkey,
}

/// The named resources for `increment` and `decrement`: the record to
/// mutate and the identity the environment has authenticated for the
/// current call.
pub struct Increment {
    pub counter: Counter,
    pub authority: Pubkey,
}

} // verus!
