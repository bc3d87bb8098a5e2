use vstd::prelude::*;

use crate::errors::ErrorCode;
use crate::handlers::{created, decrement_outcome, increment_outcome};
use crate::state::{Counter, Pubkey};

verus! {

/// After creation the record carries the intended owner and a zero
/// count, and satisfies the record invariant.
pub proof fn lemma_create_initializes(authority: Pubkey)
    ensures
        created(authority).authority == authority,
        created(authority).count == 0,
        created(authority).wf(),
{
}

/// From a zero count, the owner's `increment` succeeds and raises the
/// count to one, while the owner's `decrement` fails with
/// `MinCountSubceeded` and leaves the record untouched.
pub proof fn lemma_transitions_from_zero(c: Counter)
    requires
        c.count == 0,
    ensures
        increment_outcome(c, c.authority).1 == Ok::<(), ErrorCode>(()),
        increment_outcome(c, c.authority).0.count == 1,
        increment_outcome(c, c.authority).0.authority == c.authority,
        decrement_outcome(c, c.authority).1 == Err::<(), ErrorCode>(ErrorCode::MinCountSubceeded),
        decrement_outcome(c, c.authority).0 == c,
{
}

/// From a count of one, the owner's `decrement` succeeds and lowers
/// the count to zero, while the owner's `increment` fails with
/// `MaxCountExceeded` and leaves the record untouched.
pub proof fn lemma_transitions_from_one(c: Counter)
    requires
        c.count == 1,
    ensures
        decrement_outcome(c, c.authority).1 == Ok::<(), ErrorCode>(()),
        decrement_outcome(c, c.authority).0.count == 0,
        decrement_outcome(c, c.authority).0.authority == c.authority,
        increment_outcome(c, c.authority).1 == Err::<(), ErrorCode>(ErrorCode::MaxCountExceeded),
        increment_outcome(c, c.authority).0 == c,
{
}

/// A caller other than the owner is rejected with `Unauthorized` by
/// both mutating operations, whatever the current count, and the
/// record is untouched.
pub proof fn lemma_non_owner_rejected(c: Counter, caller: Pubkey)
    requires
        caller != c.authority,
    ensures
        increment_outcome(c, caller) == (c, Err::<(), ErrorCode>(ErrorCode::Unauthorized)),
        decrement_outcome(c, caller) == (c, Err::<(), ErrorCode>(ErrorCode::Unauthorized)),
{
}

/// Both mutating operations preserve the record invariant: a count
/// within `[0, 1]` stays within `[0, 1]`, whoever calls and whether or
/// not the call succeeds. The owner identity is never reassigned.
pub proof fn lemma_invariant_preserved(c: Counter, caller: Pubkey)
    requires
        c.wf(),
    ensures
        increment_outcome(c, caller).0.wf(),
        decrement_outcome(c, caller).0.wf(),
        increment_outcome(c, caller).0.authority == c.authority,
        decrement_outcome(c, caller).0.authority == c.authority,
{
}

/// The record after `n` successive `increment` calls on `c`, all made
/// by `caller`.
pub open spec fn repeat_increment(c: Counter, caller: Pubkey, n: nat) -> Counter
    decreases n,
{
    if n == 0 {
        c
    } else {
        increment_outcome(repeat_increment(c, caller, (n - 1) as nat), caller).0
    }
}

/// The record after `n` successive `decrement` calls on `c`, all made
/// by `caller`.
pub open spec fn repeat_decrement(c: Counter, caller: Pubkey, n: nat) -> Counter
    decreases n,
{
    if n == 0 {
        c
    } else {
        decrement_outcome(repeat_decrement(c, caller, (n - 1) as nat), caller).0
    }
}

/// Failure is idempotent for `increment`: once an `increment` by some
/// caller fails, repeating that call any number of times never mutates
/// the record (each repetition fails for the same reason it first did).
pub proof fn lemma_failed_increment_repeats(c: Counter, caller: Pubkey, n: nat)
    requires
        increment_outcome(c, caller).1 is Err,
    ensures
        repeat_increment(c, caller, n) == c,
    decreases n,
{
    if n > 0 {
        lemma_failed_increment_repeats(c, caller, (n - 1) as nat);
    }
}

/// Failure is idempotent for `decrement`: once a `decrement` by some
/// caller fails, repeating that call any number of times never mutates
/// the record.
pub proof fn lemma_failed_decrement_repeats(c: Counter, caller: Pubkey, n: nat)
    requires
        decrement_outcome(c, caller).1 is Err,
    ensures
        repeat_decrement(c, caller, n) == c,
    decreases n,
{
    if n > 0 {
        lemma_failed_decrement_repeats(c, caller, (n - 1) as nat);
    }
}

} // verus!
