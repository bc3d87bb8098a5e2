use vstd::prelude::*;

use crate::errors::ErrorCode;
use crate::state::{Counter, Create, Increment, Pubkey};

verus! {

/// What `create` writes into the fresh slot: the intended owner, and a
/// count of zero.
pub open spec fn created(authority: Pubkey) -> Counter {
    Counter { authority: authority, count: 0 }
}

/// The outcome of one `increment` call on record `c` by `caller`: the
/// record afterwards, and the reported result. Authorization is
/// decided before the bound, so a non-owner never learns whether the
/// count is already at its maximum.
pub open spec fn increment_outcome(c: Counter, caller: Pubkey) -> (Counter, Result<(), ErrorCode>) {
    if caller != c.authority {
        (c, Err(ErrorCode::Unauthorized))
    } else if c.count >= 1 {
        (c, Err(ErrorCode::MaxCountExceeded))
    } else {
        (Counter { authority: c.authority, count: (c.count + 1) as u64 }, Ok(()))
    }
}

/// The outcome of one `decrement` call on record `c` by `caller`, with
/// the same ordering of the checks as `increment_outcome`.
pub open spec fn decrement_outcome(c: Counter, caller: Pubkey) -> (Counter, Result<(), ErrorCode>) {
    if caller != c.authority {
        (c, Err(ErrorCode::Unauthorized))
    } else if c.count == 0 {
        (c, Err(ErrorCode::MinCountSubceeded))
    } else {
        (Counter { authority: c.authority, count: (c.count - 1) as u64 }, Ok(()))
    }
}

/// Initialise the freshly allocated record: set its owner to
/// `authority` and its count to zero. The handler itself never fails;
/// a duplicate allocation of the same slot is rejected by the
/// environment before this code runs, so no existence check is made
/// here. The funding identity is left untouched and is not retained as
/// the owner.
pub fn create(ctx: &mut Create, authority: Pubkey) -> (r: Result<(), ErrorCode>)
    ensures
        final(ctx).counter == created(authority),
        final(ctx).user == old(ctx).user,
        r == Ok::<(), ErrorCode>(()),
{
    ctx.counter.authority = authority;
    ctx.counter.count = 0;
    Ok(())
}

/// Raise the count by one. Fails with `Unauthorized` when the caller
/// is not the owner, then with `MaxCountExceeded` when the count is
/// already at its upper bound; a failing call leaves the record
/// exactly as it was.
pub fn increment(ctx: &mut Increment) -> (r: Result<(), ErrorCode>)
    ensures
        final(ctx).counter == increment_outcome(old(ctx).counter, old(ctx).authority).0,
        r == increment_outcome(old(ctx).counter, old(ctx).authority).1,
        final(ctx).authority == old(ctx).authority,
{
    if ctx.counter.authority != ctx.authority {
        return Err(ErrorCode::Unauthorized);
    }
    if ctx.counter.count >= 1 {
        return Err(ErrorCode::MaxCountExceeded);
    }
    ctx.counter.count = ctx.counter.count + 1;
    Ok(())
}

/// Lower the count by one. Fails with `Unauthorized` when the caller
/// is not the owner, then with `MinCountSubceeded` when the count is
/// already at its lower bound; a failing call leaves the record
/// exactly as it was.
pub fn decrement(ctx: &mut Increment) -> (r: Result<(), ErrorCode>)
    ensures
        final(ctx).counter == decrement_outcome(old(ctx).counter, old(ctx).authority).0,
        r == decrement_outcome(old(ctx).counter, old(ctx).authority).1,
        final(ctx).authority == old(ctx).authority,
{
    if ctx.counter.authority != ctx.authority {
        return Err(ErrorCode::Unauthorized);
    }
    if ctx.counter.count == 0 {
        return Err(ErrorCode::MinCountSubceeded);
    }
    ctx.counter.count = ctx.counter.count - 1;
    Ok(())
}

} // verus!
