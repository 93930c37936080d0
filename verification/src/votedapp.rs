//! The five entry points of the counter program.
//!
//! Each entry point receives a context naming the record it acts on. By the
//! time an entry point runs, the hosting runtime has already resolved the
//! record's storage and authenticated the caller; that validation layer is
//! modelled separately, in [`crate::runtime`]. Allocation for `initialize`
//! (zero-filled) and deallocation for `close` are likewise the runtime's
//! work, so those two entry points leave the record itself untouched.

use vstd::prelude::*;

use crate::CounterError;
use crate::Votedapp;
use crate::dec_count;
use crate::inc_count;

verus! {

/// Accounts for `initialize`: a freshly allocated record, zero-filled by the
/// runtime and charged to the payer.
pub struct InitializeVotedapp {
    pub votedapp: Votedapp,
}

/// Accounts for `close`: the existing record about to be deallocated, its
/// reserved balance returned to the payer.
pub struct CloseVotedapp {
    pub votedapp: Votedapp,
}

/// Accounts for `increment`, `decrement` and `set`: the existing record to
/// mutate.
pub struct Update {
    pub votedapp: Votedapp,
}

/// Creates the counter record. The runtime allocates zero-filled storage, so
/// the entry point itself has nothing left to do: it succeeds and leaves the
/// fresh record as allocated.
pub fn initialize(ctx: &mut InitializeVotedapp) -> (r: Result<(), CounterError>)
    ensures
        r is Ok,
        final(ctx).votedapp == old(ctx).votedapp,
{
    Ok(())
}

/// Destroys the counter record. Deallocation and the refund to the payer are
/// the runtime's work: the entry point itself succeeds and leaves the record
/// as it found it.
pub fn close(ctx: &mut CloseVotedapp) -> (r: Result<(), CounterError>)
    ensures
        r is Ok,
        final(ctx).votedapp == old(ctx).votedapp,
{
    Ok(())
}

/// Adds one to the count. Overflow past the maximum representable value is a
/// hard error that leaves the record unchanged, never a silent wrap.
pub fn increment(ctx: &mut Update) -> (r: Result<(), CounterError>)
    ensures
        match inc_count(old(ctx).votedapp.count) {
            Ok(c) => r is Ok && final(ctx).votedapp.count == c,
            Err(e) => r == Err::<(), CounterError>(e) && final(ctx).votedapp == old(ctx).votedapp,
        },
{
    match ctx.votedapp.count.checked_add(1) {
        Some(c) => {
            ctx.votedapp.count = c;
            Ok(())
        },
        None => Err(CounterError::ArithmeticOverflow),
    }
}

/// Subtracts one from the count. Underflow past the minimum representable
/// value is a hard error that leaves the record unchanged, never a silent
/// wrap.
pub fn decrement(ctx: &mut Update) -> (r: Result<(), CounterError>)
    ensures
        match dec_count(old(ctx).votedapp.count) {
            Ok(c) => r is Ok && final(ctx).votedapp.count == c,
            Err(e) => r == Err::<(), CounterError>(e) && final(ctx).votedapp == old(ctx).votedapp,
        },
{
    match ctx.votedapp.count.checked_sub(1) {
        Some(c) => {
            ctx.votedapp.count = c;
            Ok(())
        },
        None => Err(CounterError::ArithmeticUnderflow),
    }
}

/// Overwrites the count with an explicit value. Any in-range value is
/// accepted; there is no error path.
pub fn set(ctx: &mut Update, value: u8) -> (r: Result<(), CounterError>)
    ensures
        r is Ok,
        final(ctx).votedapp.count == value,
{
    ctx.votedapp.count = value;
    Ok(())
}

} // verus!
