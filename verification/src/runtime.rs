//! A model of the hosting runtime's validation layer.
//!
//! The runtime resolves the record a caller names, rejects an invocation
//! against a record in the wrong lifecycle state, allocates zero-filled
//! storage for `initialize` and deallocates it for `close`. [`invoke`]
//! performs that validation and then dispatches to the entry points of
//! [`crate::votedapp`]; [`step`] is the specification of one such invocation,
//! and [`run`] of a whole sequence of them.

use vstd::prelude::*;

use crate::CounterError;
use crate::Votedapp;
use crate::dec_count;
use crate::inc_count;
use crate::votedapp::CloseVotedapp;
use crate::votedapp::InitializeVotedapp;
use crate::votedapp::Update;
use crate::votedapp::close;
use crate::votedapp::decrement;
use crate::votedapp::increment;
use crate::votedapp::initialize;

verus! {

/// The storage a record identity resolves to: either nothing is allocated
/// yet (or any longer), or one live counter record.
#[derive(Clone, Copy, Debug, PartialEq, Eq, Structural)]
pub enum RecordSlot {
    /// No record exists at this identity.
    Uninitialized,
    /// A record exists and holds one count value.
    Active(Votedapp),
}

/// One invocation of the program, with its explicit argument where it has
/// one.
#[derive(Clone, Copy, Debug, PartialEq, Eq, Structural)]
pub enum Instruction {
    Initialize,
    Close,
    Increment,
    Decrement,
    SetCount(u8),
}

/// How an invocation can fail: rejected by the runtime's existence checks
/// before the program runs, or aborted by the program's own arithmetic
/// guards.
#[derive(Clone, Copy, Debug, PartialEq, Eq, Structural)]
pub enum InvokeError {
    /// `increment`, `decrement`, `set` or `close` named an identity with no
    /// record.
    RecordDoesNotExist,
    /// `initialize` named an identity whose record already exists.
    RecordAlreadyExists,
    /// The entry point itself aborted.
    Counter(CounterError),
}

impl RecordSlot {
    /// The observable state of the slot: the count if a record exists.
    pub open spec fn spec_count(self) -> Option<u8> {
        match self {
            RecordSlot::Uninitialized => None,
            RecordSlot::Active(v) => Some(v.count),
        }
    }

    /// Reads the count of the record in this slot, if one exists.
    pub fn count(&self) -> (r: Option<u8>)
        ensures
            r == self.spec_count(),
    {
        match self {
            RecordSlot::Uninitialized => None,
            RecordSlot::Active(v) => Some(v.count),
        }
    }
}

/// What one invocation does: the slot afterwards, and the invocation's
/// outcome. A failed invocation has no partial effect.
pub open spec fn step(s: RecordSlot, ix: Instruction) -> (RecordSlot, Result<(), InvokeError>) {
    match ix {
        Instruction::Initialize => match s {
            RecordSlot::Uninitialized => (RecordSlot::Active(Votedapp { count: 0 }), Ok(())),
            RecordSlot::Active(_) => (s, Err(InvokeError::RecordAlreadyExists)),
        },
        Instruction::Close => match s {
            RecordSlot::Uninitialized => (s, Err(InvokeError::RecordDoesNotExist)),
            RecordSlot::Active(_) => (RecordSlot::Uninitialized, Ok(())),
        },
        Instruction::Increment => match s {
            RecordSlot::Uninitialized => (s, Err(InvokeError::RecordDoesNotExist)),
            RecordSlot::Active(v) => match inc_count(v.count) {
                Ok(c) => (RecordSlot::Active(Votedapp { count: c }), Ok(())),
                Err(e) => (s, Err(InvokeError::Counter(e))),
            },
        },
        Instruction::Decrement => match s {
            RecordSlot::Uninitialized => (s, Err(InvokeError::RecordDoesNotExist)),
            RecordSlot::Active(v) => match dec_count(v.count) {
                Ok(c) => (RecordSlot::Active(Votedapp { count: c }), Ok(())),
                Err(e) => (s, Err(InvokeError::Counter(e))),
            },
        },
        Instruction::SetCount(value) => match s {
            RecordSlot::Uninitialized => (s, Err(InvokeError::RecordDoesNotExist)),
            RecordSlot::Active(_) => (RecordSlot::Active(Votedapp { count: value }), Ok(())),
        },
    }
}

/// The slot after a whole sequence of invocations, failed ones included
/// (each failed invocation leaves the slot as it was).
pub open spec fn run(s: RecordSlot, ixs: Seq<Instruction>) -> RecordSlot
    decreases ixs.len(),
{
    if ixs.len() == 0 {
        s
    } else {
        run(step(s, ixs[0]).0, ixs.drop_first())
    }
}

/// Validates one invocation against the slot's lifecycle state, dispatches
/// it to the matching entry point, and persists the effect.
pub fn invoke(slot: &mut RecordSlot, ix: Instruction) -> (r: Result<(), InvokeError>)
    ensures
        *final(slot) == step(*old(slot), ix).0,
        r == step(*old(slot), ix).1,
{
    match ix {
        Instruction::Initialize => match *slot {
            RecordSlot::Uninitialized => {
                let mut ctx = InitializeVotedapp { votedapp: Votedapp { count: 0 } };
                match initialize(&mut ctx) {
                    Ok(()) => {
                        *slot = RecordSlot::Active(ctx.votedapp);
                        Ok(())
                    },
                    Err(e) => Err(InvokeError::Counter(e)),
                }
            },
            RecordSlot::Active(_) => Err(InvokeError::RecordAlreadyExists),
        },
        Instruction::Close => match *slot {
            RecordSlot::Uninitialized => Err(InvokeError::RecordDoesNotExist),
            RecordSlot::Active(v) => {
                let mut ctx = CloseVotedapp { votedapp: v };
                match close(&mut ctx) {
                    Ok(()) => {
                        *slot = RecordSlot::Uninitialized;
                        Ok(())
                    },
                    Err(e) => Err(InvokeError::Counter(e)),
                }
            },
        },
        Instruction::Increment => match *slot {
            RecordSlot::Uninitialized => Err(InvokeError::RecordDoesNotExist),
            RecordSlot::Active(v) => {
                let mut ctx = Update { votedapp: v };
                match increment(&mut ctx) {
                    Ok(()) => {
                        *slot = RecordSlot::Active(ctx.votedapp);
                        Ok(())
                    },
                    Err(e) => Err(InvokeError::Counter(e)),
                }
            },
        },
        Instruction::Decrement => match *slot {
            RecordSlot::Uninitialized => Err(InvokeError::RecordDoesNotExist),
            RecordSlot::Active(v) => {
                let mut ctx = Update { votedapp: v };
                match decrement(&mut ctx) {
                    Ok(()) => {
                        *slot = RecordSlot::Active(ctx.votedapp);
                        Ok(())
                    },
                    Err(e) => Err(InvokeError::Counter(e)),
                }
            },
        },
        Instruction::SetCount(value) => match *slot {
            RecordSlot::Uninitialized => Err(InvokeError::RecordDoesNotExist),
            RecordSlot::Active(v) => {
                let mut ctx = Update { votedapp: v };
                match crate::votedapp::set(&mut ctx, value) {
                    Ok(()) => {
                        *slot = RecordSlot::Active(ctx.votedapp);
                        Ok(())
                    },
                    Err(e) => Err(InvokeError::Counter(e)),
                }
            },
        },
    }
}

/// Law: whatever invocations came before, a successful `initialize` leaves
/// the record existing with a count of zero.
pub proof fn lemma_count_after_initialize(s0: RecordSlot, ixs: Seq<Instruction>)
    ensures
        ({
            let s = run(s0, ixs);
            step(s, Instruction::Initialize).1 is Ok ==> step(
                s,
                Instruction::Initialize,
            ).0.spec_count() == Some(0u8)
        }),
{
}

/// Law: after a successful `close`, the record no longer exists, and a
/// subsequent `increment`, `decrement` or `set` against the same identity is
/// rejected as "record does not exist" and has no effect.
pub proof fn lemma_close_then_update_rejected(s: RecordSlot, ix: Instruction)
    requires
        step(s, Instruction::Close).1 is Ok,
        ix is Increment || ix is Decrement || ix is SetCount,
    ensures
        ({
            let closed = step(s, Instruction::Close).0;
            &&& closed is Uninitialized
            &&& step(closed, ix).1 == Err::<(), InvokeError>(InvokeError::RecordDoesNotExist)
            &&& step(closed, ix).0 == closed
        }),
{
}

} // verus!

