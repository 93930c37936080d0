//! A single-byte counter kept in a persistent record.
//!
//! The library models the counter program itself: a record holding one
//! unsigned 8-bit `count`, five operations over it (`initialize`, `close`,
//! `increment`, `decrement`, `set`), the hosting runtime's two-state record
//! lifecycle, and the record's persisted byte layout.

use vstd::prelude::*;

pub mod codec;
pub mod runtime;
pub mod votedapp;

verus! {

/// The counter record: the one persistent entity the program owns.
///
/// Its single attribute is `count`, an unsigned 8-bit integer. The record is
/// created by `initialize` (count starts at zero), mutated by `increment`,
/// `decrement` and `set`, and destroyed by `close`.
#[derive(Clone, Copy, Debug, PartialEq, Eq, Structural)]
pub struct Votedapp {
    pub count: u8,
}

/// The program's own error taxonomy: the two arithmetic failures. Both are
/// fatal to the invocation that raises them and leave the record unchanged.
#[derive(Clone, Copy, Debug, PartialEq, Eq, Structural)]
pub enum CounterError {
    /// Raised by `increment` when `count` is already at its maximum value.
    ArithmeticOverflow,
    /// Raised by `decrement` when `count` is already at its minimum value.
    ArithmeticUnderflow,
}

/// What `increment` does to a count value: one more, or an overflow error
/// at the maximum representable value.
pub open spec fn inc_count(c: u8) -> Result<u8, CounterError> {
    if c < 255 {
        Ok((c + 1) as u8)
    } else {
        Err(CounterError::ArithmeticOverflow)
    }
}

/// What `decrement` does to a count value: one less, or an underflow error
/// at the minimum representable value.
pub open spec fn dec_count(c: u8) -> Result<u8, CounterError> {
    if c > 0 {
        Ok((c - 1) as u8)
    } else {
        Err(CounterError::ArithmeticUnderflow)
    }
}

/// Law: an increment that does not overflow, followed immediately by a
/// decrement, restores the count to its value before the pair.
pub proof fn lemma_increment_then_decrement(c: u8)
    requires
        inc_count(c) is Ok,
    ensures
        dec_count(inc_count(c)->Ok_0) == Ok::<u8, CounterError>(c),
{
}

} // verus!
