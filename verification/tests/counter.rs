use votedapp::CounterError;
use votedapp::Votedapp;
use votedapp::runtime::Instruction;
use votedapp::runtime::InvokeError;
use votedapp::runtime::RecordSlot;
use votedapp::runtime::invoke;
use votedapp::votedapp::CloseVotedapp;
use votedapp::votedapp::InitializeVotedapp;
use votedapp::votedapp::Update;
use votedapp::votedapp::close;
use votedapp::votedapp::decrement;
use votedapp::votedapp::increment;
use votedapp::votedapp::initialize;

#[test]
fn count_is_zero_after_initialize() {
    let mut slot = RecordSlot::Uninitialized;
    assert_eq!(invoke(&mut slot, Instruction::Initialize), Ok(()));
    assert_eq!(slot.count(), Some(0));
}

#[test]
fn count_is_zero_after_initialize_whatever_came_before() {
    let mut slot = RecordSlot::Uninitialized;
    assert_eq!(invoke(&mut slot, Instruction::Initialize), Ok(()));
    assert_eq!(invoke(&mut slot, Instruction::SetCount(17)), Ok(()));
    assert_eq!(invoke(&mut slot, Instruction::Increment), Ok(()));
    assert_eq!(invoke(&mut slot, Instruction::Close), Ok(()));
    assert_eq!(invoke(&mut slot, Instruction::Initialize), Ok(()));
    assert_eq!(slot.count(), Some(0));
}

#[test]
fn increment_then_decrement_restores_the_count() {
    let mut slot = RecordSlot::Uninitialized;
    assert_eq!(invoke(&mut slot, Instruction::Initialize), Ok(()));
    assert_eq!(invoke(&mut slot, Instruction::SetCount(41)), Ok(()));
    assert_eq!(invoke(&mut slot, Instruction::Increment), Ok(()));
    assert_eq!(slot.count(), Some(42));
    assert_eq!(invoke(&mut slot, Instruction::Decrement), Ok(()));
    assert_eq!(slot.count(), Some(41));
}

#[test]
fn increment_then_decrement_restores_every_count_below_the_maximum() {
    for start in 0u8..=254u8 {
        let mut ctx = Update { votedapp: Votedapp { count: start } };
        assert_eq!(increment(&mut ctx), Ok(()));
        assert_eq!(decrement(&mut ctx), Ok(()));
        assert_eq!(ctx.votedapp.count, start);
    }
}

#[test]
fn set_overwrites_every_value_regardless_of_prior_count() {
    let mut slot = RecordSlot::Uninitialized;
    assert_eq!(invoke(&mut slot, Instruction::Initialize), Ok(()));
    for v in 0u8..=255u8 {
        assert_eq!(invoke(&mut slot, Instruction::SetCount(v)), Ok(()));
        assert_eq!(slot.count(), Some(v));
    }
    assert_eq!(invoke(&mut slot, Instruction::SetCount(7)), Ok(()));
    assert_eq!(slot.count(), Some(7));
}

#[test]
fn increment_at_the_maximum_fails_and_leaves_the_count() {
    let mut ctx = Update { votedapp: Votedapp { count: 255 } };
    assert_eq!(increment(&mut ctx), Err(CounterError::ArithmeticOverflow));
    assert_eq!(ctx.votedapp.count, 255);

    let mut slot = RecordSlot::Active(Votedapp { count: 255 });
    assert_eq!(
        invoke(&mut slot, Instruction::Increment),
        Err(InvokeError::Counter(CounterError::ArithmeticOverflow))
    );
    assert_eq!(slot.count(), Some(255));
}

#[test]
fn decrement_at_the_minimum_fails_and_leaves_the_count() {
    let mut ctx = Update { votedapp: Votedapp { count: 0 } };
    assert_eq!(decrement(&mut ctx), Err(CounterError::ArithmeticUnderflow));
    assert_eq!(ctx.votedapp.count, 0);

    let mut slot = RecordSlot::Uninitialized;
    assert_eq!(invoke(&mut slot, Instruction::Initialize), Ok(()));
    assert_eq!(
        invoke(&mut slot, Instruction::Decrement),
        Err(InvokeError::Counter(CounterError::ArithmeticUnderflow))
    );
    assert_eq!(slot.count(), Some(0));
}

#[test]
fn closed_record_rejects_every_update() {
    let mut slot = RecordSlot::Uninitialized;
    assert_eq!(invoke(&mut slot, Instruction::Initialize), Ok(()));
    assert_eq!(invoke(&mut slot, Instruction::SetCount(9)), Ok(()));
    assert_eq!(invoke(&mut slot, Instruction::Close), Ok(()));
    assert_eq!(slot.count(), None);
    assert_eq!(
        invoke(&mut slot, Instruction::Increment),
        Err(InvokeError::RecordDoesNotExist)
    );
    assert_eq!(
        invoke(&mut slot, Instruction::Decrement),
        Err(InvokeError::RecordDoesNotExist)
    );
    assert_eq!(
        invoke(&mut slot, Instruction::SetCount(5)),
        Err(InvokeError::RecordDoesNotExist)
    );
    assert_eq!(slot.count(), None);
}

#[test]
fn lifecycle_preconditions_are_enforced() {
    let mut slot = RecordSlot::Uninitialized;
    assert_eq!(
        invoke(&mut slot, Instruction::Close),
        Err(InvokeError::RecordDoesNotExist)
    );
    assert_eq!(invoke(&mut slot, Instruction::Initialize), Ok(()));
    assert_eq!(
        invoke(&mut slot, Instruction::Initialize),
        Err(InvokeError::RecordAlreadyExists)
    );
    assert_eq!(slot.count(), Some(0));
}

#[test]
fn scenario_three_increments_then_set_then_two_hundred_one_decrements() {
    let mut slot = RecordSlot::Uninitialized;
    assert_eq!(invoke(&mut slot, Instruction::Initialize), Ok(()));
    for _ in 0..3 {
        assert_eq!(invoke(&mut slot, Instruction::Increment), Ok(()));
    }
    assert_eq!(slot.count(), Some(3));
    assert_eq!(invoke(&mut slot, Instruction::SetCount(200)), Ok(()));
    assert_eq!(slot.count(), Some(200));
    for _ in 0..200 {
        assert_eq!(invoke(&mut slot, Instruction::Decrement), Ok(()));
    }
    assert_eq!(slot.count(), Some(0));
    assert_eq!(
        invoke(&mut slot, Instruction::Decrement),
        Err(InvokeError::Counter(CounterError::ArithmeticUnderflow))
    );
    assert_eq!(slot.count(), Some(0));
}

#[test]
fn initialize_and_close_leave_the_record_they_were_handed_untouched() {
    let mut init_ctx = InitializeVotedapp {
        votedapp: Votedapp { count: 0 },
    };
    assert_eq!(initialize(&mut init_ctx), Ok(()));
    assert_eq!(init_ctx.votedapp.count, 0);

    let mut close_ctx = CloseVotedapp {
        votedapp: Votedapp { count: 123 },
    };
    assert_eq!(close(&mut close_ctx), Ok(()));
    assert_eq!(close_ctx.votedapp.count, 123);
}

#[test]
fn set_has_no_error_path() {
    let mut ctx = Update { votedapp: Votedapp { count: 255 } };
    assert_eq!(votedapp::votedapp::set(&mut ctx, 0), Ok(()));
    assert_eq!(ctx.votedapp.count, 0);
    assert_eq!(votedapp::votedapp::set(&mut ctx, 255), Ok(()));
    assert_eq!(ctx.votedapp.count, 255);
}
