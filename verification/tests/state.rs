use mars_controller::state::{
    credited_receipt, receipt_or_zero, redemption_rate, Decimal, State, DECIMAL_FRACTIONAL,
};
use mars_controller::ContractError;

fn books(total: u128, receipts: u128) -> State {
    State {
        total_stables: total,
        virtual_receipt: receipts,
        deposit_redemption_rate: Decimal { atomics: 0 },
    }
}

#[test]
fn record_inflow_adds_and_recomputes_the_rate() {
    let mut state = books(10, 4);
    assert_eq!(state.record_inflow(2), Ok(()));
    assert_eq!(state.total_stables, 12);
    assert_eq!(state.virtual_receipt, 4);
    assert_eq!(state.deposit_redemption_rate, Decimal { atomics: 3 * DECIMAL_FRACTIONAL });
}

#[test]
fn record_inflow_rounds_the_rate_down() {
    let mut state = books(0, 3);
    assert_eq!(state.record_inflow(2), Ok(()));
    assert_eq!(state.deposit_redemption_rate, Decimal { atomics: 666_666_666_666_666_666 });
}

#[test]
fn record_inflow_is_monotonic() {
    let mut state = books(5, 7);
    for delta in [0u128, 1, 950_000, 3] {
        let before = state.total_stables;
        assert_eq!(state.record_inflow(delta), Ok(()));
        assert!(state.total_stables >= before);
        assert_eq!(state.total_stables, before + delta);
    }
}

#[test]
fn record_inflow_without_receipts_has_rate_zero() {
    let mut state = State {
        total_stables: 1,
        virtual_receipt: 0,
        deposit_redemption_rate: Decimal { atomics: 99 },
    };
    assert_eq!(state.record_inflow(41), Ok(()));
    assert_eq!(state, State {
        total_stables: 42,
        virtual_receipt: 0,
        deposit_redemption_rate: Decimal { atomics: 0 },
    });
}

#[test]
fn record_inflow_refuses_a_total_that_does_not_fit() {
    let mut state = books(u128::MAX, 0);
    let before = state;
    assert!(matches!(state.record_inflow(1), Err(ContractError::Std(_))));
    assert_eq!(state, before);
    assert_eq!(state.record_inflow(0), Ok(()));
}

#[test]
fn record_inflow_refuses_a_rate_that_does_not_fit() {
    let mut state = books(0, 1);
    let before = state;
    assert!(matches!(state.record_inflow(u128::MAX), Err(ContractError::Std(_))));
    assert_eq!(state, before);
    // the largest total whose rate to one receipt still fits
    let largest = u128::MAX / DECIMAL_FRACTIONAL;
    assert_eq!(state.record_inflow(largest), Ok(()));
    assert_eq!(state.deposit_redemption_rate.atomics, largest * DECIMAL_FRACTIONAL);
    assert!(matches!(state.record_inflow(1), Err(ContractError::Std(_))));
    assert_eq!(state.total_stables, largest);
}

#[test]
fn current_rate_is_total_over_receipts() {
    assert_eq!(books(950_000, 1_000_000).current_rate(), Ok(Decimal { atomics: 950_000_000_000_000_000 }));
    assert_eq!(books(1, 1).current_rate(), Ok(Decimal { atomics: DECIMAL_FRACTIONAL }));
    assert_eq!(books(0, 5).current_rate(), Ok(Decimal { atomics: 0 }));
    assert_eq!(books(1, 3).current_rate(), Ok(Decimal { atomics: 333_333_333_333_333_333 }));
}

#[test]
fn current_rate_is_zero_without_receipts() {
    assert_eq!(books(0, 0).current_rate(), Ok(Decimal { atomics: 0 }));
    assert_eq!(books(u128::MAX, 0).current_rate(), Ok(Decimal { atomics: 0 }));
}

#[test]
fn current_rate_reads_the_counters_not_the_stored_rate() {
    let state = State {
        total_stables: 6,
        virtual_receipt: 3,
        deposit_redemption_rate: Decimal { atomics: 1 },
    };
    assert_eq!(state.current_rate(), Ok(Decimal { atomics: 2 * DECIMAL_FRACTIONAL }));
}

#[test]
fn current_rate_refuses_a_rate_that_does_not_fit() {
    assert!(matches!(books(u128::MAX, 1).current_rate(), Err(ContractError::Std(_))));
    assert!(matches!(redemption_rate(u128::MAX, 2), Err(ContractError::Std(_))));
    assert_eq!(redemption_rate(u128::MAX, u128::MAX), Ok(Decimal { atomics: DECIMAL_FRACTIONAL }));
}

#[test]
fn receipts_start_at_zero() {
    assert_eq!(receipt_or_zero(None), 0);
    assert_eq!(receipt_or_zero(Some(17)), 17);
    assert_eq!(credited_receipt(None, 5), Ok(5));
    assert_eq!(credited_receipt(Some(7), 5), Ok(12));
    assert!(matches!(credited_receipt(Some(u128::MAX), 1), Err(ContractError::Std(_))));
}

#[test]
fn new_books_hold_the_rate_of_their_counters() {
    assert_eq!(State::new(0, 0), Ok(State {
        total_stables: 0,
        virtual_receipt: 0,
        deposit_redemption_rate: Decimal { atomics: 0 },
    }));
    assert_eq!(State::new(3, 2), Ok(State {
        total_stables: 3,
        virtual_receipt: 2,
        deposit_redemption_rate: Decimal { atomics: 1_500_000_000_000_000_000 },
    }));
    assert!(matches!(State::new(u128::MAX, 1), Err(ContractError::Std(_))));
}
