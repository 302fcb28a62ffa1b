use marinade_rate::rate::{
    backing_sol_amount, msol_value, precomputed_msol_price, ComputationError,
};
use marinade_rate::state::MarinadeState;

fn state(active: u64, cooling: u64, reserve: u64, tickets: u64, supply: u64) -> MarinadeState {
    MarinadeState {
        total_active_balance: active,
        emergency_cooling_down: cooling,
        available_reserve_balance: reserve,
        circulating_ticket_balance: tickets,
        msol_supply: supply,
        msol_price: 0,
    }
}

#[test]
fn arithmetic_exactness() {
    let s = state(100, 20, 30, 10, 50);
    assert_eq!(backing_sol_amount(&s), Ok(140));
    // 140 / 50 = 2.8, truncated to 2.
    assert_eq!(msol_value(&s), Ok(2));
}

#[test]
fn zero_supply_is_a_computation_error() {
    let s = state(100, 20, 30, 10, 0);
    assert_eq!(msol_value(&s), Err(ComputationError::ZeroSupply));
}

#[test]
fn ticket_excess_underflows() {
    let s = state(1, 2, 3, 100, 50);
    assert_eq!(
        backing_sol_amount(&s),
        Err(ComputationError::BackingUnderflow)
    );
    assert_eq!(msol_value(&s), Err(ComputationError::BackingUnderflow));
}

#[test]
fn sum_beyond_range_overflows() {
    let s = state(u64::MAX, u64::MAX, u64::MAX, 0, 1);
    assert_eq!(
        backing_sol_amount(&s),
        Err(ComputationError::BackingOverflow)
    );
    // Large intermediate sums are fine when the tickets bring the backing
    // amount back into range.
    let ok = state(u64::MAX, 10, 0, 15, 1);
    assert_eq!(backing_sol_amount(&ok), Ok(u64::MAX - 5));
}

#[test]
fn precomputed_price_is_read_back_unchanged() {
    let mut s = state(100, 20, 30, 10, 50);
    s.msol_price = 1_084_000_000;
    assert_eq!(precomputed_msol_price(&s), 1_084_000_000);
}
