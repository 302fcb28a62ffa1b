use marinade_rate::diff::balance_diff_relevant;
use marinade_rate::state::MarinadeState;

fn state(reserve: u64, cooling: u64, supply: u64) -> MarinadeState {
    MarinadeState {
        total_active_balance: 100,
        emergency_cooling_down: cooling,
        available_reserve_balance: reserve,
        circulating_ticket_balance: 10,
        msol_supply: supply,
        msol_price: 0,
    }
}

#[test]
fn unchanged_state_is_not_relevant() {
    let s = state(30, 20, 50);
    assert!(!balance_diff_relevant(Some(&s), Some(&s)));
}

#[test]
fn each_diffed_field_triggers_relevance() {
    let base = state(30, 20, 50);
    assert!(balance_diff_relevant(Some(&base), Some(&state(31, 20, 50))));
    assert!(balance_diff_relevant(Some(&base), Some(&state(30, 21, 50))));
    assert!(balance_diff_relevant(Some(&base), Some(&state(30, 20, 51))));
}

#[test]
fn undiffed_field_changes_are_ignored() {
    // The active balance is not one of the three diffed fields, so a
    // change there alone does not count under this strategy.
    let base = state(30, 20, 50);
    let mut moved = base;
    moved.total_active_balance = 999;
    assert!(!balance_diff_relevant(Some(&base), Some(&moved)));
}

#[test]
fn missing_side_is_a_hard_not_relevant() {
    let s = state(30, 20, 50);
    assert!(!balance_diff_relevant(None, Some(&s)));
    assert!(!balance_diff_relevant(Some(&s), None));
    assert!(!balance_diff_relevant(None, None));
}
