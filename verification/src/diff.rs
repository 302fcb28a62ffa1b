//! Balance-diff relevance: the alternative classification strategy.
//!
//! Instead of inspecting instruction tags, this strategy compares the
//! protocol state decoded before and after the transaction executed and
//! calls the transaction relevant when any of the liquid reserve, the
//! cooling-down balance or the token supply moved.  It needs both sides
//! to be present: absence of either snapshot is a hard "not relevant",
//! not an error.  The two strategies are not interchangeable — an
//! operation can mutate state without moving the three diffed fields —
//! so a caller picks one and keeps it.

use vstd::prelude::*;
use crate::state::MarinadeState;

verus! {

/// Whether the two state records differ in a field the valuation reads:
/// liquid reserve, cooling-down balance or token supply.
pub open spec fn valuation_fields_differ(pre: MarinadeState, post: MarinadeState) -> bool {
    ||| pre.available_reserve_balance != post.available_reserve_balance
    ||| pre.emergency_cooling_down != post.emergency_cooling_down
    ||| pre.msol_supply != post.msol_supply
}

/// Classify by balance diffing: relevant exactly when both the pre- and
/// post-execution state are present and a valuation-relevant field
/// differs between them.
pub fn balance_diff_relevant(pre: Option<&MarinadeState>, post: Option<&MarinadeState>) -> (r:
    bool)
    ensures
        r == match (pre, post) {
            (Some(a), Some(b)) => valuation_fields_differ(*a, *b),
            _ => false,
        },
{
    match (pre, post) {
        (Some(a), Some(b)) => {
            a.available_reserve_balance != b.available_reserve_balance
                || a.emergency_cooling_down != b.emergency_cooling_down || a.msol_supply
                != b.msol_supply
        },
        _ => false,
    }
}

/// A state compared against itself never counts as a change.
pub proof fn lemma_unchanged_state_not_relevant(s: MarinadeState)
    ensures
        !valuation_fields_differ(s, s),
{
}

} // verus!
