//! Exchange-rate arithmetic over a decoded state record.
//!
//! The backing amount is `active + cooling_down + reserve - tickets`,
//! exact and unsigned; the per-token price is the backing amount divided
//! by the token supply with truncating integer division.  Arithmetic
//! preconditions that fail (underflow of the subtraction, a sum beyond the
//! unsigned 64-bit range, a zero supply) are reported as computation
//! errors, never wrapped or panicked on.

use vstd::prelude::*;
use crate::state::MarinadeState;

verus! {

/// Why the exchange-rate arithmetic could not produce a value.
#[derive(Clone, Copy, Debug, PartialEq, Eq, Structural)]
pub enum ComputationError {
    /// The ticket balance exceeds the sum of the other balances, so the
    /// backing amount would be negative.
    BackingUnderflow,
    /// The backing amount does not fit in an unsigned 64-bit integer.
    BackingOverflow,
    /// The token supply is zero, so no per-token price exists.
    ZeroSupply,
}

/// The backing amount as an unbounded integer: actively staked plus
/// cooling down plus liquid reserve, minus outstanding tickets.
pub open spec fn backing_amount_spec(s: MarinadeState) -> int {
    s.total_active_balance + s.emergency_cooling_down + s.available_reserve_balance
        - s.circulating_ticket_balance
}

/// What computing the backing amount yields: the exact value when it fits
/// an unsigned 64-bit integer, the matching error otherwise.
pub open spec fn backing_result_spec(s: MarinadeState) -> Result<u64, ComputationError> {
    if backing_amount_spec(s) < 0 {
        Err(ComputationError::BackingUnderflow)
    } else if backing_amount_spec(s) > u64::MAX {
        Err(ComputationError::BackingOverflow)
    } else {
        Ok(backing_amount_spec(s) as u64)
    }
}

/// What computing the per-token price yields: the truncating quotient of
/// the backing amount by the token supply, or the first arithmetic error
/// on the way there.
pub open spec fn msol_value_spec(s: MarinadeState) -> Result<u64, ComputationError> {
    match backing_result_spec(s) {
        Err(e) => Err(e),
        Ok(backing) => if s.msol_supply == 0 {
            Err(ComputationError::ZeroSupply)
        } else {
            Ok(backing / s.msol_supply)
        },
    }
}

/// Compute the backing amount of a state record.
pub fn backing_sol_amount(s: &MarinadeState) -> (r: Result<u64, ComputationError>)
    ensures
        r == backing_result_spec(*s),
{
    let sum: u128 = s.total_active_balance as u128 + s.emergency_cooling_down as u128
        + s.available_reserve_balance as u128;
    let tickets: u128 = s.circulating_ticket_balance as u128;
    if sum < tickets {
        Err(ComputationError::BackingUnderflow)
    } else if sum - tickets > u64::MAX as u128 {
        Err(ComputationError::BackingOverflow)
    } else {
        Ok((sum - tickets) as u64)
    }
}

/// Compute the per-token price of a state record, in the token's smallest
/// unit of the backing asset.
pub fn msol_value(s: &MarinadeState) -> (r: Result<u64, ComputationError>)
    ensures
        r == msol_value_spec(*s),
{
    let backing = match backing_sol_amount(s) {
        Ok(v) => v,
        Err(e) => {
            return Err(e);
        },
    };
    if s.msol_supply == 0 {
        return Err(ComputationError::ZeroSupply);
    }
    Ok(backing / s.msol_supply)
}

/// The precomputed price carried by some encodings of the state record.
///
/// An alternative, non-interchangeable formula: the protocol computes this
/// field under its own backing-asset composition, which need not match the
/// recomputed quotient of [`msol_value`], so callers must pick one path
/// and not mix the two.
pub fn precomputed_msol_price(s: &MarinadeState) -> (r: u64)
    ensures
        r == s.msol_price,
{
    s.msol_price
}

} // verus!
