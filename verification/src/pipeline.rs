//! The decode-classify-compute pipeline over one transaction.
//!
//! One transaction in, one optional valuation record out.  "Not relevant"
//! and "no block time" are absences, not errors; a state buffer that does
//! not decode, or arithmetic whose preconditions fail, are errors distinct
//! from absence, so callers can tell bad data from an irrelevant
//! transaction.

use vstd::prelude::*;
use crate::classify::{is_relevant, tx_relevant, TransactionView};
use crate::rate::{backing_result_spec, backing_sol_amount, msol_value_spec, ComputationError};
use crate::snapshot::{assemble_snapshot, snapshot_fields, MintUnderlying};
use crate::state::{decode_state, parse_marinade_state, DecodeError};
use crate::tags::TagRegistry;

verus! {

/// Why the pipeline could not produce a verdict for a relevant
/// transaction.
#[derive(Clone, Copy, Debug, PartialEq, Eq, Structural)]
pub enum AnalyzeError {
    /// The state-account bytes do not match the fixed layout.
    Decode(DecodeError),
    /// The exchange-rate arithmetic's preconditions failed.
    Computation(ComputationError),
}

/// Analyze one transaction against the fetched state-account bytes.
///
/// An irrelevant transaction, or a relevant one without a block time,
/// yields `Ok(None)`.  For a relevant transaction, a state buffer that
/// does not decode yields a decode error — never a silent absence — and
/// failed arithmetic yields the matching computation error.  Otherwise
/// the complete valuation record is returned.
pub fn analyze_transaction(
    tx: &TransactionView,
    registry: &TagRegistry,
    target_program: &[u8],
    state_data: &[u8],
) -> (r: Result<Option<MintUnderlying>, AnalyzeError>)
    ensures
        !tx_relevant(*tx, target_program@, registry@) ==> r == Ok::<
            Option<MintUnderlying>,
            AnalyzeError,
        >(None),
        tx_relevant(*tx, target_program@, registry@) && decode_state(state_data@) is None ==> r
            == Err::<Option<MintUnderlying>, AnalyzeError>(
            AnalyzeError::Decode(DecodeError::BufferTooShort),
        ),
        tx_relevant(*tx, target_program@, registry@) && decode_state(state_data@) is Some ==> {
            let s = decode_state(state_data@)->0;
            match msol_value_spec(s) {
                Err(e) => r == Err::<Option<MintUnderlying>, AnalyzeError>(
                    AnalyzeError::Computation(e),
                ),
                Ok(v) => {
                    &&& tx.block_time is None ==> r == Ok::<
                        Option<MintUnderlying>,
                        AnalyzeError,
                    >(None)
                    &&& tx.block_time is Some ==> r is Ok && r->Ok_0 is Some && snapshot_fields(
                        r->Ok_0->0,
                        tx.block_time->0,
                        v,
                        backing_result_spec(s)->Ok_0,
                    )
                },
            }
        },
{
    if !is_relevant(tx, target_program, registry) {
        return Ok(None);
    }
    let s = match parse_marinade_state(state_data) {
        Ok(s) => s,
        Err(e) => {
            return Err(AnalyzeError::Decode(e));
        },
    };
    let backing = match backing_sol_amount(&s) {
        Ok(b) => b,
        Err(e) => {
            return Err(AnalyzeError::Computation(e));
        },
    };
    if s.msol_supply == 0 {
        return Err(AnalyzeError::Computation(ComputationError::ZeroSupply));
    }
    let value = backing / s.msol_supply;
    Ok(assemble_snapshot(true, tx.block_time, value, backing))
}

} // verus!
