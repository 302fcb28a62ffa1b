//! Fixed-layout decoder for the protocol's state account.
//!
//! The state account is a record of unsigned 64-bit counters stored
//! little-endian at fixed byte offsets.  Decoding is a pure, total function
//! of the input bytes: a buffer shorter than the layout is rejected as a
//! whole, never decoded partially.

use vstd::prelude::*;
use vstd::bytes::{
    lemma_auto_spec_u64_to_from_le_bytes, spec_u64_from_le_bytes, spec_u64_to_le_bytes,
    u64_from_le_bytes, u64_to_le_bytes,
};
use vstd::slice::slice_subrange;

verus! {

/// Byte offset of the total actively-staked balance.
pub const TOTAL_ACTIVE_BALANCE_OFFSET: usize = 0;

/// Byte offset of the balance cooling down from an emergency unstake.
pub const EMERGENCY_COOLING_DOWN_OFFSET: usize = 8;

/// Byte offset of the available liquid reserve balance.
pub const AVAILABLE_RESERVE_BALANCE_OFFSET: usize = 16;

/// Byte offset of the outstanding redeemable-ticket balance.
pub const CIRCULATING_TICKET_BALANCE_OFFSET: usize = 24;

/// Byte offset of the total supply of the liquid-staking token.
pub const MSOL_SUPPLY_OFFSET: usize = 32;

/// Byte offset of the precomputed price field.
pub const MSOL_PRICE_OFFSET: usize = 40;

/// Total number of bytes the fixed layout requires.
pub const STATE_LAYOUT_LEN: usize = 48;

/// A decoded snapshot of the protocol's internal accounting state.
#[derive(Clone, Copy, Debug, PartialEq, Eq, Structural)]
pub struct MarinadeState {
    /// Total actively-staked balance, in lamports.
    pub total_active_balance: u64,
    /// Balance cooling down after an emergency unstake, in lamports.
    pub emergency_cooling_down: u64,
    /// Liquid reserve balance available for instant redemption, in lamports.
    pub available_reserve_balance: u64,
    /// Outstanding redeemable-ticket balance, in lamports.
    pub circulating_ticket_balance: u64,
    /// Total supply of the liquid-staking token, in its smallest unit.
    pub msol_supply: u64,
    /// Precomputed per-token price carried by some encodings of the record.
    pub msol_price: u64,
}

/// Why a state-account buffer could not be decoded.
#[derive(Clone, Copy, Debug, PartialEq, Eq, Structural)]
pub enum DecodeError {
    /// The buffer is shorter than the fixed layout requires.
    BufferTooShort,
}

/// The unsigned 64-bit little-endian field stored at byte offset `off` of `b`.
pub open spec fn le_u64_field(b: Seq<u8>, off: int) -> u64 {
    spec_u64_from_le_bytes(b.subrange(off, off + 8))
}

/// What decoding a state-account buffer yields: `None` exactly when the
/// buffer is shorter than the fixed layout, otherwise the record read
/// field by field at the fixed offsets.
pub open spec fn decode_state(b: Seq<u8>) -> Option<MarinadeState> {
    if b.len() < STATE_LAYOUT_LEN {
        None
    } else {
        Some(
            MarinadeState {
                total_active_balance: le_u64_field(b, TOTAL_ACTIVE_BALANCE_OFFSET as int),
                emergency_cooling_down: le_u64_field(b, EMERGENCY_COOLING_DOWN_OFFSET as int),
                available_reserve_balance: le_u64_field(b, AVAILABLE_RESERVE_BALANCE_OFFSET as int),
                circulating_ticket_balance: le_u64_field(
                    b,
                    CIRCULATING_TICKET_BALANCE_OFFSET as int,
                ),
                msol_supply: le_u64_field(b, MSOL_SUPPLY_OFFSET as int),
                msol_price: le_u64_field(b, MSOL_PRICE_OFFSET as int),
            },
        )
    }
}

/// The fixed-layout encoding of a state record: the six counters
/// little-endian, in layout order.
pub open spec fn encode_state(s: MarinadeState) -> Seq<u8> {
    spec_u64_to_le_bytes(s.total_active_balance) + spec_u64_to_le_bytes(s.emergency_cooling_down)
        + spec_u64_to_le_bytes(s.available_reserve_balance) + spec_u64_to_le_bytes(
        s.circulating_ticket_balance,
    ) + spec_u64_to_le_bytes(s.msol_supply) + spec_u64_to_le_bytes(s.msol_price)
}

fn read_le_u64(data: &[u8], off: usize) -> (r: u64)
    requires
        off + 8 <= data@.len(),
        off + 8 <= usize::MAX,
    ensures
        r == le_u64_field(data@, off as int),
{
    let s = slice_subrange(data, off, off + 8);
    u64_from_le_bytes(s)
}

/// Decode a state-account buffer, or fail if it is shorter than the layout.
///
/// No partial decoding: a short buffer yields an error and nothing else.
pub fn parse_marinade_state(data: &[u8]) -> (r: Result<MarinadeState, DecodeError>)
    ensures
        r is Ok <==> data@.len() >= STATE_LAYOUT_LEN,
        r is Ok ==> decode_state(data@) == Some(r->Ok_0),
        r is Err ==> r == Err::<MarinadeState, DecodeError>(DecodeError::BufferTooShort)
            && decode_state(data@) is None,
{
    if data.len() < STATE_LAYOUT_LEN {
        return Err(DecodeError::BufferTooShort);
    }
    Ok(
        MarinadeState {
            total_active_balance: read_le_u64(data, TOTAL_ACTIVE_BALANCE_OFFSET),
            emergency_cooling_down: read_le_u64(data, EMERGENCY_COOLING_DOWN_OFFSET),
            available_reserve_balance: read_le_u64(data, AVAILABLE_RESERVE_BALANCE_OFFSET),
            circulating_ticket_balance: read_le_u64(data, CIRCULATING_TICKET_BALANCE_OFFSET),
            msol_supply: read_le_u64(data, MSOL_SUPPLY_OFFSET),
            msol_price: read_le_u64(data, MSOL_PRICE_OFFSET),
        },
    )
}

/// Encode a state record with the fixed layout.
pub fn state_account_bytes(s: &MarinadeState) -> (r: Vec<u8>)
    ensures
        r@ == encode_state(*s),
        r@.len() == STATE_LAYOUT_LEN,
{
    proof {
        lemma_auto_spec_u64_to_from_le_bytes();
    }
    let mut out: Vec<u8> = Vec::new();
    let mut piece = u64_to_le_bytes(s.total_active_balance);
    out.append(&mut piece);
    let mut piece = u64_to_le_bytes(s.emergency_cooling_down);
    out.append(&mut piece);
    let mut piece = u64_to_le_bytes(s.available_reserve_balance);
    out.append(&mut piece);
    let mut piece = u64_to_le_bytes(s.circulating_ticket_balance);
    out.append(&mut piece);
    let mut piece = u64_to_le_bytes(s.msol_supply);
    out.append(&mut piece);
    let mut piece = u64_to_le_bytes(s.msol_price);
    out.append(&mut piece);
    proof {
        assert(out@ =~= encode_state(*s));
    }
    out
}

/// Decoding reproduces every field of an encoded record, bit for bit.
pub proof fn lemma_state_round_trip(s: MarinadeState)
    ensures
        decode_state(encode_state(s)) == Some(s),
{
    lemma_auto_spec_u64_to_from_le_bytes();
    let b = encode_state(s);
    assert(b.subrange(0, 8) =~= spec_u64_to_le_bytes(s.total_active_balance));
    assert(b.subrange(8, 16) =~= spec_u64_to_le_bytes(s.emergency_cooling_down));
    assert(b.subrange(16, 24) =~= spec_u64_to_le_bytes(s.available_reserve_balance));
    assert(b.subrange(24, 32) =~= spec_u64_to_le_bytes(s.circulating_ticket_balance));
    assert(b.subrange(32, 40) =~= spec_u64_to_le_bytes(s.msol_supply));
    assert(b.subrange(40, 48) =~= spec_u64_to_le_bytes(s.msol_price));
}

/// Every truncation of the layout is rejected: a buffer shorter than the
/// fixed length never decodes.
pub proof fn lemma_short_buffer_rejected(b: Seq<u8>)
    requires
        b.len() < STATE_LAYOUT_LEN,
    ensures
        decode_state(b) is None,
{
}

} // verus!
