//! The valuation record and its assembler.
//!
//! The assembler only packages: given a relevance verdict, the block time,
//! and the computed amounts, it either yields a complete record or
//! nothing.  Absence is a first-class outcome, not an error: it stands for
//! "this transaction did not move the price".

use vstd::prelude::*;

verus! {

/// The liquid-staking token's mint address.
pub open spec fn msol_mint_address_spec() -> Seq<char> {
    "mSoLzYCxHdYgdzU16g5QSh3i5K3z3KZK1iNKhS3nZF"@
}

/// The liquid-staking token's mint address.
pub fn msol_mint_address() -> (r: &'static str)
    ensures
        r@ == msol_mint_address_spec(),
{
    "mSoLzYCxHdYgdzU16g5QSh3i5K3z3KZK1iNKhS3nZF"
}

/// The backing asset's mint address.
pub open spec fn sol_mint_address_spec() -> Seq<char> {
    "So11111111111111111111111111111111111111112"@
}

/// The backing asset's mint address.
pub fn sol_mint_address() -> (r: &'static str)
    ensures
        r@ == sol_mint_address_spec(),
{
    "So11111111111111111111111111111111111111112"
}

/// The address of the protocol's state account.
pub open spec fn marinade_state_address_spec() -> Seq<char> {
    "8szGkuLTAux9XMgZ2vtY39jVSowEcpBfFfD8hXSEqdGC"@
}

/// The address of the protocol's state account.
pub fn marinade_state_address() -> (r: &'static str)
    ensures
        r@ == marinade_state_address_spec(),
{
    "8szGkuLTAux9XMgZ2vtY39jVSowEcpBfFfD8hXSEqdGC"
}

/// The address of the protocol's on-chain program, against which
/// instruction program identifiers are matched.
pub open spec fn marinade_program_address_spec() -> Seq<char> {
    "MarBmsSgKXdrN1egZf5sqe1TMai9K1rChYNDJgjq7aD"@
}

/// The address of the protocol's on-chain program.
pub fn marinade_program_address() -> (r: &'static str)
    ensures
        r@ == marinade_program_address_spec(),
{
    "MarBmsSgKXdrN1egZf5sqe1TMai9K1rChYNDJgjq7aD"
}

/// A point-in-time valuation of the liquid-staking token: the computed
/// per-token price and the backing-asset amounts behind it.
///
/// The `mints` and `total_underlying_amounts` lists are index-aligned and
/// always of the same length; for the single-asset record built here both
/// hold exactly one element.
#[derive(Clone, Debug)]
pub struct MintUnderlying {
    /// The block time of the transaction the valuation belongs to.
    pub block_time: i64,
    /// The computed per-token price, in the backing asset's smallest unit.
    pub msol_value: u64,
    /// The liquid-staking token's mint address.
    pub mint_pubkey: String,
    /// The address of the protocol account the valuation was read from.
    pub platform_program_pubkey: String,
    /// The backing assets' mint addresses.
    pub mints: Vec<String>,
    /// The backing-asset amounts, index-aligned with `mints`.
    pub total_underlying_amounts: Vec<u64>,
}

/// The field-level statement that `mu` is the complete snapshot for block
/// time `t`, price `value` and backing amount `backing`.
pub open spec fn snapshot_fields(mu: MintUnderlying, t: i64, value: u64, backing: u64) -> bool {
    &&& mu.block_time == t
    &&& mu.msol_value == value
    &&& mu.mint_pubkey@ == msol_mint_address_spec()
    &&& mu.platform_program_pubkey@ == marinade_state_address_spec()
    &&& mu.mints@.len() == 1
    &&& mu.mints@[0]@ == sol_mint_address_spec()
    &&& mu.total_underlying_amounts@ == seq![backing]
}

/// Package a relevance verdict, a block time and the computed amounts
/// into a valuation record, or into nothing.
///
/// Nothing is produced exactly when the transaction was not relevant or
/// the chain recorded no block time; otherwise the record is complete,
/// with the single backing asset and its amount index-aligned.
pub fn assemble_snapshot(
    relevant: bool,
    block_time: Option<i64>,
    msol_value: u64,
    backing_sol: u64,
) -> (r: Option<MintUnderlying>)
    ensures
        r is Some <==> (relevant && block_time is Some),
        r is Some ==> snapshot_fields(r->0, block_time->0, msol_value, backing_sol),
{
    if !relevant {
        return None;
    }
    let t = match block_time {
        Some(t) => t,
        None => {
            return None;
        },
    };
    let mut mints: Vec<String> = Vec::new();
    mints.push(sol_mint_address().to_owned());
    let mut amounts: Vec<u64> = Vec::new();
    amounts.push(backing_sol);
    let mu = MintUnderlying {
        block_time: t,
        msol_value,
        mint_pubkey: msol_mint_address().to_owned(),
        platform_program_pubkey: marinade_state_address().to_owned(),
        mints,
        total_underlying_amounts: amounts,
    };
    proof {
        assert(mu.total_underlying_amounts@ =~= seq![backing_sol]);
    }
    Some(mu)
}

} // verus!
