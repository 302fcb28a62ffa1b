//! Instruction tags and the curated registry of state-mutating operations.
//!
//! An instruction's first eight payload bytes identify the operation it
//! invokes.  Tags come from two sources: the single deposit operation has a
//! fixed literal tag, and every other tag is derived from the operation's
//! canonical name by a one-way content hash, truncated to eight bytes.
//! The registry of tags considered state-mutating for valuation purposes is
//! a closed, manually curated list, built once and read-only afterwards.

use vstd::prelude::*;
use vstd::slice::{slice_index_get, slice_subrange, slice_to_vec};
use vstd::string::StringSliceAdditionalSpecFns;

verus! {

/// The 256-bit content digest of a byte string, as the outside hash
/// computes it.  A pure function of the input bytes alone.
pub uninterp spec fn sha256_of(input: Seq<u8>) -> Seq<u8>;

/// Relies on sha2::Sha256 through the Digest trait: the digest is a pure
/// function of the input bytes and is exactly 32 bytes long.
#[verifier::external_body]
fn sha256_digest(input: &[u8]) -> (r: Vec<u8>)
    ensures
        r@ == sha256_of(input@),
        r@.len() == 32,
{
    let digest = <sha2::Sha256 as sha2::Digest>::digest(input);
    digest.to_vec()
}

/// The eight-byte tag derived from a canonical operation name: the first
/// eight bytes of the content digest of the name's UTF-8 bytes.
pub open spec fn tag_of_bytes(name: Seq<u8>) -> Seq<u8> {
    sha256_of(name).take(8)
}

/// Derive the eight-byte tag of a canonical operation name.
pub fn tag_of(name: &str) -> (r: Vec<u8>)
    ensures
        r@ == tag_of_bytes(name.spec_bytes()),
        r@.len() == 8,
{
    let digest = sha256_digest(name.as_bytes());
    let tag = slice_to_vec(slice_subrange(digest.as_slice(), 0, 8));
    proof {
        assert(tag@ =~= tag_of_bytes(name.spec_bytes()));
    }
    tag
}

/// Identical canonical names always derive identical tags: the tag is a
/// pure function of the name's bytes.
pub proof fn lemma_tag_deterministic(a: Seq<u8>, b: Seq<u8>)
    requires
        a == b,
    ensures
        tag_of_bytes(a) == tag_of_bytes(b),
{
}

/// The fixed literal tag of the deposit operation.
pub open spec fn deposit_tag_spec() -> Seq<u8> {
    seq![0xf2u8, 0x23u8, 0xc6u8, 0x89u8, 0x52u8, 0xe1u8, 0xf2u8, 0xb6u8]
}

/// The fixed literal tag of the deposit operation.
pub fn deposit_tag() -> (r: Vec<u8>)
    ensures
        r@ == deposit_tag_spec(),
{
    let mut tag: Vec<u8> = Vec::new();
    tag.push(0xf2u8);
    tag.push(0x23u8);
    tag.push(0xc6u8);
    tag.push(0x89u8);
    tag.push(0x52u8);
    tag.push(0xe1u8);
    tag.push(0xf2u8);
    tag.push(0xb6u8);
    proof {
        assert(tag@ =~= deposit_tag_spec());
    }
    tag
}

/// The operations of the staking protocol's on-chain program.
#[derive(Clone, Copy, Debug, PartialEq, Eq, Structural)]
pub enum MarinadeFinanceInstruction {
    Initialize,
    ChangeAuthority,
    AddValidator,
    RemoveValidator,
    SetValidatorScore,
    ConfigValidatorSystem,
    Deposit,
    DepositStakeAccount,
    LiquidUnstake,
    AddLiquidity,
    RemoveLiquidity,
    ConfigLp,
    ConfigMarinade,
    OrderUnstake,
    Claim,
    StakeReserve,
    UpdateActive,
    UpdateDeactivated,
    DeactivateStake,
    EmergencyUnstake,
    PartialUnstake,
    MergeStakes,
    Redelegate,
    Pause,
    Resume,
    WithdrawStakeAccount,
    ReallocValidatorList,
    ReallocStakeList,
}

/// The canonical, namespaced name under which an operation's tag is
/// derived.
pub open spec fn canonical_name_spec(ix: MarinadeFinanceInstruction) -> Seq<u8> {
    match ix {
        MarinadeFinanceInstruction::Initialize => "global:initialize".spec_bytes(),
        MarinadeFinanceInstruction::ChangeAuthority => "global:change_authority".spec_bytes(),
        MarinadeFinanceInstruction::AddValidator => "global:add_validator".spec_bytes(),
        MarinadeFinanceInstruction::RemoveValidator => "global:remove_validator".spec_bytes(),
        MarinadeFinanceInstruction::SetValidatorScore => "global:set_validator_score".spec_bytes(),
        MarinadeFinanceInstruction::ConfigValidatorSystem => "global:config_validator_system".spec_bytes(),
        MarinadeFinanceInstruction::Deposit => "global:deposit".spec_bytes(),
        MarinadeFinanceInstruction::DepositStakeAccount => "global:deposit_stake_account".spec_bytes(),
        MarinadeFinanceInstruction::LiquidUnstake => "global:liquid_unstake".spec_bytes(),
        MarinadeFinanceInstruction::AddLiquidity => "global:add_liquidity".spec_bytes(),
        MarinadeFinanceInstruction::RemoveLiquidity => "global:remove_liquidity".spec_bytes(),
        MarinadeFinanceInstruction::ConfigLp => "global:config_lp".spec_bytes(),
        MarinadeFinanceInstruction::ConfigMarinade => "global:config_marinade".spec_bytes(),
        MarinadeFinanceInstruction::OrderUnstake => "global:order_unstake".spec_bytes(),
        MarinadeFinanceInstruction::Claim => "global:claim".spec_bytes(),
        MarinadeFinanceInstruction::StakeReserve => "global:stake_reserve".spec_bytes(),
        MarinadeFinanceInstruction::UpdateActive => "global:update_active".spec_bytes(),
        MarinadeFinanceInstruction::UpdateDeactivated => "global:update_deactivated".spec_bytes(),
        MarinadeFinanceInstruction::DeactivateStake => "global:deactivate_stake".spec_bytes(),
        MarinadeFinanceInstruction::EmergencyUnstake => "global:emergency_unstake".spec_bytes(),
        MarinadeFinanceInstruction::PartialUnstake => "global:partial_unstake".spec_bytes(),
        MarinadeFinanceInstruction::MergeStakes => "global:merge_stakes".spec_bytes(),
        MarinadeFinanceInstruction::Redelegate => "global:redelegate".spec_bytes(),
        MarinadeFinanceInstruction::Pause => "global:pause".spec_bytes(),
        MarinadeFinanceInstruction::Resume => "global:resume".spec_bytes(),
        MarinadeFinanceInstruction::WithdrawStakeAccount => "global:withdraw_stake_account".spec_bytes(),
        MarinadeFinanceInstruction::ReallocValidatorList => "global:realloc_validator_list".spec_bytes(),
        MarinadeFinanceInstruction::ReallocStakeList => "global:realloc_stake_list".spec_bytes(),
    }
}

impl MarinadeFinanceInstruction {
    /// The canonical, namespaced name under which this operation's tag is
    /// derived.
    pub fn canonical_name(&self) -> (r: &'static str)
        ensures
            r.spec_bytes() == canonical_name_spec(*self),
    {
        match self {
            MarinadeFinanceInstruction::Initialize => "global:initialize",
            MarinadeFinanceInstruction::ChangeAuthority => "global:change_authority",
            MarinadeFinanceInstruction::AddValidator => "global:add_validator",
            MarinadeFinanceInstruction::RemoveValidator => "global:remove_validator",
            MarinadeFinanceInstruction::SetValidatorScore => "global:set_validator_score",
            MarinadeFinanceInstruction::ConfigValidatorSystem => "global:config_validator_system",
            MarinadeFinanceInstruction::Deposit => "global:deposit",
            MarinadeFinanceInstruction::DepositStakeAccount => "global:deposit_stake_account",
            MarinadeFinanceInstruction::LiquidUnstake => "global:liquid_unstake",
            MarinadeFinanceInstruction::AddLiquidity => "global:add_liquidity",
            MarinadeFinanceInstruction::RemoveLiquidity => "global:remove_liquidity",
            MarinadeFinanceInstruction::ConfigLp => "global:config_lp",
            MarinadeFinanceInstruction::ConfigMarinade => "global:config_marinade",
            MarinadeFinanceInstruction::OrderUnstake => "global:order_unstake",
            MarinadeFinanceInstruction::Claim => "global:claim",
            MarinadeFinanceInstruction::StakeReserve => "global:stake_reserve",
            MarinadeFinanceInstruction::UpdateActive => "global:update_active",
            MarinadeFinanceInstruction::UpdateDeactivated => "global:update_deactivated",
            MarinadeFinanceInstruction::DeactivateStake => "global:deactivate_stake",
            MarinadeFinanceInstruction::EmergencyUnstake => "global:emergency_unstake",
            MarinadeFinanceInstruction::PartialUnstake => "global:partial_unstake",
            MarinadeFinanceInstruction::MergeStakes => "global:merge_stakes",
            MarinadeFinanceInstruction::Redelegate => "global:redelegate",
            MarinadeFinanceInstruction::Pause => "global:pause",
            MarinadeFinanceInstruction::Resume => "global:resume",
            MarinadeFinanceInstruction::WithdrawStakeAccount => "global:withdraw_stake_account",
            MarinadeFinanceInstruction::ReallocValidatorList => "global:realloc_validator_list",
            MarinadeFinanceInstruction::ReallocStakeList => "global:realloc_stake_list",
        }
    }
}

/// Whether the curated registry counts an operation as mutating the
/// valuation-relevant state (staked balance, reserve, cooling-down balance
/// or token supply).
///
/// The list is closed and manually curated from the protocol's interface
/// definition; operations outside it are assumed non-mutating by default,
/// a documented conservative bias.  Operations such as the emergency
/// unstake do move the cooling-down balance but are outside the curated
/// set: a known gap of the curated list, kept as curated rather than
/// silently widened.
pub open spec fn spec_is_state_mutating(ix: MarinadeFinanceInstruction) -> bool {
    match ix {
        MarinadeFinanceInstruction::Deposit => true,
        MarinadeFinanceInstruction::DepositStakeAccount => true,
        MarinadeFinanceInstruction::LiquidUnstake => true,
        MarinadeFinanceInstruction::AddLiquidity => true,
        MarinadeFinanceInstruction::RemoveLiquidity => true,
        MarinadeFinanceInstruction::OrderUnstake => true,
        MarinadeFinanceInstruction::Claim => true,
        MarinadeFinanceInstruction::WithdrawStakeAccount => true,
        MarinadeFinanceInstruction::AddValidator => true,
        MarinadeFinanceInstruction::RemoveValidator => true,
        MarinadeFinanceInstruction::Initialize => true,
        _ => false,
    }
}

impl MarinadeFinanceInstruction {
    /// Whether the curated registry counts this operation as state-mutating.
    pub fn is_state_mutating(&self) -> (r: bool)
        ensures
            r == spec_is_state_mutating(*self),
    {
        match self {
            MarinadeFinanceInstruction::Deposit => true,
            MarinadeFinanceInstruction::DepositStakeAccount => true,
            MarinadeFinanceInstruction::LiquidUnstake => true,
            MarinadeFinanceInstruction::AddLiquidity => true,
            MarinadeFinanceInstruction::RemoveLiquidity => true,
            MarinadeFinanceInstruction::OrderUnstake => true,
            MarinadeFinanceInstruction::Claim => true,
            MarinadeFinanceInstruction::WithdrawStakeAccount => true,
            MarinadeFinanceInstruction::AddValidator => true,
            MarinadeFinanceInstruction::RemoveValidator => true,
            MarinadeFinanceInstruction::Initialize => true,
            _ => false,
        }
    }
}

/// The tag under which a state-mutating operation stands in the registry:
/// the fixed literal for the deposit operation, the derived tag for every
/// other operation.
pub open spec fn registered_tag_spec(ix: MarinadeFinanceInstruction) -> Seq<u8> {
    if ix == MarinadeFinanceInstruction::Deposit {
        deposit_tag_spec()
    } else {
        tag_of_bytes(canonical_name_spec(ix))
    }
}

impl MarinadeFinanceInstruction {
    /// The tag under which this operation is identified: the fixed literal
    /// for the deposit operation, the tag derived from the canonical name
    /// for every other operation.
    pub fn registered_tag(&self) -> (r: Vec<u8>)
        ensures
            r@ == registered_tag_spec(*self),
            r@.len() == 8,
    {
        match self {
            MarinadeFinanceInstruction::Deposit => deposit_tag(),
            _ => tag_of(self.canonical_name()),
        }
    }
}

/// The curated set of state-mutating tags, in registry order: the fixed
/// deposit tag first, then the derived tags of the other curated
/// operations.
pub open spec fn mutating_tags_spec() -> Seq<Seq<u8>> {
    seq![
        deposit_tag_spec(),
        tag_of_bytes("global:deposit_stake_account".spec_bytes()),
        tag_of_bytes("global:liquid_unstake".spec_bytes()),
        tag_of_bytes("global:add_liquidity".spec_bytes()),
        tag_of_bytes("global:remove_liquidity".spec_bytes()),
        tag_of_bytes("global:order_unstake".spec_bytes()),
        tag_of_bytes("global:claim".spec_bytes()),
        tag_of_bytes("global:withdraw_stake_account".spec_bytes()),
        tag_of_bytes("global:add_validator".spec_bytes()),
        tag_of_bytes("global:remove_validator".spec_bytes()),
        tag_of_bytes("global:initialize".spec_bytes()),
    ]
}

/// Every operation the curated list counts as state-mutating has its
/// registered tag in the registry.
pub proof fn lemma_registry_covers_mutating_ops(ix: MarinadeFinanceInstruction)
    requires
        spec_is_state_mutating(ix),
    ensures
        mutating_tags_spec().contains(registered_tag_spec(ix)),
{
    let tags = mutating_tags_spec();
    match ix {
        MarinadeFinanceInstruction::Deposit => {
            assert(tags[0] == registered_tag_spec(ix));
        },
        MarinadeFinanceInstruction::DepositStakeAccount => {
            assert(tags[1] == registered_tag_spec(ix));
        },
        MarinadeFinanceInstruction::LiquidUnstake => {
            assert(tags[2] == registered_tag_spec(ix));
        },
        MarinadeFinanceInstruction::AddLiquidity => {
            assert(tags[3] == registered_tag_spec(ix));
        },
        MarinadeFinanceInstruction::RemoveLiquidity => {
            assert(tags[4] == registered_tag_spec(ix));
        },
        MarinadeFinanceInstruction::OrderUnstake => {
            assert(tags[5] == registered_tag_spec(ix));
        },
        MarinadeFinanceInstruction::Claim => {
            assert(tags[6] == registered_tag_spec(ix));
        },
        MarinadeFinanceInstruction::WithdrawStakeAccount => {
            assert(tags[7] == registered_tag_spec(ix));
        },
        MarinadeFinanceInstruction::AddValidator => {
            assert(tags[8] == registered_tag_spec(ix));
        },
        MarinadeFinanceInstruction::RemoveValidator => {
            assert(tags[9] == registered_tag_spec(ix));
        },
        MarinadeFinanceInstruction::Initialize => {
            assert(tags[10] == registered_tag_spec(ix));
        },
        _ => {
        },
    }
}

/// The process-wide, read-only registry of state-mutating instruction tags.
pub struct TagRegistry {
    tags: Vec<Vec<u8>>,
}

impl View for TagRegistry {
    type V = Seq<Seq<u8>>;

    closed spec fn view(&self) -> Seq<Seq<u8>> {
        self.tags@.map_values(|t: Vec<u8>| t@)
    }
}

/// Byte-wise equality of two byte strings.
pub fn bytes_eq(a: &[u8], b: &[u8]) -> (r: bool)
    ensures
        r == (a@ == b@),
{
    if a.len() != b.len() {
        return false;
    }
    let mut i: usize = 0;
    while i < a.len()
        invariant
            i <= a@.len(),
            a@.len() == b@.len(),
            forall|j: int| 0 <= j < i ==> a@[j] == b@[j],
        decreases a@.len() - i,
    {
        if *slice_index_get(a, i) != *slice_index_get(b, i) {
            return false;
        }
        i = i + 1;
    }
    proof {
        assert(a@ =~= b@);
    }
    true
}

impl TagRegistry {
    /// Whether an eight-byte tag is one of the registered state-mutating
    /// tags.
    pub fn contains_tag(&self, tag: &[u8]) -> (r: bool)
        ensures
            r == self@.contains(tag@),
    {
        let mut i: usize = 0;
        while i < self.tags.len()
            invariant
                i <= self.tags@.len(),
                self@ == self.tags@.map_values(|t: Vec<u8>| t@),
                self@.len() == self.tags@.len(),
                forall|j: int| 0 <= j < i ==> self@[j] != tag@,
            decreases self.tags@.len() - i,
        {
            if bytes_eq(self.tags[i].as_slice(), tag) {
                assert(self@[i as int] == tag@);
                return true;
            }
            i = i + 1;
        }
        proof {
            assert(forall|j: int| 0 <= j < self@.len() ==> self@[j] != tag@);
        }
        false
    }
}

/// Build the registry of state-mutating tags.
///
/// Built once at startup; the registry offers no mutation API, so the set
/// is immutable for the life of the process.
pub fn mutating_tag_registry() -> (r: TagRegistry)
    ensures
        r@ == mutating_tags_spec(),
{
    let mut tags: Vec<Vec<u8>> = Vec::new();
    tags.push(deposit_tag());
    tags.push(tag_of("global:deposit_stake_account"));
    tags.push(tag_of("global:liquid_unstake"));
    tags.push(tag_of("global:add_liquidity"));
    tags.push(tag_of("global:remove_liquidity"));
    tags.push(tag_of("global:order_unstake"));
    tags.push(tag_of("global:claim"));
    tags.push(tag_of("global:withdraw_stake_account"));
    tags.push(tag_of("global:add_validator"));
    tags.push(tag_of("global:remove_validator"));
    tags.push(tag_of("global:initialize"));
    let r = TagRegistry { tags };
    proof {
        assert(r@ =~= mutating_tags_spec());
    }
    r
}

} // verus!
