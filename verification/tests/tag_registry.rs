use marinade_rate::tags::{
    deposit_tag, mutating_tag_registry, tag_of, MarinadeFinanceInstruction,
};

const CURATED_NAMES: [&str; 11] = [
    "global:deposit",
    "global:deposit_stake_account",
    "global:liquid_unstake",
    "global:add_liquidity",
    "global:remove_liquidity",
    "global:order_unstake",
    "global:claim",
    "global:withdraw_stake_account",
    "global:add_validator",
    "global:remove_validator",
    "global:initialize",
];

#[test]
fn deposit_literal_matches_derived_tag() {
    // The fixed literal tag and the content-derived tag agree for the
    // deposit operation.
    let derived = tag_of("global:deposit");
    assert_eq!(derived, deposit_tag());
    assert_eq!(derived, vec![0xf2, 0x23, 0xc6, 0x89, 0x52, 0xe1, 0xf2, 0xb6]);
}

#[test]
fn known_tag_values() {
    // Pinned digests of two more curated names.
    assert_eq!(
        tag_of("global:claim"),
        vec![0x3e, 0xc6, 0xd6, 0xc1, 0xd5, 0x9f, 0x6c, 0xd2]
    );
    assert_eq!(
        tag_of("global:liquid_unstake"),
        vec![0x1e, 0x1e, 0x77, 0xf0, 0xbf, 0xe3, 0x0c, 0x10]
    );
}

#[test]
fn tag_of_is_deterministic() {
    for name in CURATED_NAMES {
        assert_eq!(tag_of(name), tag_of(name));
    }
}

#[test]
fn curated_tags_do_not_collide() {
    let tags: Vec<Vec<u8>> = CURATED_NAMES.iter().map(|n| tag_of(n)).collect();
    for i in 0..tags.len() {
        assert_eq!(tags[i].len(), 8);
        for j in 0..i {
            assert_ne!(tags[i], tags[j], "curated tags must be pairwise distinct");
        }
    }
}

#[test]
fn registry_holds_exactly_the_curated_tags() {
    let registry = mutating_tag_registry();
    for name in CURATED_NAMES {
        assert!(registry.contains_tag(&tag_of(name)));
    }
    // Operations outside the curated set are not registered.
    assert!(!registry.contains_tag(&tag_of("global:pause")));
    assert!(!registry.contains_tag(&tag_of("global:emergency_unstake")));
    assert!(!registry.contains_tag(&[0u8; 8]));
}

#[test]
fn canonical_names_and_curation() {
    assert_eq!(
        MarinadeFinanceInstruction::Deposit.canonical_name(),
        "global:deposit"
    );
    assert_eq!(
        MarinadeFinanceInstruction::WithdrawStakeAccount.canonical_name(),
        "global:withdraw_stake_account"
    );
    assert!(MarinadeFinanceInstruction::Deposit.is_state_mutating());
    assert!(MarinadeFinanceInstruction::LiquidUnstake.is_state_mutating());
    assert!(MarinadeFinanceInstruction::Initialize.is_state_mutating());
    assert!(!MarinadeFinanceInstruction::Pause.is_state_mutating());
    assert!(!MarinadeFinanceInstruction::SetValidatorScore.is_state_mutating());
    // Every variant the curated list marks mutating has its tag registered.
    let registry = mutating_tag_registry();
    let all = [
        MarinadeFinanceInstruction::Initialize,
        MarinadeFinanceInstruction::ChangeAuthority,
        MarinadeFinanceInstruction::AddValidator,
        MarinadeFinanceInstruction::RemoveValidator,
        MarinadeFinanceInstruction::SetValidatorScore,
        MarinadeFinanceInstruction::ConfigValidatorSystem,
        MarinadeFinanceInstruction::Deposit,
        MarinadeFinanceInstruction::DepositStakeAccount,
        MarinadeFinanceInstruction::LiquidUnstake,
        MarinadeFinanceInstruction::AddLiquidity,
        MarinadeFinanceInstruction::RemoveLiquidity,
        MarinadeFinanceInstruction::ConfigLp,
        MarinadeFinanceInstruction::ConfigMarinade,
        MarinadeFinanceInstruction::OrderUnstake,
        MarinadeFinanceInstruction::Claim,
        MarinadeFinanceInstruction::StakeReserve,
        MarinadeFinanceInstruction::UpdateActive,
        MarinadeFinanceInstruction::UpdateDeactivated,
        MarinadeFinanceInstruction::DeactivateStake,
        MarinadeFinanceInstruction::EmergencyUnstake,
        MarinadeFinanceInstruction::PartialUnstake,
        MarinadeFinanceInstruction::MergeStakes,
        MarinadeFinanceInstruction::Redelegate,
        MarinadeFinanceInstruction::Pause,
        MarinadeFinanceInstruction::Resume,
        MarinadeFinanceInstruction::WithdrawStakeAccount,
        MarinadeFinanceInstruction::ReallocValidatorList,
        MarinadeFinanceInstruction::ReallocStakeList,
    ];
    for ix in all {
        assert_eq!(ix.registered_tag(), tag_of(ix.canonical_name()));
        if ix.is_state_mutating() {
            assert!(registry.contains_tag(&ix.registered_tag()));
        }
    }
}
