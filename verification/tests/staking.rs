use tier_sol_miner::errors::MinerError;
use tier_sol_miner::stake::{
    claim_interest, compound_interest, increase_stake, initialize_staking,
    initialize_staking_with_referrer, initialize_whitelist, whitelist_withdraw, withdraw,
    withdraw_referral_rewards, terminate_staking,
};
use tier_sol_miner::states::{initialize_mine, whitelist_account, MineInfo, ReferralInfo, TierInfo};

const YEAR: u64 = 31_536_000;

/// A mine with a 1% deposit fee, a 20% early-withdrawal penalty and a 5%
/// referral reward, and a one-year 10% tier with an eligibility threshold of
/// 50 units.
fn setup() -> (MineInfo, TierInfo) {
    let (mut mine, _vault) = initialize_mine(1, 2, 3, 4, 100, 2_000, 500);
    let tier = mine.add_tier(50, 1_000, YEAR).unwrap();
    (mine, tier)
}

#[test]
fn open_takes_the_fee_and_accrues_a_full_window() {
    let (mine, mut tier) = setup();
    let (stake, receipt) = initialize_staking(&mine, &mut tier, 7, 100, 1_000_000, 500).unwrap();
    assert_eq!(receipt.dev_fee, 10_000);
    assert_eq!(receipt.vault_deposit, 990_000);
    assert_eq!(stake.owner, 7);
    assert_eq!(stake.total_locked, 990_000);
    assert_eq!(stake.accrued_interest, 99_000);
    assert_eq!(stake.lock_ts, 500);
    assert_eq!(stake.tier, tier.nonce);
    assert!(!stake.is_whitelist);
    assert_eq!(tier.total_locked, 990_000);
}

#[test]
fn withdraw_after_the_full_year_pays_net_of_fee_only() {
    let (mine, mut tier) = setup();
    let (stake, _) = initialize_staking(&mine, &mut tier, 7, 100, 1_000_000, 500).unwrap();
    // exactly one year later: the boundary is inclusive, no penalty
    let payout = withdraw(&mine, &mut tier, stake, 100, 500 + YEAR).unwrap();
    assert_eq!(payout.dev_fee, 10_890);
    assert_eq!(payout.penalty, 0);
    assert_eq!(payout.amount_out, 1_078_110);
    assert_eq!(tier.total_locked, 0);
}

#[test]
fn immediate_withdraw_pays_the_penalty_and_less_than_the_principal() {
    let (mine, mut tier) = setup();
    let (stake, _) = initialize_staking(&mine, &mut tier, 7, 100, 1_000_000, 500).unwrap();
    let principal = stake.total_locked;
    let total = principal + stake.accrued_interest;
    let payout = withdraw(&mine, &mut tier, stake, 100, 500).unwrap();
    assert_eq!(payout.penalty, total * 2_000 / 10_000);
    assert_eq!(payout.penalty, 217_800);
    assert_eq!(payout.dev_fee, 10_890);
    assert_eq!(payout.amount_out, total - payout.dev_fee - payout.penalty);
    assert_eq!(payout.amount_out, 860_310);
    assert!(payout.amount_out < principal);
    assert_eq!(tier.total_locked, 0);
}

#[test]
fn zero_deposit_is_rejected() {
    let (mine, mut tier) = setup();
    assert_eq!(
        initialize_staking(&mine, &mut tier, 7, 100, 0, 500),
        Err(MinerError::InvalidDepositAmount)
    );
    assert_eq!(tier.total_locked, 0);
}

#[test]
fn inactive_mine_rejects_deposits() {
    let (mut mine, mut tier) = setup();
    mine.update_mine(None, None, None, None, None, Some(false));
    assert_eq!(
        initialize_staking(&mine, &mut tier, 7, 100, 1_000_000, 500),
        Err(MinerError::InactiveMine)
    );
}

#[test]
fn inactive_tier_rejects_deposits() {
    let (mine, mut tier) = setup();
    tier.update_tier(None, None, None, Some(false));
    assert_eq!(
        initialize_staking(&mine, &mut tier, 7, 100, 1_000_000, 500),
        Err(MinerError::InvalidTier)
    );
}

#[test]
fn insufficient_holding_rejects_deposits() {
    let (mine, mut tier) = setup();
    assert_eq!(
        initialize_staking(&mine, &mut tier, 7, 49, 1_000_000, 500),
        Err(MinerError::InvalidTokenAccount)
    );
}

#[test]
fn referral_bonus_is_credited_and_accumulates() {
    let (mine, mut tier) = setup();
    // the referrer holds a stake of their own
    let (referrer_stake, _) =
        initialize_staking(&mine, &mut tier, 9, 100, 1_000_000, 400).unwrap();
    // first referred deposit: 5% of the 990,000 net principal
    let (_, referral, _) = initialize_staking_with_referrer(
        &mine, &mut tier, 7, 100, 1_000_000, 500, referrer_stake.owner, None,
    )
    .unwrap();
    assert_eq!(referral.owner, 9);
    assert_eq!(referral.earnings, 49_500);
    assert_eq!(referral.count, 1);
    // a second referral from the same referrer accumulates
    let (_, referral, _) = initialize_staking_with_referrer(
        &mine,
        &mut tier,
        8,
        100,
        1_000_000,
        600,
        referrer_stake.owner,
        Some(referral),
    )
    .unwrap();
    assert_eq!(referral.earnings, 99_000);
    assert_eq!(referral.count, 2);
}

#[test]
fn self_referral_is_rejected() {
    let (mine, mut tier) = setup();
    assert_eq!(
        initialize_staking_with_referrer(&mine, &mut tier, 7, 100, 1_000_000, 500, 7, None),
        Err(MinerError::InvalidReferrer)
    );
}

#[test]
fn referral_withdraw_pays_net_of_fee_and_keeps_the_count() {
    let (mine, mut tier) = setup();
    let (referrer_stake, _) =
        initialize_staking(&mine, &mut tier, 9, 100, 1_000_000, 400).unwrap();
    let mut referral = ReferralInfo {
        owner: 9,
        earnings: 49_500,
        count: 3,
    };
    let payout =
        withdraw_referral_rewards(&mine, &tier, &referrer_stake, &mut referral, 100).unwrap();
    assert_eq!(payout.dev_fee, 495);
    assert_eq!(payout.amount_out, 49_005);
    assert_eq!(payout.penalty, 0);
    assert_eq!(referral.earnings, 0);
    assert_eq!(referral.count, 3);
}

#[test]
fn claim_exactly_at_the_lock_duration_is_penalty_free() {
    let (mine, tier_template) = setup();
    let mut tier = tier_template;
    let (mut stake, _) = initialize_staking(&mine, &mut tier, 7, 100, 1_000_000, 500).unwrap();
    let payout = claim_interest(&mine, &tier, &mut stake, 100, 500 + YEAR).unwrap();
    assert_eq!(payout.penalty, 0);
    assert_eq!(payout.dev_fee, 990);
    assert_eq!(payout.amount_out, 99_000 - 990);
    // a fresh full window is accrued on the unchanged principal
    assert_eq!(stake.total_locked, 990_000);
    assert_eq!(stake.accrued_interest, 99_000);
    assert_eq!(stake.lock_ts, 500 + YEAR);
}

#[test]
fn early_claim_pays_the_penalty_and_forfeits_the_accrual() {
    let (mine, tier_template) = setup();
    let mut tier = tier_template;
    let (mut stake, _) = initialize_staking(&mine, &mut tier, 7, 100, 1_000_000, 500).unwrap();
    // one second before the lock duration elapses
    let payout = claim_interest(&mine, &tier, &mut stake, 100, 499 + YEAR).unwrap();
    assert_eq!(payout.dev_fee, 990);
    assert_eq!(payout.penalty, 99_000 * 2_000 / 10_000);
    assert_eq!(payout.amount_out, 99_000 - 990 - 19_800);
    assert_eq!(stake.accrued_interest, 0);
    assert_eq!(stake.total_locked, 990_000);
    assert_eq!(stake.lock_ts, 499 + YEAR);
}

#[test]
fn compound_before_the_lock_duration_is_not_allowed() {
    let (mine, mut tier) = setup();
    let (mut stake, _) = initialize_staking(&mine, &mut tier, 7, 100, 1_000_000, 500).unwrap();
    assert_eq!(
        compound_interest(&mine, &mut tier, &mut stake, 100, 499 + YEAR),
        Err(MinerError::OperationNotAllowed)
    );
    assert_eq!(stake.accrued_interest, 99_000);
}

#[test]
fn compound_reclassifies_the_accrual_as_principal() {
    let (mine, mut tier) = setup();
    let (mut stake, _) = initialize_staking(&mine, &mut tier, 7, 100, 1_000_000, 500).unwrap();
    let compounded = compound_interest(&mine, &mut tier, &mut stake, 100, 500 + YEAR).unwrap();
    assert_eq!(compounded, 99_000);
    assert_eq!(stake.total_locked, 1_089_000);
    // a fresh full window on the grown principal: 10% of 1,089,000
    assert_eq!(stake.accrued_interest, 108_900);
    assert_eq!(stake.lock_ts, 500 + YEAR);
    assert_eq!(tier.total_locked, 1_089_000);
}

#[test]
fn increase_folds_the_elapsed_interest_and_restarts_the_window() {
    let (mine, mut tier) = setup();
    let (mut stake, _) = initialize_staking(&mine, &mut tier, 7, 100, 1_000_000, 500).unwrap();
    // half a year later, add another million
    let receipt =
        increase_stake(&mine, &mut tier, &mut stake, 100, 1_000_000, 500 + YEAR / 2).unwrap();
    assert_eq!(receipt.dev_fee, 10_000);
    assert_eq!(receipt.vault_deposit, 990_000);
    assert_eq!(stake.total_locked, 1_980_000);
    // half a year at the old principal plus a full window at the new one
    let half_year_interest = 49_500;
    let full_window_interest = 198_000;
    assert_eq!(
        stake.accrued_interest,
        half_year_interest + full_window_interest
    );
    assert_eq!(stake.lock_ts, 500 + YEAR / 2);
    assert_eq!(tier.total_locked, 1_980_000);
}

#[test]
fn increase_is_not_allowed_on_whitelisted_stakes() {
    let (mine, mut tier) = setup();
    let grant = whitelist_account(&tier, 7, 1_000).unwrap();
    let (mut stake, _) =
        initialize_whitelist(&mine, &mut tier, grant, 7, 1_000_000, 500).unwrap();
    assert!(stake.is_whitelist);
    assert_eq!(
        increase_stake(&mine, &mut tier, &mut stake, 100, 1_000_000, 600),
        Err(MinerError::OperationNotAllowed)
    );
}

#[test]
fn whitelist_grant_bypasses_the_eligibility_check() {
    let (mine, mut tier) = setup();
    let grant = whitelist_account(&tier, 7, 1_000).unwrap();
    assert_eq!(grant.beneficiary, 7);
    assert_eq!(grant.tier, tier.nonce);
    assert_eq!(grant.expiry, 1_000);
    // no eligibility holding is asked for; the last valid moment is one
    // second before the expiry
    let (stake, receipt) =
        initialize_whitelist(&mine, &mut tier, grant, 7, 1_000_000, 999).unwrap();
    assert!(stake.is_whitelist);
    assert_eq!(stake.total_locked, 990_000);
    assert_eq!(receipt.dev_fee, 10_000);
    assert_eq!(tier.total_locked, 990_000);
}

#[test]
fn expired_whitelist_grant_is_rejected() {
    let (mine, mut tier) = setup();
    let grant = whitelist_account(&tier, 7, 1_000).unwrap();
    // the grant dies exactly at its expiry timestamp
    assert_eq!(
        initialize_whitelist(&mine, &mut tier, grant, 7, 1_000_000, 1_000),
        Err(MinerError::ExpiredWhiteList)
    );
    assert_eq!(
        initialize_whitelist(&mine, &mut tier, grant, 7, 1_000_000, 1_001),
        Err(MinerError::ExpiredWhiteList)
    );
    assert_eq!(tier.total_locked, 0);
}

#[test]
fn whitelist_grant_for_someone_else_is_rejected() {
    let (mine, mut tier) = setup();
    let grant = whitelist_account(&tier, 7, 1_000).unwrap();
    assert_eq!(
        initialize_whitelist(&mine, &mut tier, grant, 8, 1_000_000, 500),
        Err(MinerError::InvalidArgument)
    );
}

#[test]
fn whitelist_grant_is_bound_to_its_tier() {
    let (mine, mut tier) = setup();
    let mut other_mine = mine;
    let mut other_tier = other_mine.add_tier(50, 1_000, YEAR).unwrap();
    let grant = whitelist_account(&tier, 7, 1_000).unwrap();
    assert_eq!(
        initialize_whitelist(&mine, &mut other_tier, grant, 7, 1_000_000, 500),
        Err(MinerError::InvalidTier)
    );
    // the grant still works on its own tier
    assert!(initialize_whitelist(&mine, &mut tier, grant, 7, 1_000_000, 500).is_ok());
}

#[test]
fn whitelist_grant_needs_an_active_tier() {
    let (_, mut tier) = setup();
    tier.update_tier(None, None, None, Some(false));
    assert_eq!(
        whitelist_account(&tier, 7, 1_000),
        Err(MinerError::InvalidTier)
    );
}

#[test]
fn whitelisted_stakes_leave_through_their_own_path() {
    let (mine, mut tier) = setup();
    let grant = whitelist_account(&tier, 7, 1_000).unwrap();
    let (stake, _) = initialize_whitelist(&mine, &mut tier, grant, 7, 1_000_000, 500).unwrap();
    // the ordinary path refuses a whitelisted stake
    assert_eq!(
        withdraw(&mine, &mut tier, stake, 100, 500 + YEAR),
        Err(MinerError::OperationNotAllowed)
    );
    let payout = whitelist_withdraw(&mine, &mut tier, stake, 500 + YEAR).unwrap();
    assert_eq!(payout.amount_out, 1_078_110);
    assert_eq!(tier.total_locked, 0);
    // and the whitelist path refuses an ordinary one
    let (ordinary, _) = initialize_staking(&mine, &mut tier, 8, 100, 1_000_000, 500).unwrap();
    assert_eq!(
        whitelist_withdraw(&mine, &mut tier, ordinary, 500),
        Err(MinerError::OperationNotAllowed)
    );
}

#[test]
fn withdraw_on_the_wrong_tier_is_rejected() {
    let (mut mine, mut tier) = setup();
    let mut other_tier = mine.add_tier(50, 1_000, YEAR).unwrap();
    let (stake, _) = initialize_staking(&mine, &mut tier, 7, 100, 1_000_000, 500).unwrap();
    assert_eq!(
        withdraw(&mine, &mut other_tier, stake, 100, 500 + YEAR),
        Err(MinerError::InvalidTier)
    );
}

#[test]
fn terminate_forfeits_the_interest_and_pays_the_principal_net_of_fee() {
    let (mine, mut tier) = setup();
    let (stake, _) = initialize_staking(&mine, &mut tier, 7, 100, 1_000_000, 500).unwrap();
    let payout = terminate_staking(&mine, &mut tier, stake).unwrap();
    // the fee is taken on the principal only; the 99,000 accrual is forfeited
    assert_eq!(payout.dev_fee, 9_900);
    assert_eq!(payout.amount_out, 980_100);
    assert_eq!(payout.penalty, 0);
    assert_eq!(tier.total_locked, 0);
}
