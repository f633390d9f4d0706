use tier_sol_miner::ledger::StakeLedger;
use tier_sol_miner::states::{initialize_mine, MineInfo, TierInfo};

const YEAR: u64 = 31_536_000;

fn setup() -> (MineInfo, TierInfo) {
    let (mut mine, _vault) = initialize_mine(1, 2, 3, 4, 100, 2_000, 500);
    let tier = mine.add_tier(50, 1_000, YEAR).unwrap();
    (mine, tier)
}

fn sum_of_stakes(ledger: &StakeLedger) -> u64 {
    let mut sum: u64 = 0;
    for stake in ledger.stakes.iter() {
        sum += stake.total_locked;
    }
    sum
}

#[test]
fn aggregate_matches_the_sum_after_any_sequence_of_operations() {
    let (mine, tier) = setup();
    let mut ledger = StakeLedger::new(tier);
    assert_eq!(ledger.tier.total_locked, 0);

    // three depositors open stakes
    ledger.open_stake(&mine, 7, 100, 1_000_000, 500).unwrap();
    ledger.open_stake(&mine, 8, 100, 2_000_000, 600).unwrap();
    ledger.open_stake(&mine, 9, 100, 500_000, 700).unwrap();
    assert_eq!(ledger.stakes.len(), 3);
    assert_eq!(ledger.tier.total_locked, sum_of_stakes(&ledger));
    assert_eq!(ledger.tier.total_locked, 990_000 + 1_980_000 + 495_000);

    // one grows their stake
    ledger.increase_stake(&mine, 1, 100, 1_000_000, 800).unwrap();
    assert_eq!(ledger.tier.total_locked, sum_of_stakes(&ledger));
    assert_eq!(ledger.stakes[1].total_locked, 2_970_000);

    // one leaves early, their record disappears
    ledger.withdraw_stake(&mine, 0, 100, 900).unwrap();
    assert_eq!(ledger.stakes.len(), 2);
    assert_eq!(ledger.tier.total_locked, sum_of_stakes(&ledger));
    assert_eq!(ledger.tier.total_locked, 2_970_000 + 495_000);

    // a failing operation leaves the ledger untouched
    assert!(ledger.open_stake(&mine, 10, 100, 0, 1_000).is_err());
    assert_eq!(ledger.stakes.len(), 2);
    assert_eq!(ledger.tier.total_locked, sum_of_stakes(&ledger));

    // the rest leave after the year
    ledger.withdraw_stake(&mine, 1, 100, 1_000 + YEAR).unwrap();
    ledger.withdraw_stake(&mine, 0, 100, 1_000 + YEAR).unwrap();
    assert_eq!(ledger.stakes.len(), 0);
    assert_eq!(ledger.tier.total_locked, 0);
}

#[test]
fn vault_balance_tracks_deposits_and_refuses_overdrafts() {
    let (_, vault) = initialize_mine(1, 2, 3, 4, 100, 2_000, 500);
    let mut vault = vault;
    assert_eq!(vault.balance, 0);
    vault.deposit(990_000).unwrap();
    assert_eq!(vault.balance, 990_000);
    vault.withdraw(500_000).unwrap();
    assert_eq!(vault.balance, 490_000);
    assert!(vault.withdraw(490_001).is_err());
    assert_eq!(vault.balance, 490_000);
    assert!(vault.deposit(u64::MAX).is_err());
    assert_eq!(vault.balance, 490_000);
}
