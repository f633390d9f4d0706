//! The stake lifecycle: the state transitions that create, mutate and close
//! stake records, referral balances and tier aggregates.
//!
//! Each operation is a pure computation from the records it reads to the
//! records it writes and the transfers to issue; the caller settles the
//! transfers against the vault and the collectors afterwards, so a failing
//! computation never leaves anything partially debited. Every operation's
//! whole behaviour — which inputs succeed, which error each rejected input
//! gets, and every field of the new records — is stated by a spec function
//! that the executable function is proved to return.
//!
//! The current time is handed in as `now` by the caller; elapsed time is
//! measured as `now - lock_ts`, clamped at zero should the clock read earlier
//! than the stake's own timestamp.

use vstd::prelude::*;

use crate::errors::MinerError;
use crate::math::{
    calculate_fee, calculate_interest, fee_result, interest_result, spec_fee, spec_interest,
    to_u128,
};
use crate::states::{AccountId, MineInfo, ReferralInfo, TierInfo, UserInfo, WhitelistInfo};

verus! {

/// `a - b`, saturating at zero: the deliberate policy for payout
/// subtractions, where rounding may push a fee past the remainder and a
/// spurious abort would be worse than paying out nothing.
pub open spec fn sat_sub(a: int, b: int) -> int {
    if a >= b {
        a - b
    } else {
        0
    }
}

/// What a deposit hands over besides the new stake: the fee already routed to
/// the fee collector and the net amount to move into the vault.
#[derive(Clone, Copy, Debug, PartialEq, Eq, Structural)]
pub struct StakeReceipt {
    /// The deposit fee, owed to the mine's fee collector.
    pub dev_fee: u64,
    /// The net-of-fee principal, owed to the vault.
    pub vault_deposit: u64,
}

/// The arithmetic shared by every deposit path, after the path's own gates
/// have passed: take the deposit fee, lock the remainder, accrue a full lock
/// window of interest up front, and grow the tier's aggregate. Any failing
/// step rejects the whole deposit and leaves the tier as it was.
pub open spec fn stake_entry_spec(
    mine: MineInfo,
    tier: TierInfo,
    owner: AccountId,
    deposit_amount: u64,
    now: u64,
    whitelisted: bool,
) -> Result<(TierInfo, UserInfo, StakeReceipt), MinerError> {
    match fee_result(deposit_amount as u128, mine.dev_fee as u128) {
        Err(e) => Err(e),
        Ok(dev_fee) => if deposit_amount < dev_fee {
            Err(MinerError::MathsError)
        } else {
            let principal = (deposit_amount - dev_fee) as u64;
            match interest_result(
                principal as u128,
                tier.apy as u128,
                tier.lock_duration as u128,
            ) {
                Err(e) => Err(e),
                Ok(accrued) => if tier.total_locked as int + principal as int > u64::MAX as int {
                    Err(MinerError::MathsError)
                } else {
                    Ok(
                        (
                            TierInfo {
                                total_locked: (tier.total_locked + principal) as u64,
                                ..tier
                            },
                            UserInfo {
                                owner,
                                total_locked: principal,
                                accrued_interest: accrued,
                                lock_ts: now,
                                tier: tier.nonce,
                                is_whitelist: whitelisted,
                            },
                            StakeReceipt { dev_fee, vault_deposit: principal },
                        ),
                    )
                },
            }
        },
    }
}

/// Opening an ordinary stake: the mine and the tier must be active, the
/// caller's eligibility holding must meet the tier's threshold, and the
/// deposit must be positive; then the deposit arithmetic of
/// `stake_entry_spec` runs.
pub open spec fn open_stake_spec(
    mine: MineInfo,
    tier: TierInfo,
    owner: AccountId,
    token_balance: u64,
    deposit_amount: u64,
    now: u64,
) -> Result<(TierInfo, UserInfo, StakeReceipt), MinerError> {
    if !mine.is_active {
        Err(MinerError::InactiveMine)
    } else if !tier.is_active {
        Err(MinerError::InvalidTier)
    } else if token_balance < tier.minimum_token_amount {
        Err(MinerError::InvalidTokenAccount)
    } else if deposit_amount == 0 {
        Err(MinerError::InvalidDepositAmount)
    } else {
        stake_entry_spec(mine, tier, owner, deposit_amount, now, false)
    }
}

/// The deposit arithmetic shared by every path that opens or grows a stake.
fn stake_entry(
    mine: &MineInfo,
    tier: &mut TierInfo,
    owner: AccountId,
    deposit_amount: u64,
    now: u64,
    whitelisted: bool,
) -> (r: Result<(UserInfo, StakeReceipt), MinerError>)
    ensures
        match stake_entry_spec(*mine, *old(tier), owner, deposit_amount, now, whitelisted) {
            Ok((t2, stake, receipt)) => r == Ok::<(UserInfo, StakeReceipt), MinerError>(
                (stake, receipt),
            ) && *final(tier) == t2,
            Err(e) => r == Err::<(UserInfo, StakeReceipt), MinerError>(e) && *final(tier) == *old(
                tier,
            ),
        },
{
    let deposit_wide = match to_u128(deposit_amount) {
        Ok(v) => v,
        Err(e) => {
            return Err(e);
        },
    };
    let rate_wide = match to_u128(mine.dev_fee) {
        Ok(v) => v,
        Err(e) => {
            return Err(e);
        },
    };
    let dev_fee = match calculate_fee(deposit_wide, rate_wide) {
        Ok(v) => v,
        Err(e) => {
            return Err(e);
        },
    };
    let principal = match deposit_amount.checked_sub(dev_fee) {
        Some(v) => v,
        None => {
            return Err(MinerError::MathsError);
        },
    };
    let principal_wide = match to_u128(principal) {
        Ok(v) => v,
        Err(e) => {
            return Err(e);
        },
    };
    let apy_wide = match to_u128(tier.apy) {
        Ok(v) => v,
        Err(e) => {
            return Err(e);
        },
    };
    let duration_wide = match to_u128(tier.lock_duration) {
        Ok(v) => v,
        Err(e) => {
            return Err(e);
        },
    };
    let accrued = match calculate_interest(principal_wide, apy_wide, duration_wide) {
        Ok(v) => v,
        Err(e) => {
            return Err(e);
        },
    };
    let new_total = match tier.total_locked.checked_add(principal) {
        Some(v) => v,
        None => {
            return Err(MinerError::MathsError);
        },
    };
    tier.total_locked = new_total;
    Ok(
        (
            UserInfo {
                owner,
                total_locked: principal,
                accrued_interest: accrued,
                lock_ts: now,
                tier: tier.nonce,
                is_whitelist: whitelisted,
            },
            StakeReceipt { dev_fee, vault_deposit: principal },
        ),
    )
}

/// Opens a fresh stake for `owner` into `tier`: checks the gates, takes the
/// deposit fee, locks the net principal, accrues a full lock window of
/// interest up front and grows the tier's aggregate. On success the new
/// stake, and a receipt naming the fee and the vault deposit to settle, are
/// returned; on any error the tier is unchanged.
///
/// `token_balance` is the caller's eligibility holding as the oracle reports
/// it, and `now` the current time in seconds.
pub fn initialize_staking(
    mine: &MineInfo,
    tier: &mut TierInfo,
    owner: AccountId,
    token_balance: u64,
    deposit_amount: u64,
    now: u64,
) -> (r: Result<(UserInfo, StakeReceipt), MinerError>)
    ensures
        match open_stake_spec(*mine, *old(tier), owner, token_balance, deposit_amount, now) {
            Ok((t2, stake, receipt)) => r == Ok::<(UserInfo, StakeReceipt), MinerError>(
                (stake, receipt),
            ) && *final(tier) == t2,
            Err(e) => r == Err::<(UserInfo, StakeReceipt), MinerError>(e) && *final(tier) == *old(
                tier,
            ),
        },
{
    if !mine.is_active {
        return Err(MinerError::InactiveMine);
    }
    if !tier.is_active {
        return Err(MinerError::InvalidTier);
    }
    if token_balance < tier.minimum_token_amount {
        return Err(MinerError::InvalidTokenAccount);
    }
    if deposit_amount == 0 {
        return Err(MinerError::InvalidDepositAmount);
    }
    stake_entry(mine, tier, owner, deposit_amount, now, false)
}

/// Crediting a referrer for a referred principal: the bonus is the
/// basis-point share `mine.referral_reward` of the net principal. A first
/// referral creates the ledger entry; a later one accumulates earnings and
/// the lifetime counter, rejecting the whole deposit should either overflow.
pub open spec fn credit_referral_spec(
    mine: MineInfo,
    referral: Option<ReferralInfo>,
    referrer_owner: AccountId,
    principal: u64,
) -> Result<ReferralInfo, MinerError> {
    match fee_result(principal as u128, mine.referral_reward as u128) {
        Err(e) => Err(e),
        Ok(bonus) => match referral {
            None => Ok(ReferralInfo { owner: referrer_owner, earnings: bonus, count: 1 }),
            Some(prior) => if prior.earnings as int + bonus as int > u64::MAX as int {
                Err(MinerError::MathsError)
            } else if prior.count as int + 1 > u64::MAX as int {
                Err(MinerError::MathsError)
            } else {
                Ok(
                    ReferralInfo {
                        owner: prior.owner,
                        earnings: (prior.earnings + bonus) as u64,
                        count: (prior.count + 1) as u64,
                    },
                )
            },
        },
    }
}

/// Credits the referral bonus for a referred net principal, creating the
/// referrer's ledger entry when there is none yet.
fn credit_referral(
    mine: &MineInfo,
    referral: Option<ReferralInfo>,
    referrer_owner: AccountId,
    principal: u64,
) -> (r: Result<ReferralInfo, MinerError>)
    ensures
        r == credit_referral_spec(*mine, referral, referrer_owner, principal),
{
    let principal_wide = match to_u128(principal) {
        Ok(v) => v,
        Err(e) => {
            return Err(e);
        },
    };
    let rate_wide = match to_u128(mine.referral_reward) {
        Ok(v) => v,
        Err(e) => {
            return Err(e);
        },
    };
    let bonus = match calculate_fee(principal_wide, rate_wide) {
        Ok(v) => v,
        Err(e) => {
            return Err(e);
        },
    };
    match referral {
        None => Ok(ReferralInfo { owner: referrer_owner, earnings: bonus, count: 1 }),
        Some(prior) => {
            let earnings = match prior.earnings.checked_add(bonus) {
                Some(v) => v,
                None => {
                    return Err(MinerError::MathsError);
                },
            };
            let count = match prior.count.checked_add(1) {
                Some(v) => v,
                None => {
                    return Err(MinerError::MathsError);
                },
            };
            Ok(ReferralInfo { owner: prior.owner, earnings, count })
        },
    }
}

/// Opening a stake with a referrer: a stake may not refer to itself; the open
/// gates and arithmetic then run, and the referral bonus on the net principal
/// is credited. A failure anywhere, the bonus included, rejects the whole
/// deposit.
pub open spec fn open_stake_with_referrer_spec(
    mine: MineInfo,
    tier: TierInfo,
    owner: AccountId,
    token_balance: u64,
    deposit_amount: u64,
    now: u64,
    referrer_owner: AccountId,
    referral: Option<ReferralInfo>,
) -> Result<(TierInfo, UserInfo, ReferralInfo, StakeReceipt), MinerError> {
    if owner == referrer_owner {
        Err(MinerError::InvalidReferrer)
    } else {
        match open_stake_spec(mine, tier, owner, token_balance, deposit_amount, now) {
            Err(e) => Err(e),
            Ok((t2, stake, receipt)) => match credit_referral_spec(
                mine,
                referral,
                referrer_owner,
                stake.total_locked,
            ) {
                Err(e) => Err(e),
                Ok(credited) => Ok((t2, stake, credited, receipt)),
            },
        }
    }
}

/// Opens a fresh stake as `initialize_staking` does and credits the referral
/// bonus — `mine.referral_reward` basis points of the net principal — to the
/// referrer's ledger entry, creating it when absent. `referrer_owner` is the
/// owner of the referring stake and must differ from `owner`. On any error
/// the tier is unchanged and no entry is created or grown.
pub fn initialize_staking_with_referrer(
    mine: &MineInfo,
    tier: &mut TierInfo,
    owner: AccountId,
    token_balance: u64,
    deposit_amount: u64,
    now: u64,
    referrer_owner: AccountId,
    referral: Option<ReferralInfo>,
) -> (r: Result<(UserInfo, ReferralInfo, StakeReceipt), MinerError>)
    ensures
        match open_stake_with_referrer_spec(
            *mine,
            *old(tier),
            owner,
            token_balance,
            deposit_amount,
            now,
            referrer_owner,
            referral,
        ) {
            Ok((t2, stake, credited, receipt)) => r == Ok::<
                (UserInfo, ReferralInfo, StakeReceipt),
                MinerError,
            >((stake, credited, receipt)) && *final(tier) == t2,
            Err(e) => r == Err::<(UserInfo, ReferralInfo, StakeReceipt), MinerError>(e)
                && *final(tier) == *old(tier),
        },
{
    if owner == referrer_owner {
        return Err(MinerError::InvalidReferrer);
    }
    let mut staged = *tier;
    let (stake, receipt) = match initialize_staking(
        mine,
        &mut staged,
        owner,
        token_balance,
        deposit_amount,
        now,
    ) {
        Ok(v) => v,
        Err(e) => {
            return Err(e);
        },
    };
    let credited = match credit_referral(mine, referral, referrer_owner, stake.total_locked) {
        Ok(v) => v,
        Err(e) => {
            return Err(e);
        },
    };
    *tier = staged;
    Ok((stake, credited, receipt))
}

/// Consuming a whitelist grant: the mine must be active, the grant must be
/// made out to the caller and match an active tier, the deposit must be
/// positive and `now` strictly before the grant's expiry — a consume at or
/// past the expiry timestamp fails with `ExpiredWhiteList`; the deposit
/// arithmetic then runs with the whitelist flag set. The grant is destroyed
/// by the caller on success.
pub open spec fn consume_whitelist_spec(
    mine: MineInfo,
    tier: TierInfo,
    grant: WhitelistInfo,
    owner: AccountId,
    deposit_amount: u64,
    now: u64,
) -> Result<(TierInfo, UserInfo, StakeReceipt), MinerError> {
    if !mine.is_active {
        Err(MinerError::InactiveMine)
    } else if grant.beneficiary != owner {
        Err(MinerError::InvalidArgument)
    } else if !tier.is_active || grant.tier != tier.nonce {
        Err(MinerError::InvalidTier)
    } else if deposit_amount == 0 {
        Err(MinerError::InvalidDepositAmount)
    } else if now >= grant.expiry {
        Err(MinerError::ExpiredWhiteList)
    } else {
        stake_entry_spec(mine, tier, owner, deposit_amount, now, true)
    }
}

/// Consumes a whitelist grant and opens the beneficiary's stake into the
/// grant's tier, bypassing the eligibility-holding check and marking the
/// stake whitelisted. The grant is taken by value: on success it is spent and
/// its record is to be closed; on any error the tier is unchanged and the
/// grant stands.
pub fn initialize_whitelist(
    mine: &MineInfo,
    tier: &mut TierInfo,
    grant: WhitelistInfo,
    owner: AccountId,
    deposit_amount: u64,
    now: u64,
) -> (r: Result<(UserInfo, StakeReceipt), MinerError>)
    ensures
        match consume_whitelist_spec(*mine, *old(tier), grant, owner, deposit_amount, now) {
            Ok((t2, stake, receipt)) => r == Ok::<(UserInfo, StakeReceipt), MinerError>(
                (stake, receipt),
            ) && *final(tier) == t2,
            Err(e) => r == Err::<(UserInfo, StakeReceipt), MinerError>(e) && *final(tier) == *old(
                tier,
            ),
        },
{
    if !mine.is_active {
        return Err(MinerError::InactiveMine);
    }
    if grant.beneficiary != owner {
        return Err(MinerError::InvalidArgument);
    }
    if !tier.is_active || grant.tier != tier.nonce {
        return Err(MinerError::InvalidTier);
    }
    if deposit_amount == 0 {
        return Err(MinerError::InvalidDepositAmount);
    }
    if now >= grant.expiry {
        return Err(MinerError::ExpiredWhiteList);
    }
    stake_entry(mine, tier, owner, deposit_amount, now, true)
}

/// Growing an ordinary stake: whitelisted stakes may not grow; the mine must
/// be active, the tier must be the stake's own and active, and the caller
/// must still meet the eligibility threshold. The interest owed over the
/// window elapsed so far is computed at the old principal and folded into the
/// accrued balance together with a fresh full-window accrual at the new
/// principal; the accrual window then restarts at `now`.
pub open spec fn increase_stake_spec(
    mine: MineInfo,
    tier: TierInfo,
    user: UserInfo,
    token_balance: u64,
    amount: u64,
    now: u64,
) -> Result<(TierInfo, UserInfo, StakeReceipt), MinerError> {
    if user.is_whitelist {
        Err(MinerError::OperationNotAllowed)
    } else if !mine.is_active {
        Err(MinerError::InactiveMine)
    } else if user.tier != tier.nonce || !tier.is_active {
        Err(MinerError::InvalidTier)
    } else if token_balance < tier.minimum_token_amount {
        Err(MinerError::InvalidTokenAccount)
    } else if amount == 0 {
        Err(MinerError::InvalidDepositAmount)
    } else {
        match fee_result(amount as u128, mine.dev_fee as u128) {
            Err(e) => Err(e),
            Ok(dev_fee) => if amount < dev_fee {
                Err(MinerError::MathsError)
            } else {
                let net = (amount - dev_fee) as u64;
                let elapsed = sat_sub(now as int, user.lock_ts as int) as u64;
                match interest_result(user.total_locked as u128, tier.apy as u128, elapsed as u128) {
                    Err(e) => Err(e),
                    Ok(current_interest) => if user.total_locked as int + net as int
                        > u64::MAX as int {
                        Err(MinerError::MathsError)
                    } else {
                        let new_total = (user.total_locked + net) as u64;
                        match interest_result(
                            new_total as u128,
                            tier.apy as u128,
                            tier.lock_duration as u128,
                        ) {
                            Err(e) => Err(e),
                            Ok(new_interest) => if current_interest as int + new_interest as int
                                > u64::MAX as int {
                                Err(MinerError::MathsError)
                            } else if tier.total_locked as int + net as int > u64::MAX as int {
                                Err(MinerError::MathsError)
                            } else {
                                Ok(
                                    (
                                        TierInfo {
                                            total_locked: (tier.total_locked + net) as u64,
                                            ..tier
                                        },
                                        UserInfo {
                                            total_locked: new_total,
                                            accrued_interest: (current_interest
                                                + new_interest) as u64,
                                            lock_ts: now,
                                            ..user
                                        },
                                        StakeReceipt { dev_fee, vault_deposit: net },
                                    ),
                                )
                            },
                        }
                    },
                }
            },
        }
    }
}

/// Grows an ordinary stake by a further deposit: takes the deposit fee, folds
/// the interest owed so far into the accrued balance, adds a fresh
/// full-window accrual at the new principal, restarts the accrual window and
/// grows the tier's aggregate by the net amount. On any error both records
/// are unchanged.
pub fn increase_stake(
    mine: &MineInfo,
    tier: &mut TierInfo,
    user: &mut UserInfo,
    token_balance: u64,
    amount: u64,
    now: u64,
) -> (r: Result<StakeReceipt, MinerError>)
    ensures
        match increase_stake_spec(*mine, *old(tier), *old(user), token_balance, amount, now) {
            Ok((t2, u2, receipt)) => r == Ok::<StakeReceipt, MinerError>(receipt) && *final(tier)
                == t2 && *final(user) == u2,
            Err(e) => r == Err::<StakeReceipt, MinerError>(e) && *final(tier) == *old(tier)
                && *final(user) == *old(user),
        },
{
    if user.is_whitelist {
        return Err(MinerError::OperationNotAllowed);
    }
    if !mine.is_active {
        return Err(MinerError::InactiveMine);
    }
    if user.tier != tier.nonce || !tier.is_active {
        return Err(MinerError::InvalidTier);
    }
    if token_balance < tier.minimum_token_amount {
        return Err(MinerError::InvalidTokenAccount);
    }
    if amount == 0 {
        return Err(MinerError::InvalidDepositAmount);
    }
    let amount_wide = match to_u128(amount) {
        Ok(v) => v,
        Err(e) => {
            return Err(e);
        },
    };
    let rate_wide = match to_u128(mine.dev_fee) {
        Ok(v) => v,
        Err(e) => {
            return Err(e);
        },
    };
    let dev_fee = match calculate_fee(amount_wide, rate_wide) {
        Ok(v) => v,
        Err(e) => {
            return Err(e);
        },
    };
    let net = match amount.checked_sub(dev_fee) {
        Some(v) => v,
        None => {
            return Err(MinerError::MathsError);
        },
    };
    let elapsed = now.saturating_sub(user.lock_ts);
    let apy_wide = match to_u128(tier.apy) {
        Ok(v) => v,
        Err(e) => {
            return Err(e);
        },
    };
    let old_total_wide = match to_u128(user.total_locked) {
        Ok(v) => v,
        Err(e) => {
            return Err(e);
        },
    };
    let elapsed_wide = match to_u128(elapsed) {
        Ok(v) => v,
        Err(e) => {
            return Err(e);
        },
    };
    let current_interest = match calculate_interest(old_total_wide, apy_wide, elapsed_wide) {
        Ok(v) => v,
        Err(e) => {
            return Err(e);
        },
    };
    let new_total = match user.total_locked.checked_add(net) {
        Some(v) => v,
        None => {
            return Err(MinerError::MathsError);
        },
    };
    let new_total_wide = match to_u128(new_total) {
        Ok(v) => v,
        Err(e) => {
            return Err(e);
        },
    };
    let duration_wide = match to_u128(tier.lock_duration) {
        Ok(v) => v,
        Err(e) => {
            return Err(e);
        },
    };
    let new_interest = match calculate_interest(new_total_wide, apy_wide, duration_wide) {
        Ok(v) => v,
        Err(e) => {
            return Err(e);
        },
    };
    let accrued = match current_interest.checked_add(new_interest) {
        Some(v) => v,
        None => {
            return Err(MinerError::MathsError);
        },
    };
    let tier_total = match tier.total_locked.checked_add(net) {
        Some(v) => v,
        None => {
            return Err(MinerError::MathsError);
        },
    };
    user.total_locked = new_total;
    user.accrued_interest = accrued;
    user.lock_ts = now;
    tier.total_locked = tier_total;
    Ok(StakeReceipt { dev_fee, vault_deposit: net })
}

/// Compounding a stake: allowed only for ordinary stakes on their own active
/// tier, under an active mine, with the eligibility threshold still met, and
/// only once the full lock duration has elapsed. The accrued interest is
/// reclassified as principal — nothing leaves the vault — a fresh full lock
/// window of interest is accrued on the grown principal, and the tier's
/// aggregate grows by the compounded amount.
pub open spec fn compound_spec(
    mine: MineInfo,
    tier: TierInfo,
    user: UserInfo,
    token_balance: u64,
    now: u64,
) -> Result<(TierInfo, UserInfo, u64), MinerError> {
    if user.is_whitelist {
        Err(MinerError::OperationNotAllowed)
    } else if !mine.is_active {
        Err(MinerError::InactiveMine)
    } else if user.tier != tier.nonce || !tier.is_active {
        Err(MinerError::InvalidTier)
    } else if token_balance < tier.minimum_token_amount {
        Err(MinerError::InvalidTokenAccount)
    } else if sat_sub(now as int, user.lock_ts as int) < tier.lock_duration as int {
        Err(MinerError::OperationNotAllowed)
    } else {
        let compounded = user.accrued_interest;
        if user.total_locked as int + compounded as int > u64::MAX as int {
            Err(MinerError::MathsError)
        } else {
            let new_total = (user.total_locked + compounded) as u64;
            match interest_result(new_total as u128, tier.apy as u128, tier.lock_duration as u128) {
                Err(e) => Err(e),
                Ok(new_interest) => if tier.total_locked as int + compounded as int
                    > u64::MAX as int {
                    Err(MinerError::MathsError)
                } else {
                    Ok(
                        (
                            TierInfo {
                                total_locked: (tier.total_locked + compounded) as u64,
                                ..tier
                            },
                            UserInfo {
                                total_locked: new_total,
                                accrued_interest: new_interest,
                                lock_ts: now,
                                ..user
                            },
                            compounded,
                        ),
                    )
                },
            }
        }
    }
}

/// Moves the stake's accrued interest into its principal once the lock
/// duration has elapsed, accrues a fresh full window on the grown principal
/// and restarts the window. Returns the compounded amount; on any error both
/// records are unchanged. Fails with `OperationNotAllowed` before the lock
/// duration has elapsed.
pub fn compound_interest(
    mine: &MineInfo,
    tier: &mut TierInfo,
    user: &mut UserInfo,
    token_balance: u64,
    now: u64,
) -> (r: Result<u64, MinerError>)
    ensures
        match compound_spec(*mine, *old(tier), *old(user), token_balance, now) {
            Ok((t2, u2, compounded)) => r == Ok::<u64, MinerError>(compounded) && *final(tier)
                == t2 && *final(user) == u2,
            Err(e) => r == Err::<u64, MinerError>(e) && *final(tier) == *old(tier) && *final(user)
                == *old(user),
        },
{
    if user.is_whitelist {
        return Err(MinerError::OperationNotAllowed);
    }
    if !mine.is_active {
        return Err(MinerError::InactiveMine);
    }
    if user.tier != tier.nonce || !tier.is_active {
        return Err(MinerError::InvalidTier);
    }
    if token_balance < tier.minimum_token_amount {
        return Err(MinerError::InvalidTokenAccount);
    }
    if now.saturating_sub(user.lock_ts) < tier.lock_duration {
        return Err(MinerError::OperationNotAllowed);
    }
    let compounded = user.accrued_interest;
    let new_total = match user.total_locked.checked_add(compounded) {
        Some(v) => v,
        None => {
            return Err(MinerError::MathsError);
        },
    };
    let new_total_wide = match to_u128(new_total) {
        Ok(v) => v,
        Err(e) => {
            return Err(e);
        },
    };
    let apy_wide = match to_u128(tier.apy) {
        Ok(v) => v,
        Err(e) => {
            return Err(e);
        },
    };
    let duration_wide = match to_u128(tier.lock_duration) {
        Ok(v) => v,
        Err(e) => {
            return Err(e);
        },
    };
    let new_interest = match calculate_interest(new_total_wide, apy_wide, duration_wide) {
        Ok(v) => v,
        Err(e) => {
            return Err(e);
        },
    };
    let tier_total = match tier.total_locked.checked_add(compounded) {
        Some(v) => v,
        None => {
            return Err(MinerError::MathsError);
        },
    };
    user.total_locked = new_total;
    user.accrued_interest = new_interest;
    user.lock_ts = now;
    tier.total_locked = tier_total;
    Ok(compounded)
}

/// The transfers one payout-bearing operation owes: the net amount to the
/// receiver, the fee to the fee collector, and the penalty — zero on
/// penalty-free paths — to the penalty collector. All three are debited from
/// the vault by the caller.
#[derive(Clone, Copy, Debug, PartialEq, Eq, Structural)]
pub struct Payout {
    /// What the receiver is owed, net of fee and penalty.
    pub amount_out: u64,
    /// The fee, owed to the mine's fee collector.
    pub dev_fee: u64,
    /// The early-exit penalty, owed to the penalty collector; zero when the
    /// lock duration had elapsed or the path knows no penalty.
    pub penalty: u64,
}

/// Claiming accrued interest: allowed for ordinary stakes on their own active
/// tier, under an active mine, with the eligibility threshold still met. The
/// fee is taken on the accrued interest. At or past the lock duration the
/// whole balance is paid net of fee and a fresh full window is accrued on the
/// unchanged principal; before it, an early-withdrawal penalty on the balance
/// is taken as well and the entire accrual is forfeited — the stake continues
/// with no interest. Either way the accrual window restarts at `now`.
pub open spec fn claim_interest_spec(
    mine: MineInfo,
    tier: TierInfo,
    user: UserInfo,
    token_balance: u64,
    now: u64,
) -> Result<(UserInfo, Payout), MinerError> {
    if user.is_whitelist {
        Err(MinerError::OperationNotAllowed)
    } else if !mine.is_active {
        Err(MinerError::InactiveMine)
    } else if user.tier != tier.nonce || !tier.is_active {
        Err(MinerError::InvalidTier)
    } else if token_balance < tier.minimum_token_amount {
        Err(MinerError::InvalidTokenAccount)
    } else {
        let current_interest = user.accrued_interest;
        match fee_result(current_interest as u128, mine.dev_fee as u128) {
            Err(e) => Err(e),
            Ok(dev_fee) => if sat_sub(now as int, user.lock_ts as int)
                >= tier.lock_duration as int {
                match interest_result(
                    user.total_locked as u128,
                    tier.apy as u128,
                    tier.lock_duration as u128,
                ) {
                    Err(e) => Err(e),
                    Ok(new_interest) => Ok(
                        (
                            UserInfo { accrued_interest: new_interest, lock_ts: now, ..user },
                            Payout {
                                amount_out: sat_sub(
                                    current_interest as int,
                                    dev_fee as int,
                                ) as u64,
                                dev_fee,
                                penalty: 0,
                            },
                        ),
                    ),
                }
            } else {
                match fee_result(current_interest as u128, mine.early_withdrawal_fee as u128) {
                    Err(e) => Err(e),
                    Ok(penalty) => Ok(
                        (
                            UserInfo { accrued_interest: 0, lock_ts: now, ..user },
                            Payout {
                                amount_out: sat_sub(
                                    sat_sub(current_interest as int, dev_fee as int),
                                    penalty as int,
                                ) as u64,
                                dev_fee,
                                penalty,
                            },
                        ),
                    ),
                }
            },
        }
    }
}

/// Pays out the stake's accrued interest net of the fee — and net of the
/// early-withdrawal penalty when claimed before the lock duration, in which
/// case the whole accrual is forfeited — and restarts the accrual window.
/// The boundary is inclusive: a claim exactly at the lock duration is
/// penalty-free. The tier is read, never changed; on any error the stake is
/// unchanged.
pub fn claim_interest(
    mine: &MineInfo,
    tier: &TierInfo,
    user: &mut UserInfo,
    token_balance: u64,
    now: u64,
) -> (r: Result<Payout, MinerError>)
    ensures
        match claim_interest_spec(*mine, *tier, *old(user), token_balance, now) {
            Ok((u2, payout)) => r == Ok::<Payout, MinerError>(payout) && *final(user) == u2,
            Err(e) => r == Err::<Payout, MinerError>(e) && *final(user) == *old(user),
        },
{
    if user.is_whitelist {
        return Err(MinerError::OperationNotAllowed);
    }
    if !mine.is_active {
        return Err(MinerError::InactiveMine);
    }
    if user.tier != tier.nonce || !tier.is_active {
        return Err(MinerError::InvalidTier);
    }
    if token_balance < tier.minimum_token_amount {
        return Err(MinerError::InvalidTokenAccount);
    }
    let current_interest = user.accrued_interest;
    let interest_wide = match to_u128(current_interest) {
        Ok(v) => v,
        Err(e) => {
            return Err(e);
        },
    };
    let rate_wide = match to_u128(mine.dev_fee) {
        Ok(v) => v,
        Err(e) => {
            return Err(e);
        },
    };
    let dev_fee = match calculate_fee(interest_wide, rate_wide) {
        Ok(v) => v,
        Err(e) => {
            return Err(e);
        },
    };
    if now.saturating_sub(user.lock_ts) >= tier.lock_duration {
        let total_wide = match to_u128(user.total_locked) {
            Ok(v) => v,
            Err(e) => {
                return Err(e);
            },
        };
        let apy_wide = match to_u128(tier.apy) {
            Ok(v) => v,
            Err(e) => {
                return Err(e);
            },
        };
        let duration_wide = match to_u128(tier.lock_duration) {
            Ok(v) => v,
            Err(e) => {
                return Err(e);
            },
        };
        let new_interest = match calculate_interest(total_wide, apy_wide, duration_wide) {
            Ok(v) => v,
            Err(e) => {
                return Err(e);
            },
        };
        user.accrued_interest = new_interest;
        user.lock_ts = now;
        Ok(Payout { amount_out: current_interest.saturating_sub(dev_fee), dev_fee, penalty: 0 })
    } else {
        let penalty_rate_wide = match to_u128(mine.early_withdrawal_fee) {
            Ok(v) => v,
            Err(e) => {
                return Err(e);
            },
        };
        let penalty = match calculate_fee(interest_wide, penalty_rate_wide) {
            Ok(v) => v,
            Err(e) => {
                return Err(e);
            },
        };
        user.accrued_interest = 0;
        user.lock_ts = now;
        Ok(
            Payout {
                amount_out: current_interest.saturating_sub(dev_fee).saturating_sub(penalty),
                dev_fee,
                penalty,
            },
        )
    }
}

/// Inclusive boundary: a claim at exactly the lock duration — elapsed time
/// equal to `tier.lock_duration`, nothing more — takes the non-penalty
/// branch. Whenever such a claim succeeds, no penalty is owed, the caller
/// receives the whole accrued balance net of the fee alone, and the stake
/// continues with its principal unchanged and a fresh full window accrued.
pub proof fn lemma_claim_at_boundary_is_penalty_free(
    mine: MineInfo,
    tier: TierInfo,
    user: UserInfo,
    token_balance: u64,
    now: u64,
)
    requires
        sat_sub(now as int, user.lock_ts as int) == tier.lock_duration as int,
    ensures
        claim_interest_spec(mine, tier, user, token_balance, now) matches Ok((u2, payout)) ==> {
            &&& payout.penalty == 0
            &&& payout.dev_fee == spec_fee(user.accrued_interest as int, mine.dev_fee as int)
            &&& payout.amount_out == sat_sub(
                user.accrued_interest as int,
                payout.dev_fee as int,
            )
            &&& u2.total_locked == user.total_locked
            &&& u2.accrued_interest == spec_interest(
                user.total_locked as int,
                tier.apy as int,
                tier.lock_duration as int,
            )
            &&& u2.lock_ts == now
        },
{
}

/// The closing arithmetic shared by both withdrawal paths, after the path's
/// own gates have passed: everything the stake is owed — principal plus
/// accrued interest — is paid out net of the fee, and net of the
/// early-withdrawal penalty when the lock duration has not elapsed (the
/// boundary is inclusive). The tier's aggregate drops by the stake's
/// principal, saturating at zero; under the ledger invariant the aggregate
/// always covers the principal, so nothing is lost.
pub open spec fn withdraw_spec(mine: MineInfo, tier: TierInfo, user: UserInfo, now: u64) -> Result<
    (TierInfo, Payout),
    MinerError,
> {
    if user.total_locked as int + user.accrued_interest as int > u64::MAX as int {
        Err(MinerError::MathsError)
    } else {
        let total_withdrawal = (user.total_locked + user.accrued_interest) as u64;
        match fee_result(total_withdrawal as u128, mine.dev_fee as u128) {
            Err(e) => Err(e),
            Ok(dev_fee) => {
                let closed_tier = TierInfo {
                    total_locked: sat_sub(
                        tier.total_locked as int,
                        user.total_locked as int,
                    ) as u64,
                    ..tier
                };
                if sat_sub(now as int, user.lock_ts as int) >= tier.lock_duration as int {
                    Ok(
                        (
                            closed_tier,
                            Payout {
                                amount_out: sat_sub(
                                    total_withdrawal as int,
                                    dev_fee as int,
                                ) as u64,
                                dev_fee,
                                penalty: 0,
                            },
                        ),
                    )
                } else {
                    match fee_result(
                        total_withdrawal as u128,
                        mine.early_withdrawal_fee as u128,
                    ) {
                        Err(e) => Err(e),
                        Ok(penalty) => Ok(
                            (
                                closed_tier,
                                Payout {
                                    amount_out: sat_sub(
                                        sat_sub(total_withdrawal as int, dev_fee as int),
                                        penalty as int,
                                    ) as u64,
                                    dev_fee,
                                    penalty,
                                },
                            ),
                        ),
                    }
                }
            },
        }
    }
}

/// Closing an ordinary stake: whitelisted stakes leave through their own
/// path; the mine must be active and the tier must be the stake's own —
/// though not necessarily still active — and the eligibility threshold must
/// still be met. The closing arithmetic of `withdraw_spec` then runs.
pub open spec fn withdraw_stake_spec(
    mine: MineInfo,
    tier: TierInfo,
    user: UserInfo,
    token_balance: u64,
    now: u64,
) -> Result<(TierInfo, Payout), MinerError> {
    if user.is_whitelist {
        Err(MinerError::OperationNotAllowed)
    } else if !mine.is_active {
        Err(MinerError::InactiveMine)
    } else if user.tier != tier.nonce {
        Err(MinerError::InvalidTier)
    } else if token_balance < tier.minimum_token_amount {
        Err(MinerError::InvalidTokenAccount)
    } else {
        withdraw_spec(mine, tier, user, now)
    }
}

/// Closing a whitelisted stake: the same arithmetic, but only whitelisted
/// stakes qualify and no eligibility holding is asked for.
pub open spec fn whitelist_withdraw_spec(
    mine: MineInfo,
    tier: TierInfo,
    user: UserInfo,
    now: u64,
) -> Result<(TierInfo, Payout), MinerError> {
    if !user.is_whitelist {
        Err(MinerError::OperationNotAllowed)
    } else if !mine.is_active {
        Err(MinerError::InactiveMine)
    } else if user.tier != tier.nonce {
        Err(MinerError::InvalidTier)
    } else {
        withdraw_spec(mine, tier, user, now)
    }
}

/// The closing arithmetic shared by both withdrawal paths.
fn close_stake(mine: &MineInfo, tier: &mut TierInfo, user: UserInfo, now: u64) -> (r: Result<
    Payout,
    MinerError,
>)
    ensures
        match withdraw_spec(*mine, *old(tier), user, now) {
            Ok((t2, payout)) => r == Ok::<Payout, MinerError>(payout) && *final(tier) == t2,
            Err(e) => r == Err::<Payout, MinerError>(e) && *final(tier) == *old(tier),
        },
{
    let total_withdrawal = match user.total_locked.checked_add(user.accrued_interest) {
        Some(v) => v,
        None => {
            return Err(MinerError::MathsError);
        },
    };
    let total_wide = match to_u128(total_withdrawal) {
        Ok(v) => v,
        Err(e) => {
            return Err(e);
        },
    };
    let rate_wide = match to_u128(mine.dev_fee) {
        Ok(v) => v,
        Err(e) => {
            return Err(e);
        },
    };
    let dev_fee = match calculate_fee(total_wide, rate_wide) {
        Ok(v) => v,
        Err(e) => {
            return Err(e);
        },
    };
    let payout = if now.saturating_sub(user.lock_ts) >= tier.lock_duration {
        Payout { amount_out: total_withdrawal.saturating_sub(dev_fee), dev_fee, penalty: 0 }
    } else {
        let penalty_rate_wide = match to_u128(mine.early_withdrawal_fee) {
            Ok(v) => v,
            Err(e) => {
                return Err(e);
            },
        };
        let penalty = match calculate_fee(total_wide, penalty_rate_wide) {
            Ok(v) => v,
            Err(e) => {
                return Err(e);
            },
        };
        Payout {
            amount_out: total_withdrawal.saturating_sub(dev_fee).saturating_sub(penalty),
            dev_fee,
            penalty,
        }
    };
    tier.total_locked = tier.total_locked.saturating_sub(user.total_locked);
    Ok(payout)
}

/// Closes an ordinary stake, paying out principal plus accrued interest net
/// of the fee — and net of the early-withdrawal penalty when the lock
/// duration has not elapsed. The stake is taken by value: on success it is
/// spent and its record, with any referral entry keyed to it, is to be
/// closed; on any error the tier is unchanged and the stake stands.
pub fn withdraw(
    mine: &MineInfo,
    tier: &mut TierInfo,
    user: UserInfo,
    token_balance: u64,
    now: u64,
) -> (r: Result<Payout, MinerError>)
    ensures
        match withdraw_stake_spec(*mine, *old(tier), user, token_balance, now) {
            Ok((t2, payout)) => r == Ok::<Payout, MinerError>(payout) && *final(tier) == t2,
            Err(e) => r == Err::<Payout, MinerError>(e) && *final(tier) == *old(tier),
        },
{
    if user.is_whitelist {
        return Err(MinerError::OperationNotAllowed);
    }
    if !mine.is_active {
        return Err(MinerError::InactiveMine);
    }
    if user.tier != tier.nonce {
        return Err(MinerError::InvalidTier);
    }
    if token_balance < tier.minimum_token_amount {
        return Err(MinerError::InvalidTokenAccount);
    }
    close_stake(mine, tier, user, now)
}

/// Closes a whitelisted stake: the same arithmetic as `withdraw`, with no
/// eligibility check.
pub fn whitelist_withdraw(mine: &MineInfo, tier: &mut TierInfo, user: UserInfo, now: u64) -> (r:
    Result<Payout, MinerError>)
    ensures
        match whitelist_withdraw_spec(*mine, *old(tier), user, now) {
            Ok((t2, payout)) => r == Ok::<Payout, MinerError>(payout) && *final(tier) == t2,
            Err(e) => r == Err::<Payout, MinerError>(e) && *final(tier) == *old(tier),
        },
{
    if !user.is_whitelist {
        return Err(MinerError::OperationNotAllowed);
    }
    if !mine.is_active {
        return Err(MinerError::InactiveMine);
    }
    if user.tier != tier.nonce {
        return Err(MinerError::InvalidTier);
    }
    close_stake(mine, tier, user, now)
}

/// Administrative termination: the fee is computed on the principal only —
/// accrued interest is forfeited — and the remainder is owed to the stake's
/// owner. Lock duration and penalties do not apply; the mine need not be
/// active. Only ordinary stakes can be terminated.
pub open spec fn terminate_spec(mine: MineInfo, tier: TierInfo, user: UserInfo) -> Result<
    (TierInfo, Payout),
    MinerError,
> {
    if user.is_whitelist {
        Err(MinerError::OperationNotAllowed)
    } else if user.tier != tier.nonce {
        Err(MinerError::InvalidTier)
    } else {
        match fee_result(user.total_locked as u128, mine.dev_fee as u128) {
            Err(e) => Err(e),
            Ok(dev_fee) => Ok(
                (
                    TierInfo {
                        total_locked: sat_sub(
                            tier.total_locked as int,
                            user.total_locked as int,
                        ) as u64,
                        ..tier
                    },
                    Payout {
                        amount_out: sat_sub(user.total_locked as int, dev_fee as int) as u64,
                        dev_fee,
                        penalty: 0,
                    },
                ),
            ),
        }
    }
}

/// Closes a stake by administrative override: pays the principal net of the
/// fee to the stake's owner and forfeits the accrued interest. The caller
/// must be the mine's admin — authorization is a collaborator's precondition,
/// not checked here. The stake is taken by value: on success its record, with
/// any referral entry keyed to it, is to be closed.
pub fn terminate_staking(mine: &MineInfo, tier: &mut TierInfo, user: UserInfo) -> (r: Result<
    Payout,
    MinerError,
>)
    ensures
        match terminate_spec(*mine, *old(tier), user) {
            Ok((t2, payout)) => r == Ok::<Payout, MinerError>(payout) && *final(tier) == t2,
            Err(e) => r == Err::<Payout, MinerError>(e) && *final(tier) == *old(tier),
        },
{
    if user.is_whitelist {
        return Err(MinerError::OperationNotAllowed);
    }
    if user.tier != tier.nonce {
        return Err(MinerError::InvalidTier);
    }
    let total_wide = match to_u128(user.total_locked) {
        Ok(v) => v,
        Err(e) => {
            return Err(e);
        },
    };
    let rate_wide = match to_u128(mine.dev_fee) {
        Ok(v) => v,
        Err(e) => {
            return Err(e);
        },
    };
    let dev_fee = match calculate_fee(total_wide, rate_wide) {
        Ok(v) => v,
        Err(e) => {
            return Err(e);
        },
    };
    tier.total_locked = tier.total_locked.saturating_sub(user.total_locked);
    Ok(Payout { amount_out: user.total_locked.saturating_sub(dev_fee), dev_fee, penalty: 0 })
}

/// Paying out a referrer: under an active mine, with the referrer's stake
/// still on its tier and the eligibility threshold still met, the earnings
/// are paid net of the fee and reset to zero; the lifetime counter stands.
pub open spec fn referral_withdraw_spec(
    mine: MineInfo,
    tier: TierInfo,
    user: UserInfo,
    referral: ReferralInfo,
    token_balance: u64,
) -> Result<(ReferralInfo, Payout), MinerError> {
    if !mine.is_active {
        Err(MinerError::InactiveMine)
    } else if user.tier != tier.nonce {
        Err(MinerError::InvalidTier)
    } else if token_balance < tier.minimum_token_amount {
        Err(MinerError::InvalidTokenAccount)
    } else {
        match fee_result(referral.earnings as u128, mine.dev_fee as u128) {
            Err(e) => Err(e),
            Ok(dev_fee) => Ok(
                (
                    ReferralInfo { earnings: 0, ..referral },
                    Payout {
                        amount_out: sat_sub(referral.earnings as int, dev_fee as int) as u64,
                        dev_fee,
                        penalty: 0,
                    },
                ),
            ),
        }
    }
}

/// Pays out the referrer's accumulated earnings net of the fee and resets
/// them to zero; the lifetime referral counter is preserved. `user` is the
/// referrer's own stake record; on any error the referral entry is unchanged.
pub fn withdraw_referral_rewards(
    mine: &MineInfo,
    tier: &TierInfo,
    user: &UserInfo,
    referral: &mut ReferralInfo,
    token_balance: u64,
) -> (r: Result<Payout, MinerError>)
    ensures
        match referral_withdraw_spec(*mine, *tier, *user, *old(referral), token_balance) {
            Ok((r2, payout)) => r == Ok::<Payout, MinerError>(payout) && *final(referral) == r2,
            Err(e) => r == Err::<Payout, MinerError>(e) && *final(referral) == *old(referral),
        },
{
    if !mine.is_active {
        return Err(MinerError::InactiveMine);
    }
    if user.tier != tier.nonce {
        return Err(MinerError::InvalidTier);
    }
    if token_balance < tier.minimum_token_amount {
        return Err(MinerError::InvalidTokenAccount);
    }
    let earnings_wide = match to_u128(referral.earnings) {
        Ok(v) => v,
        Err(e) => {
            return Err(e);
        },
    };
    let rate_wide = match to_u128(mine.dev_fee) {
        Ok(v) => v,
        Err(e) => {
            return Err(e);
        },
    };
    let dev_fee = match calculate_fee(earnings_wide, rate_wide) {
        Ok(v) => v,
        Err(e) => {
            return Err(e);
        },
    };
    let amount_out = referral.earnings.saturating_sub(dev_fee);
    referral.earnings = 0;
    Ok(Payout { amount_out, dev_fee, penalty: 0 })
}

/// Round trip: a successful `open_stake` followed immediately — at the same
/// timestamp, hence before a positive lock duration has elapsed — by a
/// successful `withdraw` pays out the net principal plus the up-front accrual
/// minus the fee minus the early-withdrawal penalty, the penalty being the
/// basis-point cut of the whole balance `principal + accrued`.
pub proof fn lemma_open_then_immediate_withdraw(
    mine: MineInfo,
    tier: TierInfo,
    owner: AccountId,
    token_balance: u64,
    deposit_amount: u64,
    now: u64,
)
    requires
        tier.lock_duration > 0,
        open_stake_spec(mine, tier, owner, token_balance, deposit_amount, now) is Ok,
        ({
            let (t2, stake, receipt) = open_stake_spec(
                mine,
                tier,
                owner,
                token_balance,
                deposit_amount,
                now,
            )->Ok_0;
            withdraw_stake_spec(mine, t2, stake, token_balance, now) is Ok
        }),
    ensures
        ({
            let (t2, stake, receipt) = open_stake_spec(
                mine,
                tier,
                owner,
                token_balance,
                deposit_amount,
                now,
            )->Ok_0;
            let (t3, payout) = withdraw_stake_spec(mine, t2, stake, token_balance, now)->Ok_0;
            let principal = deposit_amount - spec_fee(deposit_amount as int, mine.dev_fee as int);
            let accrued = spec_interest(principal, tier.apy as int, tier.lock_duration as int);
            let total = principal + accrued;
            &&& stake.total_locked == principal
            &&& stake.accrued_interest == accrued
            &&& payout.penalty == spec_fee(total, mine.early_withdrawal_fee as int)
            &&& payout.amount_out == sat_sub(
                sat_sub(total, spec_fee(total, mine.dev_fee as int)),
                payout.penalty as int,
            )
            &&& t3.total_locked == t2.total_locked - principal
        }),
{
    let (t2, stake, receipt) = open_stake_spec(
        mine,
        tier,
        owner,
        token_balance,
        deposit_amount,
        now,
    )->Ok_0;
    assert(stake.lock_ts == now);
    assert(sat_sub(now as int, stake.lock_ts as int) == 0);
}

} // verus!
