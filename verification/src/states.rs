//! The persistent records of the ledger and the admin operations on them.
//!
//! Identities (the admin, collectors, owners, the value-unit) are opaque
//! handles to the engine: it only ever compares them and hands them back, so
//! they are carried as plain `AccountId` values. Verifying who controls an
//! identity is a collaborator's job and a precondition of every operation
//! here.

use vstd::prelude::*;

use crate::errors::MinerError;

verus! {

/// An opaque identity: an owner, a collector, the admin, or a value-unit.
pub type AccountId = u64;

/// Global configuration of one deployment ("mine"): fee destinations, rates
/// in basis points, the active flag and the tier-id allocation counter.
/// Created once, mutated only by partial updates, never destroyed.
#[derive(Clone, Copy, Debug, PartialEq, Eq, Structural)]
pub struct MineInfo {
    /// The administrator's identity.
    pub admin: AccountId,
    /// The value-unit eligibility holdings are denominated in.
    pub token_mint: AccountId,
    /// Where deposit and payout fees go.
    pub fee_collector: AccountId,
    /// Where early-withdrawal penalties go.
    pub penalty_fee_collector: AccountId,
    /// Fee on deposits, interest payouts and withdrawals, in basis points.
    pub dev_fee: u64,
    /// Penalty on early claims and withdrawals, in basis points.
    pub early_withdrawal_fee: u64,
    /// Referrer's share of a referred principal, in basis points.
    pub referral_reward: u64,
    /// The next tier identifier to allocate; tier ids are never reused.
    pub current_tier_nonce: u8,
    /// Whether the mine accepts operations.
    pub is_active: bool,
}

/// One interest-rate/lock-duration bucket. `total_locked` is the sum of the
/// principal currently attributed to this tier; tiers are never destroyed.
#[derive(Clone, Copy, Debug, PartialEq, Eq, Structural)]
pub struct TierInfo {
    /// The tier's identifier, allocated sequentially by the mine.
    pub nonce: u8,
    /// Eligibility threshold, denominated in the mine's value-unit holding.
    pub minimum_token_amount: u64,
    /// Sum of the principal of all stakes currently assigned to this tier.
    pub total_locked: u64,
    /// Annualized interest rate in basis points.
    pub apy: u64,
    /// Seconds a stake is locked before penalty-free claims and withdrawals.
    pub lock_duration: u64,
    /// Whether new deposits into this tier are accepted.
    pub is_active: bool,
}

/// One depositor's stake: the central record of the state machine. Created on
/// first deposit, mutated by every lifecycle call, destroyed on full
/// withdrawal or administrative termination.
#[derive(Clone, Copy, Debug, PartialEq, Eq, Structural)]
pub struct UserInfo {
    /// The depositor's identity.
    pub owner: AccountId,
    /// The principal currently locked.
    pub total_locked: u64,
    /// Interest computed but not yet paid out or compounded.
    pub accrued_interest: u64,
    /// Timestamp (seconds) marking the start of the current accrual window.
    pub lock_ts: u64,
    /// The tier this stake is assigned to.
    pub tier: u8,
    /// A whitelisted stake skips eligibility checks and referral linkage and
    /// leaves through its own withdrawal path.
    pub is_whitelist: bool,
}

/// A referrer's accumulated, claimable bonus. Created lazily on the first
/// referral; `count` is a lifetime counter that survives payouts.
#[derive(Clone, Copy, Debug, PartialEq, Eq, Structural)]
pub struct ReferralInfo {
    /// The referrer's identity.
    pub owner: AccountId,
    /// The claimable bonus.
    pub earnings: u64,
    /// How many referrals this referrer has accumulated, ever.
    pub count: u64,
}

/// A single-use, time-limited permission to stake into a tier without meeting
/// the eligibility threshold. Consumed (destroyed) by the matching staking
/// operation, which must come strictly before `expiry`.
#[derive(Clone, Copy, Debug, PartialEq, Eq, Structural)]
pub struct WhitelistInfo {
    /// Who may consume the grant.
    pub beneficiary: AccountId,
    /// The tier the grant is made out for.
    pub tier: u8,
    /// The timestamp (seconds) at which the grant dies: a consume must come
    /// strictly before it.
    pub expiry: u64,
}

/// The single shared balance backing outstanding liabilities. Every
/// transfer-bearing operation settles against it.
#[derive(Clone, Copy, Debug, PartialEq, Eq, Structural)]
pub struct MineVault {
    /// The vault's balance in the mine's value unit.
    pub balance: u64,
}

/// Creates the one `MineInfo` of a deployment, active, with no tiers yet, and
/// its empty vault.
pub fn initialize_mine(
    admin: AccountId,
    token_mint: AccountId,
    fee_collector: AccountId,
    penalty_fee_collector: AccountId,
    dev_fee: u64,
    early_withdrawal_fee: u64,
    referral_reward: u64,
) -> (r: (MineInfo, MineVault))
    ensures
        r.0 == (MineInfo {
            admin,
            token_mint,
            fee_collector,
            penalty_fee_collector,
            dev_fee,
            early_withdrawal_fee,
            referral_reward,
            current_tier_nonce: 0,
            is_active: true,
        }),
        r.1 == (MineVault { balance: 0 }),
{
    (
        MineInfo {
            admin,
            token_mint,
            fee_collector,
            penalty_fee_collector,
            dev_fee,
            early_withdrawal_fee,
            referral_reward,
            current_tier_nonce: 0,
            is_active: true,
        },
        MineVault { balance: 0 },
    )
}

impl MineInfo {
    /// Allocates the next sequential tier identifier and returns the fresh
    /// tier: active, with nothing locked yet. Fails with `MathsError` when
    /// the identifier space is exhausted, leaving the mine unchanged. Only
    /// the admin may add tiers; authorization is a collaborator's
    /// precondition, not checked here.
    pub fn add_tier(&mut self, minimum_token_amount: u64, apy: u64, lock_duration: u64) -> (r:
        Result<TierInfo, MinerError>)
        ensures
            old(self).current_tier_nonce < u8::MAX ==> {
                &&& r == Ok::<TierInfo, MinerError>(
                    TierInfo {
                        nonce: old(self).current_tier_nonce,
                        minimum_token_amount,
                        total_locked: 0,
                        apy,
                        lock_duration,
                        is_active: true,
                    },
                )
                &&& *final(self) == (MineInfo {
                    current_tier_nonce: (old(self).current_tier_nonce + 1) as u8,
                    ..*old(self)
                })
            },
            old(self).current_tier_nonce == u8::MAX ==> r == Err::<TierInfo, MinerError>(
                MinerError::MathsError,
            ) && *final(self) == *old(self),
    {
        if self.current_tier_nonce == u8::MAX {
            return Err(MinerError::MathsError);
        }
        let tier = TierInfo {
            nonce: self.current_tier_nonce,
            minimum_token_amount,
            total_locked: 0,
            apy,
            lock_duration,
            is_active: true,
        };
        self.current_tier_nonce = self.current_tier_nonce + 1;
        Ok(tier)
    }

    /// Partial update of the mine's parameters: each present field overwrites
    /// the prior value, each absent field retains it. Admin-only;
    /// authorization is a collaborator's precondition, not checked here.
    pub fn update_mine(
        &mut self,
        fee_collector: Option<AccountId>,
        penalty_fee_collector: Option<AccountId>,
        dev_fee: Option<u64>,
        early_withdrawal_fee: Option<u64>,
        referral_reward: Option<u64>,
        is_active: Option<bool>,
    )
        ensures
            final(self).fee_collector == if fee_collector is Some {
                fee_collector->0
            } else {
                old(self).fee_collector
            },
            final(self).penalty_fee_collector == if penalty_fee_collector is Some {
                penalty_fee_collector->0
            } else {
                old(self).penalty_fee_collector
            },
            final(self).dev_fee == if dev_fee is Some {
                dev_fee->0
            } else {
                old(self).dev_fee
            },
            final(self).early_withdrawal_fee == if early_withdrawal_fee is Some {
                early_withdrawal_fee->0
            } else {
                old(self).early_withdrawal_fee
            },
            final(self).referral_reward == if referral_reward is Some {
                referral_reward->0
            } else {
                old(self).referral_reward
            },
            final(self).is_active == if is_active is Some {
                is_active->0
            } else {
                old(self).is_active
            },
            final(self).admin == old(self).admin,
            final(self).token_mint == old(self).token_mint,
            final(self).current_tier_nonce == old(self).current_tier_nonce,
    {
        match fee_collector {
            Some(val) => {
                self.fee_collector = val;
            },
            None => {},
        };
        match penalty_fee_collector {
            Some(val) => {
                self.penalty_fee_collector = val;
            },
            None => {},
        };
        match dev_fee {
            Some(val) => {
                self.dev_fee = val;
            },
            None => {},
        };
        match early_withdrawal_fee {
            Some(val) => {
                self.early_withdrawal_fee = val;
            },
            None => {},
        };
        match referral_reward {
            Some(val) => {
                self.referral_reward = val;
            },
            None => {},
        };
        match is_active {
            Some(val) => {
                self.is_active = val;
            },
            None => {},
        }
    }
}

impl TierInfo {
    /// Partial update of the tier's parameters, mirroring `update_mine`. The
    /// running `total_locked` aggregate and the identifier are never touched.
    /// Admin-only; authorization is a collaborator's precondition, not
    /// checked here.
    pub fn update_tier(
        &mut self,
        minimum_token_amount: Option<u64>,
        apy: Option<u64>,
        lock_duration: Option<u64>,
        is_active: Option<bool>,
    )
        ensures
            final(self).minimum_token_amount == if minimum_token_amount is Some {
                minimum_token_amount->0
            } else {
                old(self).minimum_token_amount
            },
            final(self).apy == if apy is Some {
                apy->0
            } else {
                old(self).apy
            },
            final(self).lock_duration == if lock_duration is Some {
                lock_duration->0
            } else {
                old(self).lock_duration
            },
            final(self).is_active == if is_active is Some {
                is_active->0
            } else {
                old(self).is_active
            },
            final(self).nonce == old(self).nonce,
            final(self).total_locked == old(self).total_locked,
    {
        match minimum_token_amount {
            Some(val) => {
                self.minimum_token_amount = val;
            },
            None => {},
        };
        match apy {
            Some(val) => {
                self.apy = val;
            },
            None => {},
        };
        match lock_duration {
            Some(val) => {
                self.lock_duration = val;
            },
            None => {},
        };
        match is_active {
            Some(val) => {
                self.is_active = val;
            },
            None => {},
        }
    }
}

/// Creates a whitelist grant for `beneficiary` into the given tier, valid
/// until `expiry` exclusive. Fails with `InvalidTier` when the tier is not
/// active. Admin-only; authorization is a collaborator's precondition, not
/// checked here.
pub fn whitelist_account(tier: &TierInfo, beneficiary: AccountId, expiry: u64) -> (r: Result<
    WhitelistInfo,
    MinerError,
>)
    ensures
        tier.is_active ==> r == Ok::<WhitelistInfo, MinerError>(
            WhitelistInfo { beneficiary, tier: tier.nonce, expiry },
        ),
        !tier.is_active ==> r == Err::<WhitelistInfo, MinerError>(MinerError::InvalidTier),
{
    if !tier.is_active {
        return Err(MinerError::InvalidTier);
    }
    Ok(WhitelistInfo { beneficiary, tier: tier.nonce, expiry })
}

impl MineVault {
    /// Credits the vault. Fails with `MathsError` when the balance would
    /// overflow, leaving it unchanged.
    pub fn deposit(&mut self, amount: u64) -> (r: Result<(), MinerError>)
        ensures
            old(self).balance + amount <= u64::MAX ==> r == Ok::<(), MinerError>(())
                && final(self).balance == old(self).balance + amount,
            old(self).balance + amount > u64::MAX ==> r == Err::<(), MinerError>(
                MinerError::MathsError,
            ) && *final(self) == *old(self),
    {
        match self.balance.checked_add(amount) {
            Some(v) => {
                self.balance = v;
                Ok(())
            },
            None => Err(MinerError::MathsError),
        }
    }

    /// Debits the vault. Fails with `MathsError` exactly when the balance is
    /// insufficient, leaving it unchanged.
    pub fn withdraw(&mut self, amount: u64) -> (r: Result<(), MinerError>)
        ensures
            amount <= old(self).balance ==> r == Ok::<(), MinerError>(()) && final(self).balance
                == old(self).balance - amount,
            amount > old(self).balance ==> r == Err::<(), MinerError>(MinerError::MathsError)
                && *final(self) == *old(self),
    {
        match self.balance.checked_sub(amount) {
            Some(v) => {
                self.balance = v;
                Ok(())
            },
            None => Err(MinerError::MathsError),
        }
    }
}

} // verus!
