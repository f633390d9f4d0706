//! One tier's stake ledger: the tier record together with all the stake
//! records currently assigned to it, as the persistent store holds them.
//!
//! The point of this module is the aggregate invariant `wf`: the tier's
//! running `total_locked` equals the sum of the principal over the active
//! stakes. Every operation is proved to preserve it, so after any sequence of
//! opens, increases and withdrawals across any number of depositors the
//! aggregate and the sum agree.

use vstd::prelude::*;

use crate::errors::MinerError;
use crate::stake::{
    increase_stake, increase_stake_spec, initialize_staking, open_stake_spec, withdraw,
    withdraw_stake_spec, Payout, StakeReceipt,
};
use crate::states::{AccountId, MineInfo, TierInfo, UserInfo};

verus! {

/// The sum of the locked principal over a sequence of stakes.
pub open spec fn sum_locked(stakes: Seq<UserInfo>) -> int
    decreases stakes.len(),
{
    if stakes.len() == 0 {
        0
    } else {
        stakes[0].total_locked + sum_locked(stakes.drop_first())
    }
}

proof fn lemma_sum_nonneg(stakes: Seq<UserInfo>)
    ensures
        sum_locked(stakes) >= 0,
    decreases stakes.len(),
{
    if stakes.len() > 0 {
        lemma_sum_nonneg(stakes.drop_first());
    }
}

proof fn lemma_sum_push(stakes: Seq<UserInfo>, stake: UserInfo)
    ensures
        sum_locked(stakes.push(stake)) == sum_locked(stakes) + stake.total_locked,
    decreases stakes.len(),
{
    let pushed = stakes.push(stake);
    assert(pushed[0] == if stakes.len() == 0 {
        stake
    } else {
        stakes[0]
    });
    if stakes.len() == 0 {
        assert(pushed.drop_first() =~= Seq::<UserInfo>::empty());
        assert(sum_locked(pushed.drop_first()) == 0);
    } else {
        assert(pushed.drop_first() =~= stakes.drop_first().push(stake));
        lemma_sum_push(stakes.drop_first(), stake);
    }
}

proof fn lemma_sum_update(stakes: Seq<UserInfo>, i: int, stake: UserInfo)
    requires
        0 <= i < stakes.len(),
    ensures
        sum_locked(stakes.update(i, stake)) == sum_locked(stakes) - stakes[i].total_locked
            + stake.total_locked,
    decreases stakes.len(),
{
    if i == 0 {
        assert(stakes.update(0, stake).drop_first() =~= stakes.drop_first());
    } else {
        assert(stakes.update(i, stake).drop_first() =~= stakes.drop_first().update(i - 1, stake));
        lemma_sum_update(stakes.drop_first(), i - 1, stake);
    }
}

proof fn lemma_sum_remove(stakes: Seq<UserInfo>, i: int)
    requires
        0 <= i < stakes.len(),
    ensures
        sum_locked(stakes.remove(i)) == sum_locked(stakes) - stakes[i].total_locked,
    decreases stakes.len(),
{
    if i == 0 {
        assert(stakes.remove(0) =~= stakes.drop_first());
    } else {
        assert(stakes.remove(i).drop_first() =~= stakes.drop_first().remove(i - 1));
        lemma_sum_remove(stakes.drop_first(), i - 1);
    }
}

proof fn lemma_sum_element_bound(stakes: Seq<UserInfo>, i: int)
    requires
        0 <= i < stakes.len(),
    ensures
        stakes[i].total_locked <= sum_locked(stakes),
{
    lemma_sum_remove(stakes, i);
    lemma_sum_nonneg(stakes.remove(i));
}

/// One tier and the stakes currently assigned to it.
pub struct StakeLedger {
    /// The tier record, with its running aggregate.
    pub tier: TierInfo,
    /// The active stakes assigned to the tier.
    pub stakes: Vec<UserInfo>,
}

impl StakeLedger {
    /// The aggregate invariant: the tier's `total_locked` equals the sum of
    /// the principal over the active stakes, all of which sit on this tier.
    /// Established by `new` and preserved by every operation, so it holds
    /// after any sequence of opens, increases and withdrawals.
    pub open spec fn wf(self) -> bool {
        &&& self.tier.total_locked as int == sum_locked(self.stakes@)
        &&& forall|i: int|
            0 <= i < self.stakes@.len() ==> (#[trigger] self.stakes@[i]).tier == self.tier.nonce
    }

    /// Starts the ledger of a freshly created tier, which has no stakes and
    /// nothing locked.
    pub fn new(tier: TierInfo) -> (r: Self)
        requires
            tier.total_locked == 0,
        ensures
            r.wf(),
            r.tier == tier,
            r.stakes@ =~= Seq::<UserInfo>::empty(),
    {
        StakeLedger { tier, stakes: Vec::new() }
    }

    /// Opens a fresh stake on this tier, as `stake::initialize_staking`
    /// states it, appending the new record; on any error the ledger is
    /// unchanged.
    pub fn open_stake(
        &mut self,
        mine: &MineInfo,
        owner: AccountId,
        token_balance: u64,
        deposit_amount: u64,
        now: u64,
    ) -> (r: Result<StakeReceipt, MinerError>)
        requires
            old(self).wf(),
        ensures
            final(self).wf(),
            match open_stake_spec(
                *mine,
                old(self).tier,
                owner,
                token_balance,
                deposit_amount,
                now,
            ) {
                Ok((t2, stake, receipt)) => r == Ok::<StakeReceipt, MinerError>(receipt)
                    && final(self).tier == t2 && final(self).stakes@ == old(self).stakes@.push(
                    stake,
                ),
                Err(e) => r == Err::<StakeReceipt, MinerError>(e) && *final(self) == *old(self),
            },
    {
        match initialize_staking(mine, &mut self.tier, owner, token_balance, deposit_amount, now) {
            Ok((stake, receipt)) => {
                proof {
                    lemma_sum_push(self.stakes@, stake);
                }
                self.stakes.push(stake);
                Ok(receipt)
            },
            Err(e) => Err(e),
        }
    }

    /// Grows the stake at `idx` by a further deposit, as
    /// `stake::increase_stake` states it; on any error the ledger is
    /// unchanged.
    pub fn increase_stake(
        &mut self,
        mine: &MineInfo,
        idx: usize,
        token_balance: u64,
        amount: u64,
        now: u64,
    ) -> (r: Result<StakeReceipt, MinerError>)
        requires
            old(self).wf(),
            idx < old(self).stakes@.len(),
        ensures
            final(self).wf(),
            match increase_stake_spec(
                *mine,
                old(self).tier,
                old(self).stakes@[idx as int],
                token_balance,
                amount,
                now,
            ) {
                Ok((t2, u2, receipt)) => r == Ok::<StakeReceipt, MinerError>(receipt)
                    && final(self).tier == t2 && final(self).stakes@ == old(self).stakes@.update(
                    idx as int,
                    u2,
                ),
                Err(e) => r == Err::<StakeReceipt, MinerError>(e) && *final(self) == *old(self),
            },
    {
        let mut stake = self.stakes[idx];
        let mut staged_tier = self.tier;
        match increase_stake(mine, &mut staged_tier, &mut stake, token_balance, amount, now) {
            Ok(receipt) => {
                proof {
                    lemma_sum_update(self.stakes@, idx as int, stake);
                }
                self.tier = staged_tier;
                self.stakes[idx] = stake;
                Ok(receipt)
            },
            Err(e) => Err(e),
        }
    }

    /// Closes the stake at `idx` and removes its record, as
    /// `stake::withdraw` states it; on any error the ledger is unchanged.
    pub fn withdraw_stake(
        &mut self,
        mine: &MineInfo,
        idx: usize,
        token_balance: u64,
        now: u64,
    ) -> (r: Result<Payout, MinerError>)
        requires
            old(self).wf(),
            idx < old(self).stakes@.len(),
        ensures
            final(self).wf(),
            match withdraw_stake_spec(
                *mine,
                old(self).tier,
                old(self).stakes@[idx as int],
                token_balance,
                now,
            ) {
                Ok((t2, payout)) => r == Ok::<Payout, MinerError>(payout) && final(self).tier == t2
                    && final(self).stakes@ == old(self).stakes@.remove(idx as int),
                Err(e) => r == Err::<Payout, MinerError>(e) && *final(self) == *old(self),
            },
    {
        let stake = self.stakes[idx];
        let mut staged_tier = self.tier;
        match withdraw(mine, &mut staged_tier, stake, token_balance, now) {
            Ok(payout) => {
                proof {
                    lemma_sum_remove(self.stakes@, idx as int);
                    lemma_sum_element_bound(self.stakes@, idx as int);
                }
                self.tier = staged_tier;
                self.stakes.remove(idx);
                Ok(payout)
            },
            Err(e) => Err(e),
        }
    }
}

} // verus!
