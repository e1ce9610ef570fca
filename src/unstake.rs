use vstd::prelude::*;

use crate::error::ZbcnStakeError;
use crate::events::Unstaked;
use crate::keys::Pubkey;
use crate::lockup::{Lockup, rate_for};
use crate::reward::{checked_reward, exact_reward, fee_of, split_fee};
use crate::user_stake::{UserStakeData, lock_ended};

verus! {

/// The records an unstake reads and writes: the pool and the stake record,
/// with the identities presented by the caller.
#[derive(Clone, Debug)]
pub struct Unstake {
    /// The identity that signs the unstake.
    pub staker: Pubkey,
    pub lockup: Lockup,
    pub lockup_key: Pubkey,
    pub stake_pda: UserStakeData,
    pub reward_token: Pubkey,
    pub stake_token: Pubkey,
}

/// The three token movements of an accepted unstake: the reward and the net
/// principal to the participant (both in the event), and the fee to the pool's
/// fee vault.
#[derive(Clone, Copy, Debug)]
pub struct UnstakeSettlement {
    pub event: Unstaked,
    pub fee_amount: u64,
}

/// The reward a pool owes for `amount` locked for `lock_period` seconds, at the
/// rate its schedule gives that lock period.
pub open spec fn pool_reward(lockup: Lockup, amount: u64, lock_period: i64) -> int {
    exact_reward(amount, rate_for(lockup.schedule(), lock_period as u64), lock_period)
}

/// Computes `pool_reward(*lockup, amount, lock_period)`, `None` exactly when it
/// lies beyond the range of `u64`; shared by unstaking and by the registration
/// of already-settled stakes.
pub fn reward_for(lockup: &Lockup, amount: u64, lock_period: i64) -> (r: Option<u64>)
    ensures
        r is Some <==> pool_reward(*lockup, amount, lock_period) <= u64::MAX as int,
        r matches Some(v) ==> v as int == pool_reward(*lockup, amount, lock_period),
{
    let rate = match lockup.get_reward_for_duration(lock_period as u64) {
        Some(rate) => rate,
        None => 0,
    };
    checked_reward(amount, rate, lock_period)
}

/// Why an unstake at time `now` is rejected, the first failing check in
/// order; `None` when it is accepted.
pub open spec fn unstake_error(ctx: Unstake, now: i64) -> Option<ZbcnStakeError> {
    let rec = ctx.stake_pda;
    if rec.stake_claimed {
        Some(ZbcnStakeError::RewardAlreadyClaimed)
    } else if ctx.reward_token@ != ctx.lockup.reward_token.token_address@ {
        Some(ZbcnStakeError::InvalidRewardToken)
    } else if ctx.stake_token@ != ctx.lockup.staked_token.token_address@ {
        Some(ZbcnStakeError::InvalidStakeToken)
    } else if ctx.staker@ != rec.staker@ {
        Some(ZbcnStakeError::InvalidStaker)
    } else if !lock_ended(rec.created_time, rec.lock_period, now) {
        Some(ZbcnStakeError::StakeNotClaimable)
    } else if pool_reward(ctx.lockup, rec.staked_amount, rec.lock_period) == 0 {
        Some(ZbcnStakeError::RewardIsZero)
    } else if pool_reward(ctx.lockup, rec.staked_amount, rec.lock_period) > u64::MAX as int {
        Some(ZbcnStakeError::ArithmeticOverflow)
    } else if fee_of(rec.staked_amount, ctx.lockup.fee_info.fee) > rec.staked_amount {
        Some(ZbcnStakeError::FeeExceedsPrincipal)
    } else {
        None
    }
}

/// The records after an accepted unstake: the stake record is claimed with its
/// reward written, and nothing else changes.
pub open spec fn unstake_post(pre: Unstake, post: Unstake) -> bool {
    &&& post.stake_pda == (UserStakeData {
        reward_amount: pool_reward(
            pre.lockup,
            pre.stake_pda.staked_amount,
            pre.stake_pda.lock_period,
        ) as u64,
        stake_claimed: true,
        ..pre.stake_pda
    })
    &&& post.lockup == pre.lockup
    &&& post.staker == pre.staker
    &&& post.lockup_key == pre.lockup_key
    &&& post.reward_token == pre.reward_token
    &&& post.stake_token == pre.stake_token
}

/// Checks, in order, that the record is unclaimed, that both tokens are the
/// pool's, that the caller is the record's staker, and that the lock has ended.
fn run_validations(
    reward_token: Pubkey,
    stake_token: Pubkey,
    staker: Pubkey,
    lockup: &Lockup,
    stake_pda: &UserStakeData,
    current_time: i64,
) -> (r: Result<(), ZbcnStakeError>)
    ensures
        r == (if stake_pda.stake_claimed {
            Err(ZbcnStakeError::RewardAlreadyClaimed)
        } else if reward_token@ != lockup.reward_token.token_address@ {
            Err(ZbcnStakeError::InvalidRewardToken)
        } else if stake_token@ != lockup.staked_token.token_address@ {
            Err(ZbcnStakeError::InvalidStakeToken)
        } else if staker@ != stake_pda.staker@ {
            Err(ZbcnStakeError::InvalidStaker)
        } else if !lock_ended(stake_pda.created_time, stake_pda.lock_period, current_time) {
            Err(ZbcnStakeError::StakeNotClaimable)
        } else {
            Ok(())
        }),
{
    if stake_pda.stake_claimed {
        return Err(ZbcnStakeError::RewardAlreadyClaimed);
    }
    if !(reward_token == lockup.reward_token.token_address) {
        return Err(ZbcnStakeError::InvalidRewardToken);
    }
    if !(stake_token == lockup.staked_token.token_address) {
        return Err(ZbcnStakeError::InvalidStakeToken);
    }
    if !(staker == stake_pda.staker) {
        return Err(ZbcnStakeError::InvalidStaker);
    }
    if !stake_pda.is_ended(current_time) {
        return Err(ZbcnStakeError::StakeNotClaimable);
    }
    Ok(())
}

/// Settles a stake at time `now`: computes the reward, the fee and the net
/// principal, and marks the record claimed. The caller moves the three
/// amounts out of the pool's vaults when this succeeds.
pub fn handler(ctx: &mut Unstake, now: i64) -> (r: Result<UnstakeSettlement, ZbcnStakeError>)
    ensures
        unstake_error(*old(ctx), now) is Some <==> r is Err,
        r matches Err(e) ==> unstake_error(*old(ctx), now) == Some(e) && *final(ctx) == *old(ctx),
        r matches Ok(s) ==> {
            let rec = old(ctx).stake_pda;
            let fee = fee_of(rec.staked_amount, old(ctx).lockup.fee_info.fee);
            &&& unstake_post(*old(ctx), *final(ctx))
            &&& s.event.staker == rec.staker
            &&& s.event.reward_amount as int == pool_reward(
                old(ctx).lockup,
                rec.staked_amount,
                rec.lock_period,
            )
            &&& s.event.lock_period == rec.lock_period
            &&& s.fee_amount as int == fee
            &&& s.event.unstake_amount as int == rec.staked_amount as int - fee
            &&& s.fee_amount + s.event.unstake_amount == rec.staked_amount
        },
{
    run_validations(
        ctx.reward_token,
        ctx.stake_token,
        ctx.staker,
        &ctx.lockup,
        &ctx.stake_pda,
        now,
    )?;
    let reward = match reward_for(
        &ctx.lockup,
        ctx.stake_pda.staked_amount,
        ctx.stake_pda.lock_period,
    ) {
        Some(0) => return Err(ZbcnStakeError::RewardIsZero),
        Some(v) => v,
        None => {
            proof {
                assert(pool_reward(ctx.lockup, ctx.stake_pda.staked_amount, ctx.stake_pda.lock_period) != 0);
            }
            return Err(ZbcnStakeError::ArithmeticOverflow);
        },
    };
    let (fee_amount, unstake_amount) = match split_fee(
        ctx.stake_pda.staked_amount,
        ctx.lockup.fee_info.fee,
    ) {
        Some(split) => split,
        None => return Err(ZbcnStakeError::FeeExceedsPrincipal),
    };
    ctx.stake_pda.reward_amount = reward;
    ctx.stake_pda.stake_claimed = true;
    Ok(
        UnstakeSettlement {
            event: Unstaked {
                staker: ctx.stake_pda.staker,
                unstake_amount,
                reward_amount: reward,
                lock_period: ctx.stake_pda.lock_period,
            },
            fee_amount,
        },
    )
}

/// A record that has been unstaked cannot be unstaked again: any later attempt
/// is rejected with `RewardAlreadyClaimed` (and, being rejected, changes
/// nothing).
pub proof fn lemma_unstake_twice_rejected(pre: Unstake, post: Unstake, later: i64)
    requires
        unstake_post(pre, post),
    ensures
        unstake_error(post, later) == Some(ZbcnStakeError::RewardAlreadyClaimed),
{
}

/// The maturity boundary is strict: with every other check passing, an
/// unstake at `created_time + lock_period` is rejected with
/// `StakeNotClaimable`, and one a second later is accepted.
pub proof fn lemma_maturity_boundary(ctx: Unstake)
    requires
        !ctx.stake_pda.stake_claimed,
        ctx.reward_token@ == ctx.lockup.reward_token.token_address@,
        ctx.stake_token@ == ctx.lockup.staked_token.token_address@,
        ctx.staker@ == ctx.stake_pda.staker@,
        pool_reward(ctx.lockup, ctx.stake_pda.staked_amount, ctx.stake_pda.lock_period) != 0,
        pool_reward(ctx.lockup, ctx.stake_pda.staked_amount, ctx.stake_pda.lock_period)
            <= u64::MAX as int,
        fee_of(ctx.stake_pda.staked_amount, ctx.lockup.fee_info.fee)
            <= ctx.stake_pda.staked_amount,
        i64::MIN <= ctx.stake_pda.created_time + ctx.stake_pda.lock_period < i64::MAX,
    ensures
        unstake_error(ctx, (ctx.stake_pda.created_time + ctx.stake_pda.lock_period) as i64)
            == Some(ZbcnStakeError::StakeNotClaimable),
        unstake_error(ctx, (ctx.stake_pda.created_time + ctx.stake_pda.lock_period + 1) as i64)
            is None,
{
}

/// A lock period that the pool's schedule does not list earns a rate of 0, so
/// an unstake of it that passes the earlier checks is rejected with
/// `RewardIsZero`.
pub proof fn lemma_unlisted_period_reward_is_zero(ctx: Unstake, now: i64)
    requires
        !crate::lockup::has_duration(ctx.lockup.schedule(), ctx.stake_pda.lock_period as u64),
        !ctx.stake_pda.stake_claimed,
        ctx.reward_token@ == ctx.lockup.reward_token.token_address@,
        ctx.stake_token@ == ctx.lockup.staked_token.token_address@,
        ctx.staker@ == ctx.stake_pda.staker@,
        lock_ended(ctx.stake_pda.created_time, ctx.stake_pda.lock_period, now),
    ensures
        pool_reward(ctx.lockup, ctx.stake_pda.staked_amount, ctx.stake_pda.lock_period) == 0,
        unstake_error(ctx, now) == Some(ZbcnStakeError::RewardIsZero),
{
}

} // verus!
