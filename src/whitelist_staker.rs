use vstd::prelude::*;

use crate::error::ZbcnStakeError;
use crate::events::StakerWhitelisted;
use crate::keys::Pubkey;
use crate::lockup::Lockup;
use crate::unstake::{pool_reward, reward_for};
use crate::user_stake::{UserNonce, UserStakeData};

verus! {

/// The records a registration by the pool creator reads and writes.
#[derive(Clone, Debug)]
pub struct WhitelistStaker {
    /// The identity that signs the registration.
    pub admin: Pubkey,
    pub lockup: Lockup,
    pub lockup_key: Pubkey,
    pub user_nonce: UserNonce,
    /// The participant on whose behalf the stake is registered.
    pub staker: Pubkey,
    pub stake_pda: UserStakeData,
    pub stake_token: Pubkey,
}

/// The terms of a stake registered by the pool creator; `claimed` registers
/// one that was already settled.
#[derive(Clone, Copy, Debug)]
pub struct WhitelistStakerParams {
    pub amount: u64,
    pub nonce: u64,
    pub lock_period: i64,
    pub created_time: i64,
    pub claimed: bool,
}

/// Why a registration is rejected, the first failing check in order; `None`
/// when it is accepted.
pub open spec fn whitelist_error(ctx: WhitelistStaker, params: WhitelistStakerParams) -> Option<
    ZbcnStakeError,
> {
    if ctx.admin@ != ctx.lockup.stake_info.creator@ {
        Some(ZbcnStakeError::UnAuthorized)
    } else if ctx.stake_token@ != ctx.lockup.staked_token.token_address@ {
        Some(ZbcnStakeError::InvalidStakeToken)
    } else if params.lock_period <= 0 {
        Some(ZbcnStakeError::InvalidLockPeriod)
    } else if params.amount == 0 {
        Some(ZbcnStakeError::InvalidAmount)
    } else if ctx.user_nonce.nonce != params.nonce {
        Some(ZbcnStakeError::InvalidNonce)
    } else if ctx.lockup.staked_token.total_staked + params.amount > u64::MAX
        || ctx.user_nonce.nonce + 1 > u64::MAX || (params.claimed && pool_reward(
        ctx.lockup,
        params.amount,
        params.lock_period,
    ) > u64::MAX as int) {
        Some(ZbcnStakeError::ArithmeticOverflow)
    } else {
        None
    }
}

/// The records after an accepted registration: a record with the given terms
/// at the consumed nonce, its reward already computed when it is registered as
/// claimed; the counter advanced by one; the amount added to the pool's total.
pub open spec fn whitelist_post(
    pre: WhitelistStaker,
    post: WhitelistStaker,
    params: WhitelistStakerParams,
) -> bool {
    &&& post.user_nonce.nonce == pre.user_nonce.nonce + 1
    &&& post.stake_pda == (UserStakeData {
        nonce: params.nonce,
        created_time: params.created_time,
        staked_amount: params.amount,
        reward_amount: if params.claimed {
            pool_reward(pre.lockup, params.amount, params.lock_period) as u64
        } else {
            0
        },
        stake_claimed: params.claimed,
        lock_period: params.lock_period,
        staker: pre.staker,
        lockup: pre.lockup_key,
    })
    &&& post.lockup.staked_token.total_staked == pre.lockup.staked_token.total_staked
        + params.amount
    &&& post.lockup.staked_token.token_address == pre.lockup.staked_token.token_address
    &&& post.lockup.stake_info == pre.lockup.stake_info
    &&& post.lockup.reward_token == pre.lockup.reward_token
    &&& post.lockup.fee_info == pre.lockup.fee_info
    &&& post.admin == pre.admin
    &&& post.staker == pre.staker
    &&& post.lockup_key == pre.lockup_key
    &&& post.stake_token == pre.stake_token
}

/// Checks, in order, the caller's authority, the token, the lock period, the
/// amount and the nonce.
fn run_validations(
    stake_token: Pubkey,
    lockup: &Lockup,
    user_nonce: &UserNonce,
    params: &WhitelistStakerParams,
    admin: Pubkey,
) -> (r: Result<(), ZbcnStakeError>)
    ensures
        r == (if admin@ != lockup.stake_info.creator@ {
            Err(ZbcnStakeError::UnAuthorized)
        } else if stake_token@ != lockup.staked_token.token_address@ {
            Err(ZbcnStakeError::InvalidStakeToken)
        } else if params.lock_period <= 0 {
            Err(ZbcnStakeError::InvalidLockPeriod)
        } else if params.amount == 0 {
            Err(ZbcnStakeError::InvalidAmount)
        } else if user_nonce.nonce != params.nonce {
            Err(ZbcnStakeError::InvalidNonce)
        } else {
            Ok(())
        }),
{
    if !(lockup.stake_info.creator == admin) {
        return Err(ZbcnStakeError::UnAuthorized);
    }
    if !(stake_token == lockup.staked_token.token_address) {
        return Err(ZbcnStakeError::InvalidStakeToken);
    }
    if params.lock_period <= 0 {
        return Err(ZbcnStakeError::InvalidLockPeriod);
    }
    if params.amount == 0 {
        return Err(ZbcnStakeError::InvalidAmount);
    }
    if user_nonce.nonce != params.nonce {
        return Err(ZbcnStakeError::InvalidNonce);
    }
    Ok(())
}

/// Registers a stake on a participant's behalf without moving tokens. Only
/// the pool creator may do so: any other caller is rejected with
/// `UnAuthorized` and nothing changes.
pub fn handler(ctx: &mut WhitelistStaker, params: WhitelistStakerParams) -> (r: Result<
    StakerWhitelisted,
    ZbcnStakeError,
>)
    ensures
        whitelist_error(*old(ctx), params) is Some <==> r is Err,
        r matches Err(e) ==> whitelist_error(*old(ctx), params) == Some(e) && *final(ctx)
            == *old(ctx),
        old(ctx).admin@ != old(ctx).lockup.stake_info.creator@ ==> r == Err::<
            StakerWhitelisted,
            ZbcnStakeError,
        >(ZbcnStakeError::UnAuthorized) && *final(ctx) == *old(ctx),
        r matches Ok(ev) ==> whitelist_post(*old(ctx), *final(ctx), params) && ev == (
        StakerWhitelisted {
            staker: old(ctx).staker,
            amount: params.amount,
            nonce: params.nonce,
            lock_period: params.lock_period,
            claimed: params.claimed,
            created_time: params.created_time,
        }),
{
    run_validations(ctx.stake_token, &ctx.lockup, &ctx.user_nonce, &params, ctx.admin)?;
    let total = match ctx.lockup.staked_token.total_staked.checked_add(params.amount) {
        Some(t) => t,
        None => return Err(ZbcnStakeError::ArithmeticOverflow),
    };
    let next_nonce = match ctx.user_nonce.nonce.checked_add(1) {
        Some(n) => n,
        None => return Err(ZbcnStakeError::ArithmeticOverflow),
    };
    let reward_amount = if params.claimed {
        match reward_for(&ctx.lockup, params.amount, params.lock_period) {
            Some(v) => v,
            None => return Err(ZbcnStakeError::ArithmeticOverflow),
        }
    } else {
        0
    };
    ctx.stake_pda = UserStakeData {
        nonce: params.nonce,
        created_time: params.created_time,
        staked_amount: params.amount,
        reward_amount,
        stake_claimed: params.claimed,
        lock_period: params.lock_period,
        staker: ctx.staker,
        lockup: ctx.lockup_key,
    };
    ctx.user_nonce.nonce = next_nonce;
    ctx.lockup.staked_token.total_staked = total;
    Ok(
        StakerWhitelisted {
            staker: ctx.staker,
            amount: params.amount,
            nonce: params.nonce,
            lock_period: params.lock_period,
            claimed: params.claimed,
            created_time: params.created_time,
        },
    )
}

} // verus!
