use vstd::prelude::*;

use crate::error::ZbcnStakeError;
use crate::events::Staked;
use crate::keys::Pubkey;
use crate::lockup::Lockup;
use crate::user_stake::{UserNonce, UserStakeData};

verus! {

/// The records a stake reads and writes: the pool, the participant's nonce
/// counter for it, and the stake record addressed by the submitted nonce.
#[derive(Clone, Debug)]
pub struct Stake {
    pub staker: Pubkey,
    pub lockup: Lockup,
    pub lockup_key: Pubkey,
    pub stake_pda: UserStakeData,
    pub user_nonce: UserNonce,
    /// The token that the deposit is made in.
    pub stake_token: Pubkey,
}

#[derive(Clone, Copy, Debug)]
pub struct StakeParams {
    pub amount: u64,
    pub lock_period: i64,
    pub nonce: u64,
}

/// Why a stake is rejected, the first failing check in order; `None` when it
/// is accepted.
pub open spec fn stake_error(ctx: Stake, params: StakeParams) -> Option<ZbcnStakeError> {
    if ctx.user_nonce.nonce != params.nonce {
        Some(ZbcnStakeError::InvalidNonce)
    } else if ctx.stake_token@ != ctx.lockup.staked_token.token_address@ {
        Some(ZbcnStakeError::InvalidStakeToken)
    } else if params.amount < ctx.lockup.stake_info.minimum_stake {
        Some(ZbcnStakeError::MinimumStakeNotMet)
    } else if ctx.lockup.staked_token.total_staked + params.amount > u64::MAX
        || ctx.user_nonce.nonce + 1 > u64::MAX {
        Some(ZbcnStakeError::ArithmeticOverflow)
    } else {
        None
    }
}

/// The records after an accepted stake: a fresh, unclaimed record at the
/// consumed nonce, the counter advanced by one, the amount added to the
/// pool's total and nothing else of the pool changed.
pub open spec fn stake_post(pre: Stake, post: Stake, params: StakeParams, now: i64) -> bool {
    &&& post.user_nonce.nonce == pre.user_nonce.nonce + 1
    &&& post.stake_pda == (UserStakeData {
        nonce: params.nonce,
        created_time: now,
        staked_amount: params.amount,
        reward_amount: 0,
        stake_claimed: false,
        lock_period: params.lock_period,
        staker: pre.staker,
        lockup: pre.lockup_key,
    })
    &&& post.lockup.staked_token.total_staked == pre.lockup.staked_token.total_staked
        + params.amount
    &&& post.lockup.staked_token.token_address == pre.lockup.staked_token.token_address
    &&& post.lockup.stake_info == pre.lockup.stake_info
    &&& post.lockup.reward_token == pre.lockup.reward_token
    &&& post.lockup.fee_info == pre.lockup.fee_info
    &&& post.staker == pre.staker
    &&& post.lockup_key == pre.lockup_key
    &&& post.stake_token == pre.stake_token
}

/// Checks the deposit's token and size against the pool.
fn run_validations(stake_token: Pubkey, lockup: &Lockup, amount: u64) -> (r: Result<
    (),
    ZbcnStakeError,
>)
    ensures
        r == (if stake_token@ != lockup.staked_token.token_address@ {
            Err(ZbcnStakeError::InvalidStakeToken)
        } else if amount < lockup.stake_info.minimum_stake {
            Err(ZbcnStakeError::MinimumStakeNotMet)
        } else {
            Ok(())
        }),
{
    if !(stake_token == lockup.staked_token.token_address) {
        return Err(ZbcnStakeError::InvalidStakeToken);
    }
    if amount < lockup.stake_info.minimum_stake {
        return Err(ZbcnStakeError::MinimumStakeNotMet);
    }
    Ok(())
}

/// Records a deposit of `params.amount` at time `now`. The caller moves the
/// tokens from the participant to the pool's stake vault when this succeeds.
pub fn handler(ctx: &mut Stake, params: StakeParams, now: i64) -> (r: Result<
    Staked,
    ZbcnStakeError,
>)
    ensures
        stake_error(*old(ctx), params) is Some <==> r is Err,
        r matches Err(e) ==> stake_error(*old(ctx), params) == Some(e) && *final(ctx) == *old(
            ctx,
        ),
        r matches Ok(ev) ==> stake_post(*old(ctx), *final(ctx), params, now) && ev == (Staked {
            staker: old(ctx).staker,
            stake_amount: params.amount,
            nonce: params.nonce,
            lock_period: params.lock_period,
        }),
{
    if ctx.user_nonce.nonce != params.nonce {
        return Err(ZbcnStakeError::InvalidNonce);
    }
    run_validations(ctx.stake_token, &ctx.lockup, params.amount)?;
    let total = match ctx.lockup.staked_token.total_staked.checked_add(params.amount) {
        Some(t) => t,
        None => return Err(ZbcnStakeError::ArithmeticOverflow),
    };
    let next_nonce = match ctx.user_nonce.nonce.checked_add(1) {
        Some(n) => n,
        None => return Err(ZbcnStakeError::ArithmeticOverflow),
    };
    ctx.stake_pda = UserStakeData {
        nonce: params.nonce,
        created_time: now,
        staked_amount: params.amount,
        reward_amount: 0,
        stake_claimed: false,
        lock_period: params.lock_period,
        staker: ctx.staker,
        lockup: ctx.lockup_key,
    };
    ctx.user_nonce.nonce = next_nonce;
    ctx.lockup.staked_token.total_staked = total;
    Ok(
        Staked {
            staker: ctx.staker,
            stake_amount: params.amount,
            nonce: params.nonce,
            lock_period: params.lock_period,
        },
    )
}

/// A stake that carries the expected nonce, is made in the pool's token and
/// meets its floor is accepted, provided the pool's total and the counter stay
/// within `u64`; once accepted, the counter has advanced by exactly one and an
/// unclaimed record with no reward stands at the consumed nonce.
pub proof fn lemma_valid_stake_accepted(pre: Stake, post: Stake, params: StakeParams, now: i64)
    requires
        params.nonce == pre.user_nonce.nonce,
        pre.stake_token@ == pre.lockup.staked_token.token_address@,
        params.amount >= pre.lockup.stake_info.minimum_stake,
        pre.lockup.staked_token.total_staked + params.amount <= u64::MAX,
        pre.user_nonce.nonce < u64::MAX,
    ensures
        stake_error(pre, params) is None,
        stake_post(pre, post, params, now) ==> {
            &&& post.user_nonce.nonce == pre.user_nonce.nonce + 1
            &&& post.stake_pda.nonce == pre.user_nonce.nonce
            &&& !post.stake_pda.stake_claimed
            &&& post.stake_pda.reward_amount == 0
        },
{
}

/// Once a stake has been accepted, a stake that submits a nonce already
/// consumed, the one just used included, is rejected with `InvalidNonce`.
pub proof fn lemma_consumed_nonce_rejected(
    pre: Stake,
    post: Stake,
    params: StakeParams,
    now: i64,
    replay: StakeParams,
)
    requires
        stake_error(pre, params) is None,
        stake_post(pre, post, params, now),
        replay.nonce <= params.nonce,
    ensures
        stake_error(post, replay) == Some(ZbcnStakeError::InvalidNonce),
{
}

} // verus!
