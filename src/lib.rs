//! A token-lockup staking ledger: pools with a lock-period schedule of reward
//! rates, per-participant stake records ordered by a nonce, and the reward and
//! fee arithmetic of unstaking. Token movements, signatures, clocks and record
//! storage belong to the host ledger; the operations here decide and record.
use vstd::prelude::*;

pub mod error;
pub mod events;
pub mod init_lockup;
pub mod keys;
pub mod lockup;
pub mod reward;
pub mod stake;
pub mod unstake;
pub mod user_stake;
pub mod whitelist_staker;

pub use error::ZbcnStakeError;
pub use events::{LockupInitialized, Staked, StakerWhitelisted, Unstaked};
pub use init_lockup::InitLockup;
pub use keys::Pubkey;
pub use lockup::{DurationMap, FeeInfo, InitConfigParams, Lockup, RewardToken, StakeInfo, StakedToken};
pub use stake::{Stake, StakeParams};
pub use unstake::{Unstake, UnstakeSettlement};
pub use user_stake::{UserNonce, UserStakeData};
pub use whitelist_staker::{WhitelistStaker, WhitelistStakerParams};

verus! {

/// Configures a pool; see `init_lockup::handler`.
pub fn init_lockup(ctx: &mut InitLockup, params: InitConfigParams) -> (r: Result<
    LockupInitialized,
    ZbcnStakeError,
>)
    ensures
        r matches Ok(ev) && {
            let pool = final(ctx).lockup;
            &&& pool.wf()
            &&& pool.stake_info.name@ == params.name@
            &&& pool.stake_info.creator == old(ctx).creator
            &&& pool.stake_info.minimum_stake == params.minimum_stake
            &&& pool.schedule() == lockup::schedule_from(params.duration_map@)
            &&& pool.reward_token.token_address == old(ctx).reward_token
            &&& pool.staked_token.token_address == old(ctx).stake_token
            &&& pool.staked_token.total_staked == 0
            &&& pool.fee_info.fee == params.fee
            &&& pool.fee_info.fee_vault == params.fee_vault
            &&& ev.name@ == params.name@
            &&& ev.creator == old(ctx).creator
            &&& ev.lockup == old(ctx).lockup_key
            &&& ev.fee_vault == params.fee_vault
            &&& ev.reward_vault == old(ctx).reward_vault
            &&& ev.duration_map@ == pool.schedule()
        },
{
    init_lockup::handler(ctx, params)
}

/// Records a participant's deposit; see `stake::handler`.
pub fn stake_zbcn(ctx: &mut Stake, params: StakeParams, now: i64) -> (r: Result<
    Staked,
    ZbcnStakeError,
>)
    ensures
        stake::stake_error(*old(ctx), params) is Some <==> r is Err,
        r matches Err(e) ==> stake::stake_error(*old(ctx), params) == Some(e) && *final(ctx)
            == *old(ctx),
        r matches Ok(ev) ==> stake::stake_post(*old(ctx), *final(ctx), params, now) && ev == (
        Staked {
            staker: old(ctx).staker,
            stake_amount: params.amount,
            nonce: params.nonce,
            lock_period: params.lock_period,
        }),
{
    stake::handler(ctx, params, now)
}

/// Settles a stake; see `unstake::handler`.
pub fn unstake_zbcn(ctx: &mut Unstake, now: i64) -> (r: Result<
    UnstakeSettlement,
    ZbcnStakeError,
>)
    ensures
        unstake::unstake_error(*old(ctx), now) is Some <==> r is Err,
        r matches Err(e) ==> unstake::unstake_error(*old(ctx), now) == Some(e) && *final(ctx)
            == *old(ctx),
        r matches Ok(s) ==> {
            let rec = old(ctx).stake_pda;
            let fee = reward::fee_of(rec.staked_amount, old(ctx).lockup.fee_info.fee);
            &&& unstake::unstake_post(*old(ctx), *final(ctx))
            &&& s.event.staker == rec.staker
            &&& s.event.reward_amount as int == unstake::pool_reward(
                old(ctx).lockup,
                rec.staked_amount,
                rec.lock_period,
            )
            &&& s.event.lock_period == rec.lock_period
            &&& s.fee_amount as int == fee
            &&& s.event.unstake_amount as int == rec.staked_amount as int - fee
        },
{
    unstake::handler(ctx, now)
}

/// Registers a stake on a participant's behalf; see `whitelist_staker::handler`.
pub fn whitelist_staker(ctx: &mut WhitelistStaker, params: WhitelistStakerParams) -> (r: Result<
    StakerWhitelisted,
    ZbcnStakeError,
>)
    ensures
        whitelist_staker::whitelist_error(*old(ctx), params) is Some <==> r is Err,
        r matches Err(e) ==> whitelist_staker::whitelist_error(*old(ctx), params) == Some(e)
            && *final(ctx) == *old(ctx),
        r matches Ok(ev) ==> whitelist_staker::whitelist_post(*old(ctx), *final(ctx), params)
            && ev == (StakerWhitelisted {
            staker: old(ctx).staker,
            amount: params.amount,
            nonce: params.nonce,
            lock_period: params.lock_period,
            claimed: params.claimed,
            created_time: params.created_time,
        }),
{
    whitelist_staker::handler(ctx, params)
}

} // verus!
