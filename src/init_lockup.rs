use vstd::prelude::*;

use crate::error::ZbcnStakeError;
use crate::events::LockupInitialized;
use crate::keys::Pubkey;
use crate::lockup::{DurationMap, InitConfigParams, Lockup, schedule_from};

verus! {

/// The records a pool's configuration writes, with the identities involved.
#[derive(Clone, Debug)]
pub struct InitLockup {
    pub creator: Pubkey,
    pub lockup: Lockup,
    pub lockup_key: Pubkey,
    pub reward_vault: Pubkey,
    pub stake_token: Pubkey,
    pub reward_token: Pubkey,
}

/// Configures the pool from `params`, with the signer as its creator and the
/// presented tokens as its staked and reward tokens.
pub fn handler(ctx: &mut InitLockup, params: InitConfigParams) -> (r: Result<
    LockupInitialized,
    ZbcnStakeError,
>)
    ensures
        r matches Ok(ev) && {
            let pool = final(ctx).lockup;
            &&& pool.wf()
            &&& pool.stake_info.name@ == params.name@
            &&& pool.stake_info.creator == old(ctx).creator
            &&& pool.stake_info.minimum_stake == params.minimum_stake
            &&& pool.schedule() == schedule_from(params.duration_map@)
            &&& pool.reward_token.token_address == old(ctx).reward_token
            &&& pool.staked_token.token_address == old(ctx).stake_token
            &&& pool.staked_token.total_staked == 0
            &&& pool.fee_info.fee == params.fee
            &&& pool.fee_info.fee_vault == params.fee_vault
            &&& ev.name@ == params.name@
            &&& ev.creator == old(ctx).creator
            &&& ev.lockup == old(ctx).lockup_key
            &&& ev.fee_vault == params.fee_vault
            &&& ev.reward_vault == old(ctx).reward_vault
            &&& ev.duration_map@ == pool.schedule()
        },
        final(ctx).creator == old(ctx).creator,
        final(ctx).lockup_key == old(ctx).lockup_key,
        final(ctx).reward_vault == old(ctx).reward_vault,
        final(ctx).stake_token == old(ctx).stake_token,
        final(ctx).reward_token == old(ctx).reward_token,
{
    let creator = ctx.creator;
    let reward_token = ctx.reward_token;
    let staked_token = ctx.stake_token;
    ctx.lockup.init(params, creator, reward_token, staked_token)?;
    let schedule = &ctx.lockup.stake_info.duration_map;
    let mut duration_map: Vec<DurationMap> = Vec::new();
    let mut i: usize = 0;
    while i < schedule.len()
        invariant
            0 <= i <= schedule@.len(),
            duration_map@ == schedule@.take(i as int),
        decreases schedule@.len() - i,
    {
        duration_map.push(schedule[i]);
        proof {
            assert(schedule@.take(i + 1) =~= schedule@.take(i as int).push(schedule@[i as int]));
        }
        i = i + 1;
    }
    proof {
        assert(schedule@.take(schedule@.len() as int) =~= schedule@);
    }
    Ok(
        LockupInitialized {
            name: ctx.lockup.stake_info.name.clone(),
            creator,
            lockup: ctx.lockup_key,
            fee_vault: ctx.lockup.fee_info.fee_vault,
            reward_vault: ctx.reward_vault,
            duration_map,
        },
    )
}

} // verus!
