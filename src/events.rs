use vstd::prelude::*;

use crate::keys::Pubkey;
use crate::lockup::DurationMap;

verus! {

/// Emitted when a pool is configured.
#[derive(Clone, Debug)]
pub struct LockupInitialized {
    pub name: String,
    pub creator: Pubkey,
    pub lockup: Pubkey,
    pub fee_vault: Pubkey,
    pub reward_vault: Pubkey,
    pub duration_map: Vec<DurationMap>,
}

/// Emitted when a participant stakes.
#[derive(Clone, Copy, Debug)]
pub struct Staked {
    pub staker: Pubkey,
    pub stake_amount: u64,
    pub nonce: u64,
    pub lock_period: i64,
}

/// Emitted when a participant unstakes.
#[derive(Clone, Copy, Debug)]
pub struct Unstaked {
    pub staker: Pubkey,
    pub unstake_amount: u64,
    pub reward_amount: u64,
    pub lock_period: i64,
}

/// Emitted when the pool creator registers a stake on a participant's behalf.
#[derive(Clone, Copy, Debug)]
pub struct StakerWhitelisted {
    pub staker: Pubkey,
    pub amount: u64,
    pub nonce: u64,
    pub lock_period: i64,
    pub claimed: bool,
    pub created_time: i64,
}

} // verus!
