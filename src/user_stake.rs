use vstd::prelude::*;

use crate::keys::Pubkey;

verus! {

/// One stake of a participant in a pool, addressed by (staker, lockup, nonce).
#[derive(Clone, Copy, Debug)]
pub struct UserStakeData {
    pub nonce: u64,
    pub created_time: i64,
    pub staked_amount: u64,
    pub reward_amount: u64,
    pub stake_claimed: bool,
    pub lock_period: i64,
    pub staker: Pubkey,
    pub lockup: Pubkey,
}

/// The next nonce that a participant's stake in a pool must carry.
#[derive(Clone, Copy, Debug, PartialEq, Eq, Structural)]
pub struct UserNonce {
    pub nonce: u64,
}

/// A lock period of `lock_period` seconds that started at `created_time` has
/// ended at time `now`: `now` lies strictly after its end.
pub open spec fn lock_ended(created_time: i64, lock_period: i64, now: i64) -> bool {
    (created_time as int) + (lock_period as int) < now as int
}

impl UserStakeData {
    /// Whether the lock period has ended at `current_time` (seconds).
    pub fn is_ended(&self, current_time: i64) -> (r: bool)
        ensures
            r == lock_ended(self.created_time, self.lock_period, current_time),
    {
        (self.created_time as i128) + (self.lock_period as i128) < current_time as i128
    }
}

impl UserNonce {
    pub fn get_nonce(&self) -> (r: u64)
        ensures
            r == self.nonce,
    {
        self.nonce
    }
}

impl Default for Pubkey {
    fn default() -> (r: Pubkey)
        ensures
            r.bytes@ == Seq::new(32, |i: int| 0u8),
    {
        let r = Pubkey { bytes: [0u8; 32] };
        assert(r.bytes@ =~= Seq::new(32, |i: int| 0u8));
        r
    }
}

impl Default for UserNonce {
    fn default() -> (r: UserNonce)
        ensures
            r.nonce == 0,
    {
        UserNonce { nonce: 0 }
    }
}

impl Default for UserStakeData {
    /// A record that no stake has written yet.
    fn default() -> (r: UserStakeData)
        ensures
            r.nonce == 0,
            r.created_time == 0,
            r.staked_amount == 0,
            r.reward_amount == 0,
            !r.stake_claimed,
            r.lock_period == 0,
    {
        UserStakeData {
            nonce: 0,
            created_time: 0,
            staked_amount: 0,
            reward_amount: 0,
            stake_claimed: false,
            lock_period: 0,
            staker: Pubkey::default(),
            lockup: Pubkey::default(),
        }
    }
}

} // verus!
