use vstd::prelude::*;

use crate::error::ZbcnStakeError;
use crate::keys::Pubkey;

verus! {

/// One entry of a pool's schedule: the annual reward rate, in basis points,
/// paid for stakes locked for exactly `duration` seconds.
#[derive(Clone, Copy, Debug, PartialEq, Eq, Structural)]
pub struct DurationMap {
    pub duration: u64,
    pub reward: u64,
}

/// Name, creator, schedule and stake floor of a pool.
#[derive(Clone, Debug)]
pub struct StakeInfo {
    pub name: String,
    pub creator: Pubkey,
    pub duration_map: Vec<DurationMap>,
    pub minimum_stake: u64,
}

/// The token in which rewards are paid.
#[derive(Clone, Copy, Debug)]
pub struct RewardToken {
    pub token_address: Pubkey,
}

/// The token that participants stake, and the sum of all principal staked so far.
#[derive(Clone, Copy, Debug)]
pub struct StakedToken {
    pub token_address: Pubkey,
    pub total_staked: u64,
}

/// The fee rate, in thousandths of the principal, and the account paid the fee.
#[derive(Clone, Copy, Debug)]
pub struct FeeInfo {
    pub fee: u64,
    pub fee_vault: Pubkey,
}

/// What a creator supplies when configuring a pool.
#[derive(Clone, Debug)]
pub struct InitConfigParams {
    pub name: String,
    pub lock_period: i64,
    pub staking_end_time: i64,
    pub staking_start_time: i64,
    pub fee: u64,
    pub fee_vault: Pubkey,
    pub duration_map: Vec<DurationMap>,
    pub minimum_stake: u64,
}

/// A staking pool.
#[derive(Clone, Debug)]
pub struct Lockup {
    pub stake_info: StakeInfo,
    pub reward_token: RewardToken,
    pub staked_token: StakedToken,
    pub fee_info: FeeInfo,
}

/// No two entries of the schedule share a duration.
pub open spec fn durations_unique(s: Seq<DurationMap>) -> bool {
    forall|i: int, j: int|
        0 <= i < s.len() && 0 <= j < s.len() && i != j ==> s[i].duration != s[j].duration
}

/// `i` is the first position of the schedule holding duration `d`.
pub open spec fn is_first_match(s: Seq<DurationMap>, d: u64, i: int) -> bool {
    &&& 0 <= i < s.len()
    &&& s[i].duration == d
    &&& forall|j: int| 0 <= j < i ==> s[j].duration != d
}

pub open spec fn has_duration(s: Seq<DurationMap>, d: u64) -> bool {
    exists|i: int| is_first_match(s, d, i)
}

pub open spec fn first_match(s: Seq<DurationMap>, d: u64) -> int {
    choose|i: int| is_first_match(s, d, i)
}

/// The reward rate that the schedule gives duration `d`: that of its first
/// entry for `d`, and 0 where it has none.
pub open spec fn rate_for(s: Seq<DurationMap>, d: u64) -> u64 {
    if has_duration(s, d) {
        s[first_match(s, d)].reward
    } else {
        0
    }
}

/// The schedule after setting the rate of duration `d` to `r`: the entry for
/// `d` is replaced in place, or a new entry is appended.
pub open spec fn with_rate(s: Seq<DurationMap>, d: u64, r: u64) -> Seq<DurationMap> {
    if has_duration(s, d) {
        s.update(first_match(s, d), DurationMap { duration: d, reward: r })
    } else {
        s.push(DurationMap { duration: d, reward: r })
    }
}

/// The schedule built by setting each entry of `entries` in turn.
pub open spec fn schedule_from(entries: Seq<DurationMap>) -> Seq<DurationMap>
    decreases entries.len(),
{
    if entries.len() == 0 {
        Seq::empty()
    } else {
        with_rate(
            schedule_from(entries.drop_last()),
            entries.last().duration,
            entries.last().reward,
        )
    }
}

proof fn lemma_first_match_unique(s: Seq<DurationMap>, d: u64, i: int, k: int)
    requires
        is_first_match(s, d, i),
        is_first_match(s, d, k),
    ensures
        i == k,
{
    if i < k {
        assert(s[i].duration != d);
    } else if k < i {
        assert(s[k].duration != d);
    }
}

proof fn lemma_some_match_has_first(s: Seq<DurationMap>, d: u64, i: int)
    requires
        0 <= i < s.len(),
        s[i].duration == d,
    ensures
        has_duration(s, d),
    decreases i,
{
    if exists|j: int| 0 <= j < i && s[j].duration == d {
        let j = choose|j: int| 0 <= j < i && s[j].duration == d;
        lemma_some_match_has_first(s, d, j);
    } else {
        assert(is_first_match(s, d, i));
    }
}

/// Setting a rate keeps the durations of a schedule unique.
pub proof fn lemma_with_rate_unique(s: Seq<DurationMap>, d: u64, r: u64)
    requires
        durations_unique(s),
    ensures
        durations_unique(with_rate(s, d, r)),
{
    let t = with_rate(s, d, r);
    if !has_duration(s, d) {
        assert forall|i: int, j: int|
            0 <= i < t.len() && 0 <= j < t.len() && i != j implies t[i].duration
            != t[j].duration by {
            if i < s.len() && j == s.len() {
                if s[i].duration == d {
                    lemma_some_match_has_first(s, d, i);
                }
            } else if j < s.len() && i == s.len() {
                if s[j].duration == d {
                    lemma_some_match_has_first(s, d, j);
                }
            }
        }
    }
}

/// A schedule built by `schedule_from` never holds a duration twice.
pub proof fn lemma_schedule_from_unique(entries: Seq<DurationMap>)
    ensures
        durations_unique(schedule_from(entries)),
    decreases entries.len(),
{
    if entries.len() > 0 {
        lemma_schedule_from_unique(entries.drop_last());
        lemma_with_rate_unique(
            schedule_from(entries.drop_last()),
            entries.last().duration,
            entries.last().reward,
        );
    }
}

impl DurationMap {
    fn new(duration: u64, reward: u64) -> (r: Self)
        ensures
            r == (DurationMap { duration, reward }),
    {
        Self { duration, reward }
    }
}

impl Default for Lockup {
    /// A pool that has not been configured: empty name and schedule, zero
    /// identities, rates and totals.
    fn default() -> (r: Lockup)
        ensures
            r.stake_info.name@.len() == 0,
            r.schedule().len() == 0,
            r.stake_info.minimum_stake == 0,
            r.staked_token.total_staked == 0,
            r.fee_info.fee == 0,
            r.wf(),
    {
        Lockup {
            stake_info: StakeInfo {
                name: String::new(),
                creator: Pubkey::default(),
                duration_map: Vec::new(),
                minimum_stake: 0,
            },
            reward_token: RewardToken { token_address: Pubkey::default() },
            staked_token: StakedToken { token_address: Pubkey::default(), total_staked: 0 },
            fee_info: FeeInfo { fee: 0, fee_vault: Pubkey::default() },
        }
    }
}

impl Lockup {
    /// The pool's schedule.
    pub open spec fn schedule(&self) -> Seq<DurationMap> {
        self.stake_info.duration_map@
    }

    /// The pool's invariant: its schedule holds each duration at most once.
    pub open spec fn wf(&self) -> bool {
        durations_unique(self.schedule())
    }

    /// Configures the pool: every field is set from the arguments, the total
    /// staked starts at 0, and the schedule is built by setting each entry of
    /// `params.duration_map` in order.
    pub fn init(
        &mut self,
        params: InitConfigParams,
        creator: Pubkey,
        reward_token: Pubkey,
        staked_token: Pubkey,
    ) -> (r: Result<(), ZbcnStakeError>)
        ensures
            r is Ok,
            final(self).wf(),
            final(self).stake_info.name@ == params.name@,
            final(self).stake_info.creator == creator,
            final(self).stake_info.minimum_stake == params.minimum_stake,
            final(self).schedule() == schedule_from(params.duration_map@),
            final(self).reward_token.token_address == reward_token,
            final(self).staked_token.token_address == staked_token,
            final(self).staked_token.total_staked == 0,
            final(self).fee_info.fee == params.fee,
            final(self).fee_info.fee_vault == params.fee_vault,
    {
        *self = Lockup {
            stake_info: StakeInfo {
                name: params.name,
                creator,
                duration_map: Vec::new(),
                minimum_stake: params.minimum_stake,
            },
            reward_token: RewardToken { token_address: reward_token },
            staked_token: StakedToken { token_address: staked_token, total_staked: 0 },
            fee_info: FeeInfo { fee: params.fee, fee_vault: params.fee_vault },
        };
        let entries = &params.duration_map;
        let mut i: usize = 0;
        assert(entries@.take(0) =~= Seq::<DurationMap>::empty());
        while i < entries.len()
            invariant
                0 <= i <= entries@.len(),
                self.schedule() == schedule_from(entries@.take(i as int)),
                self.stake_info.name@ == params.name@,
                self.stake_info.creator == creator,
                self.stake_info.minimum_stake == params.minimum_stake,
                self.reward_token.token_address == reward_token,
                self.staked_token.token_address == staked_token,
                self.staked_token.total_staked == 0,
                self.fee_info.fee == params.fee,
                self.fee_info.fee_vault == params.fee_vault,
            decreases entries@.len() - i,
        {
            let f = entries[i];
            self.set_duration_map(f.duration, f.reward);
            proof {
                let next = entries@.take(i + 1);
                assert(next.drop_last() =~= entries@.take(i as int));
                assert(next.last() == f);
            }
            i = i + 1;
        }
        proof {
            assert(entries@.take(entries@.len() as int) =~= entries@);
            lemma_schedule_from_unique(entries@);
        }
        Ok(())
    }

    /// Sets the reward rate of `duration`: the existing entry is updated in
    /// place, or a new entry is appended. Nothing else changes.
    pub fn set_duration_map(&mut self, duration: u64, reward: u64)
        ensures
            final(self).schedule() == with_rate(old(self).schedule(), duration, reward),
            old(self).wf() ==> final(self).wf(),
            final(self).stake_info.name == old(self).stake_info.name,
            final(self).stake_info.creator == old(self).stake_info.creator,
            final(self).stake_info.minimum_stake == old(self).stake_info.minimum_stake,
            final(self).reward_token == old(self).reward_token,
            final(self).staked_token == old(self).staked_token,
            final(self).fee_info == old(self).fee_info,
    {
        proof {
            if old(self).wf() {
                lemma_with_rate_unique(old(self).schedule(), duration, reward);
            }
        }
        let ghost s = self.schedule();
        let mut i: usize = 0;
        while i < self.stake_info.duration_map.len()
            invariant
                self.schedule() == s,
                *self == *old(self),
                0 <= i <= s.len(),
                forall|j: int| 0 <= j < i ==> s[j].duration != duration,
            decreases s.len() - i,
        {
            if self.stake_info.duration_map[i].duration == duration {
                proof {
                    assert(is_first_match(s, duration, i as int));
                    lemma_first_match_unique(s, duration, i as int, first_match(s, duration));
                }
                self.stake_info.duration_map.set(i, DurationMap::new(duration, reward));
                return;
            }
            i = i + 1;
        }
        proof {
            if has_duration(s, duration) {
                let k = first_match(s, duration);
                assert(s[k].duration == duration);
            }
        }
        self.stake_info.duration_map.push(DurationMap::new(duration, reward));
    }

    /// The reward rate for `duration`: that of its schedule entry, or 0 where
    /// the schedule has none. Never `None`.
    pub fn get_reward_for_duration(&self, duration: u64) -> (r: Option<u64>)
        ensures
            r == Some(rate_for(self.schedule(), duration)),
    {
        let ghost s = self.schedule();
        let mut i: usize = 0;
        while i < self.stake_info.duration_map.len()
            invariant
                self.schedule() == s,
                0 <= i <= s.len(),
                forall|j: int| 0 <= j < i ==> s[j].duration != duration,
            decreases s.len() - i,
        {
            if self.stake_info.duration_map[i].duration == duration {
                proof {
                    assert(is_first_match(s, duration, i as int));
                    lemma_first_match_unique(s, duration, i as int, first_match(s, duration));
                }
                return Some(self.stake_info.duration_map[i].reward);
            }
            i = i + 1;
        }
        proof {
            if has_duration(s, duration) {
                let k = first_match(s, duration);
                assert(s[k].duration == duration);
            }
        }
        Some(0)
    }
}

} // verus!
