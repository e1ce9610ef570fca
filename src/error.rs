use vstd::prelude::*;

verus! {

/// Every way a pool, stake, unstake or whitelist operation can be rejected.
/// A rejected operation leaves all records unchanged.
#[derive(Clone, Copy, Debug, PartialEq, Eq, Structural)]
pub enum ZbcnStakeError {
    InvalidTime,
    InvalidStakeToken,
    InvalidRewardToken,
    InvalidStakePeriod,
    InvalidStaker,
    InvalidNonce,
    UnAuthorized,
    InvalidLockPeriod,
    InvalidAmount,
    RewardAlreadyClaimed,
    StakeRewardNotClaimable,
    RewardIsZero,
    StakeAlreadyClaimed,
    StakeNotClaimable,
    MinimumStakeNotMet,
    /// The fee computed from the pool's fee rate exceeds the principal.
    FeeExceedsPrincipal,
    /// A counter or a running total would leave the range of `u64`.
    ArithmeticOverflow,
}

impl ZbcnStakeError {
    /// The human-readable message of the error.
    pub fn message(&self) -> (r: &'static str) {
        match self {
            ZbcnStakeError::InvalidTime => "Invalid Time",
            ZbcnStakeError::InvalidStakeToken => "Invalid Stake Token",
            ZbcnStakeError::InvalidRewardToken => "Invalid Reward Token",
            ZbcnStakeError::InvalidStakePeriod => "Invalid Stake Period",
            ZbcnStakeError::InvalidStaker => "Invalid Staker",
            ZbcnStakeError::InvalidNonce => "Invalid Nonce",
            ZbcnStakeError::UnAuthorized => "UnAuthorized",
            ZbcnStakeError::InvalidLockPeriod => "Invalid Lock Period",
            ZbcnStakeError::InvalidAmount => "Invalid Amount",
            ZbcnStakeError::RewardAlreadyClaimed => "Reward Already Claimed",
            ZbcnStakeError::StakeRewardNotClaimable => "Stake Reward Not Claimable",
            ZbcnStakeError::RewardIsZero => "Reward Is Zero",
            ZbcnStakeError::StakeAlreadyClaimed => "Stake Already Claimed",
            ZbcnStakeError::StakeNotClaimable => "Stake Not Claimable",
            ZbcnStakeError::MinimumStakeNotMet => "Minimum Stake Not Met",
            ZbcnStakeError::FeeExceedsPrincipal => "Fee Exceeds Principal",
            ZbcnStakeError::ArithmeticOverflow => "Arithmetic Overflow",
        }
    }
}

} // verus!
