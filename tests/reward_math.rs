use zebec_stake::reward::{checked_reward, compute_reward, split_fee, SECONDS_PER_YEAR};

#[test]
fn one_year_at_ten_percent_pays_ten_percent() {
    assert_eq!(compute_reward(1_000_000, 1000, 31_536_000), 100_000);
}

#[test]
fn seconds_per_year_is_365_days() {
    assert_eq!(SECONDS_PER_YEAR, 31_536_000);
}

#[test]
fn half_year_reward_rounds_down() {
    // 1_000_001 * 1000 * 15_768_000 / (10000 * 31_536_000) = 50_000.05
    assert_eq!(compute_reward(1_000_001, 1000, 15_768_000), 50_000);
}

#[test]
fn zero_rate_or_non_positive_period_earns_nothing() {
    assert_eq!(compute_reward(1_000_000, 0, 31_536_000), 0);
    assert_eq!(compute_reward(1_000_000, 1000, 0), 0);
    assert_eq!(compute_reward(1_000_000, 1000, -5), 0);
}

#[test]
fn tiny_stake_reward_truncates_to_zero() {
    assert_eq!(compute_reward(1, 1000, 86_400), 0);
}

#[test]
fn huge_reward_is_capped() {
    assert_eq!(compute_reward(u64::MAX, u64::MAX, i64::MAX), u64::MAX);
    assert_eq!(compute_reward(u64::MAX, 20_000, 31_536_000), u64::MAX);
}

#[test]
fn fee_and_net_add_up_for_every_rate_in_range() {
    let principals: [u64; 6] = [0, 1, 999, 1000, 123_456_789, u64::MAX];
    for p in principals {
        for rate in 0u64..=1000 {
            let (fee, net) = split_fee(p, rate).unwrap();
            assert_eq!(fee as u128, (p as u128 * rate as u128) / 1000);
            assert_eq!(fee as u128 + net as u128, p as u128);
        }
    }
}

#[test]
fn fee_examples() {
    assert_eq!(split_fee(1_000_000, 25), Some((25_000, 975_000)));
    assert_eq!(split_fee(999, 1), Some((0, 999)));
    assert_eq!(split_fee(1000, 1000), Some((1000, 0)));
}

#[test]
fn fee_above_principal_is_refused() {
    assert_eq!(split_fee(1000, 1001), None);
    // a small principal absorbs a rate slightly above the whole
    assert_eq!(split_fee(999, 1001), Some((999, 0)));
}

#[test]
fn checked_reward_refuses_only_beyond_u64() {
    assert_eq!(checked_reward(1_000_000, 1000, 31_536_000), Some(100_000));
    assert_eq!(checked_reward(1_000_000, 1000, -1), Some(0));
    assert_eq!(checked_reward(u64::MAX, 20_000, 31_536_000), None);
    assert_eq!(checked_reward(u64::MAX, 10_000, 31_536_000), Some(u64::MAX));
}
