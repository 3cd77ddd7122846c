use vstd::prelude::*;

use crate::state::{DeviceReputation, DeviceSlashed, RewardMinted, ThermoError};

verus! {

/// Reputation removed by one slash, saturating at zero.
pub const SLASH_REPUTATION_PENALTY: u32 = 1000;

/// First-token reward of a device with this reputation and streak:
/// `1000 * reputation / 10000` plus 10 per streak day, counting at most 30 days.
pub open spec fn temp_reward_spec(reputation_score: u32, streak_days: u16) -> int {
    1000 * reputation_score / 10000 + 10 * (if streak_days < 30 { streak_days as int } else { 30 })
}

/// Second-token reward: one hundredth of the first, truncated.
pub open spec fn bonk_reward_spec(reputation_score: u32, streak_days: u16) -> int {
    temp_reward_spec(reputation_score, streak_days) / 100
}

/// Reputation after a slash: lowered by 1000, never below zero.
pub open spec fn slashed_reputation(reputation_score: u32) -> u32 {
    if reputation_score >= 1000 {
        (reputation_score - 1000) as u32
    } else {
        0
    }
}

/// The device record after a slash of `amount` that its stake covers.
pub open spec fn after_slash(rep: DeviceReputation, amount: u64) -> DeviceReputation {
    DeviceReputation {
        stake_amount: (rep.stake_amount - amount) as u64,
        slash_count: (rep.slash_count + 1) as u8,
        reputation_score: slashed_reputation(rep.reputation_score),
        ..rep
    }
}

/// The two reward amounts owed to a device, first token then second.
pub fn compute_reward(rep: &DeviceReputation) -> (r: (u64, u64))
    ensures
        r.0 == temp_reward_spec(rep.reputation_score, rep.streak_days),
        r.1 == bonk_reward_spec(rep.reputation_score, rep.streak_days),
{
    let base_reward: u64 = 1000;
    let reputation_multiplier: u64 = rep.reputation_score as u64;
    let streak: u64 = if rep.streak_days < 30 {
        rep.streak_days as u64
    } else {
        30
    };
    let streak_bonus: u64 = streak * 10;
    let temp_reward: u64 = base_reward * reputation_multiplier / 10000 + streak_bonus;
    let bonk_reward: u64 = temp_reward / 100;
    (temp_reward, bonk_reward)
}

/// Decides the reward of `device`: the notification names the amounts of
/// each token that are to be minted to it. Minting them is the caller's
/// step, and the reward stands only if both mints succeed.
pub fn reward_mint(device: [u8; 32], rep: &DeviceReputation) -> (r: RewardMinted)
    ensures
        r.device == device,
        r.temp_amount == temp_reward_spec(rep.reputation_score, rep.streak_days),
        r.bonk_amount == bonk_reward_spec(rep.reputation_score, rep.streak_days),
{
    let (temp_amount, bonk_amount) = compute_reward(rep);
    RewardMinted { device, temp_amount, bonk_amount }
}

/// Slashes `slash_amount` of the device's stake: the stake goes down by it,
/// the slash count up by one and reputation down by 1000 (not below zero).
/// Fails with `InsufficientStake`, changing nothing, when the stake is
/// smaller than the amount. The notification names the amount to burn,
/// which is the caller's step.
pub fn slash_device(rep: &mut DeviceReputation, device: [u8; 32], slash_amount: u64) -> (r: Result<
    DeviceSlashed,
    ThermoError,
>)
    requires
        old(rep).stake_amount >= slash_amount ==> old(rep).slash_count < u8::MAX,
    ensures
        old(rep).stake_amount < slash_amount ==> r == Err::<DeviceSlashed, ThermoError>(
            ThermoError::InsufficientStake,
        ) && *final(rep) == *old(rep),
        old(rep).stake_amount >= slash_amount ==> *final(rep) == after_slash(*old(rep), slash_amount)
            && r == Ok::<DeviceSlashed, ThermoError>(
            DeviceSlashed {
                device,
                amount: slash_amount,
                new_reputation: slashed_reputation(old(rep).reputation_score),
            },
        ),
{
    if rep.stake_amount < slash_amount {
        return Err(ThermoError::InsufficientStake);
    }
    rep.stake_amount = rep.stake_amount - slash_amount;
    rep.slash_count = rep.slash_count + 1;
    rep.reputation_score = rep.reputation_score.saturating_sub(SLASH_REPUTATION_PENALTY);
    Ok(DeviceSlashed { device, amount: slash_amount, new_reputation: rep.reputation_score })
}

} // verus!
