use vstd::prelude::*;
use vstd::relations::sorted_by;

use crate::aggregation::{
    base_confidence,
    confidence_of,
    dispersion_bonus,
    median_of_sorted,
    sample_order,
    sorted_samples,
    trunc_half,
};
use crate::state::{DeviceReputation, ThermoError};
use crate::submission::{admission_error, after_submission};

verus! {

/// Nonces of accepted readings strictly increase: after a reading is
/// accepted the device's last nonce is that reading's nonce, which is above
/// the previous one; and a reading whose nonce is not above the last one is
/// always rejected, with `InvalidNonce` when its timestamp is within the
/// accepted window.
pub proof fn lemma_nonce_strictly_increasing(
    rep: DeviceReputation,
    temperature: i16,
    pressure: u32,
    timestamp: i64,
    gps_accuracy: u16,
    nonce: u64,
    now: i64,
)
    ensures
        admission_error(temperature, pressure, timestamp, gps_accuracy, nonce, rep.last_nonce, now) is None
            ==> after_submission(rep, timestamp, nonce).last_nonce == nonce && nonce > rep.last_nonce,
        nonce <= rep.last_nonce ==> admission_error(
            temperature,
            pressure,
            timestamp,
            gps_accuracy,
            nonce,
            rep.last_nonce,
            now,
        ) is Some,
        nonce <= rep.last_nonce && now - 1800 <= timestamp <= now + 300 ==> admission_error(
            temperature,
            pressure,
            timestamp,
            gps_accuracy,
            nonce,
            rep.last_nonce,
            now,
        ) == Some(ThermoError::InvalidNonce),
{
}

/// Of two readings accepted one after the other from a device, the second
/// has the larger nonce, and sending the first again afterwards is rejected.
pub proof fn lemma_replay_rejected(
    rep: DeviceReputation,
    t1: i16,
    p1: u32,
    ts1: i64,
    g1: u16,
    n1: u64,
    now1: i64,
    t2: i16,
    p2: u32,
    ts2: i64,
    g2: u16,
    n2: u64,
    now2: i64,
)
    requires
        admission_error(t1, p1, ts1, g1, n1, rep.last_nonce, now1) is None,
    ensures
        admission_error(t2, p2, ts2, g2, n2, after_submission(rep, ts1, n1).last_nonce, now2) is None
            ==> n1 < n2,
        admission_error(t1, p1, ts1, g1, n1, after_submission(rep, ts1, n1).last_nonce, now2) is Some,
{
}

/// A temperature outside [-5000, 8500] or a pressure outside
/// [80000, 120000] is always rejected; both bounds are accepted when every
/// other check passes.
pub proof fn lemma_range_checks(
    temperature: i16,
    pressure: u32,
    timestamp: i64,
    gps_accuracy: u16,
    nonce: u64,
    last_nonce: u64,
    now: i64,
)
    ensures
        !(-5000 <= temperature <= 8500) || !(80000 <= pressure <= 120000) ==> admission_error(
            temperature,
            pressure,
            timestamp,
            gps_accuracy,
            nonce,
            last_nonce,
            now,
        ) is Some,
        now - 1800 <= timestamp <= now + 300 && nonce > last_nonce && gps_accuracy <= 5000 && -5000
            <= temperature <= 8500 && 80000 <= pressure <= 120000 ==> admission_error(
            temperature,
            pressure,
            timestamp,
            gps_accuracy,
            nonce,
            last_nonce,
            now,
        ) is None,
{
}

/// A timestamp more than 300 units after network time, or more than 1800
/// units before it, is always rejected.
pub proof fn lemma_timestamp_window(
    temperature: i16,
    pressure: u32,
    timestamp: i64,
    gps_accuracy: u16,
    nonce: u64,
    last_nonce: u64,
    now: i64,
)
    ensures
        timestamp > now + 300 ==> admission_error(
            temperature,
            pressure,
            timestamp,
            gps_accuracy,
            nonce,
            last_nonce,
            now,
        ) == Some(ThermoError::FutureTimestamp),
        timestamp < now - 1800 ==> admission_error(
            temperature,
            pressure,
            timestamp,
            gps_accuracy,
            nonce,
            last_nonce,
            now,
        ) == Some(ThermoError::StaleReading),
{
}

/// Confidence lies in [0, 100] for every set of samples.
pub proof fn lemma_confidence_bounded(s: Seq<i16>)
    ensures
        0 <= confidence_of(s) <= 100,
{
}

/// The volume part of confidence never decreases as samples are added, and
/// stops growing at 70.
pub proof fn lemma_base_confidence_monotonic(m: nat, n: nat)
    requires
        m <= n,
    ensures
        base_confidence(m as int) <= base_confidence(n as int) <= 70,
        n < 7 ==> base_confidence(m as int) < base_confidence(n as int) || m == n,
{
}

/// With more samples, confidence does not decrease unless their agreement
/// bonus does.
pub proof fn lemma_confidence_monotonic(a: Seq<i16>, b: Seq<i16>)
    requires
        a.len() <= b.len(),
        dispersion_bonus(a) <= dispersion_bonus(b),
    ensures
        confidence_of(a) <= confidence_of(b),
{
}

/// For samples already in ascending order, the median is the middle element
/// when their number is odd, and the truncated average of the two middle
/// elements when it is even.
pub proof fn lemma_median_of_sorted_input(s: Seq<i16>)
    requires
        s.len() > 0,
        sorted_by(s, sample_order()),
    ensures
        s.len() % 2 == 1 ==> median_of_sorted(sorted_samples(s)) == s[s.len() as int / 2] as int,
        s.len() % 2 == 0 ==> median_of_sorted(sorted_samples(s)) == trunc_half(
            s[s.len() as int / 2 - 1] + s[s.len() as int / 2],
        ),
{
    s.lemma_sort_by_ensures(sample_order());
    vstd::seq_lib::lemma_sorted_unique(s, sorted_samples(s), sample_order());
}

} // verus!
