use vstd::prelude::*;

use crate::digest::{keccak256_of, reading_hash, reading_message_spec};
use crate::state::{DeviceReputation, Reading, ReadingSubmitted, ThermoError};

verus! {

/// Largest distance into the future that a claimed timestamp may have.
pub const MAX_FUTURE_SKEW: i64 = 300;

/// Largest age that a claimed timestamp may have.
pub const MAX_READING_AGE: i64 = 1800;

/// Largest accepted GPS accuracy value (50 m in hundredths of a metre).
pub const MAX_GPS_ACCURACY: u16 = 5000;

/// Largest gap between two submissions that keeps a streak going.
pub const STREAK_WINDOW: i64 = 86400;

/// The first failed admission check, in the order the checks are made, or
/// `None` when the reading is admitted.
pub open spec fn admission_error(
    temperature: i16,
    pressure: u32,
    timestamp: i64,
    gps_accuracy: u16,
    nonce: u64,
    last_nonce: u64,
    now: i64,
) -> Option<ThermoError> {
    if timestamp > now + 300 {
        Some(ThermoError::FutureTimestamp)
    } else if timestamp < now - 1800 {
        Some(ThermoError::StaleReading)
    } else if nonce <= last_nonce {
        Some(ThermoError::InvalidNonce)
    } else if gps_accuracy > 5000 {
        Some(ThermoError::PoorGpsAccuracy)
    } else if !(-5000 <= temperature <= 8500) {
        Some(ThermoError::InvalidTemperature)
    } else if !(80000 <= pressure <= 120000) {
        Some(ThermoError::InvalidPressure)
    } else {
        None
    }
}

/// The streak after a reading at `timestamp`, given the streak and the time
/// of the device's previous accepted reading.
pub open spec fn next_streak(streak_days: u16, previous: i64, timestamp: i64) -> int {
    if timestamp - previous <= 86400 {
        streak_days + 1
    } else {
        1
    }
}

/// The device record after an accepted reading at `timestamp` with `nonce`.
pub open spec fn after_submission(rep: DeviceReputation, timestamp: i64, nonce: u64) -> DeviceReputation {
    DeviceReputation {
        total_submissions: (rep.total_submissions + 1) as u64,
        last_submission: timestamp,
        last_nonce: nonce,
        streak_days: next_streak(rep.streak_days, rep.last_submission, timestamp) as u16,
        ..rep
    }
}

/// Runs the admission checks on a reading, in order, and returns the first
/// that fails.
pub fn validate_reading(
    temperature: i16,
    pressure: u32,
    timestamp: i64,
    gps_accuracy: u16,
    nonce: u64,
    last_nonce: u64,
    now: i64,
) -> (r: Result<(), ThermoError>)
    ensures
        match admission_error(temperature, pressure, timestamp, gps_accuracy, nonce, last_nonce, now) {
            Some(e) => r == Err::<(), ThermoError>(e),
            None => r is Ok,
        },
{
    if timestamp as i128 > now as i128 + MAX_FUTURE_SKEW as i128 {
        return Err(ThermoError::FutureTimestamp);
    }
    if (timestamp as i128) < now as i128 - MAX_READING_AGE as i128 {
        return Err(ThermoError::StaleReading);
    }
    if nonce <= last_nonce {
        return Err(ThermoError::InvalidNonce);
    }
    if gps_accuracy > MAX_GPS_ACCURACY {
        return Err(ThermoError::PoorGpsAccuracy);
    }
    if !(-5000 <= temperature && temperature <= 8500) {
        return Err(ThermoError::InvalidTemperature);
    }
    if !(80000 <= pressure && pressure <= 120000) {
        return Err(ThermoError::InvalidPressure);
    }
    Ok(())
}

/// What an accepted reading produces: the stored record, its notification,
/// and the digest that binds the signature to the reading's fields.
#[derive(Clone, Copy, Debug)]
pub struct Submission {
    pub reading: Reading,
    pub event: ReadingSubmitted,
    pub message_hash: [u8; 32],
}

/// Admits a reading from `device` at network time `now`. On success the
/// device record counts the submission, takes the new time and nonce, and
/// carries its streak on if the previous accepted reading is at most a day
/// older, else restarts it at 1. On failure nothing changes.
pub fn submit_reading(
    rep: &mut DeviceReputation,
    device: [u8; 32],
    hex_id: [u8; 8],
    temperature: i16,
    pressure: u32,
    timestamp: i64,
    gps_accuracy: u16,
    signature: [u8; 64],
    nonce: u64,
    now: i64,
) -> (r: Result<Submission, ThermoError>)
    requires
        admission_error(temperature, pressure, timestamp, gps_accuracy, nonce, old(rep).last_nonce, now)
            is None ==> old(rep).total_submissions < u64::MAX,
        admission_error(temperature, pressure, timestamp, gps_accuracy, nonce, old(rep).last_nonce, now)
            is None && timestamp - old(rep).last_submission <= 86400 ==> old(rep).streak_days
            < u16::MAX,
    ensures
        r is Ok ==> nonce > old(rep).last_nonce && final(rep).last_nonce == nonce,
        match admission_error(
            temperature,
            pressure,
            timestamp,
            gps_accuracy,
            nonce,
            old(rep).last_nonce,
            now,
        ) {
            Some(e) => r == Err::<Submission, ThermoError>(e) && *final(rep) == *old(rep),
            None => r matches Ok(s) && {
                &&& *final(rep) == after_submission(*old(rep), timestamp, nonce)
                &&& s.reading == (Reading {
                    device_pubkey: device,
                    hex_id,
                    temperature,
                    pressure,
                    timestamp,
                    gps_accuracy,
                    signature,
                    nonce,
                })
                &&& s.event == (ReadingSubmitted { device, hex_id, temperature, timestamp })
                &&& s.message_hash@ == keccak256_of(
                    reading_message_spec(hex_id@, temperature, pressure, timestamp),
                )
            },
        },
{
    match validate_reading(temperature, pressure, timestamp, gps_accuracy, nonce, rep.last_nonce, now) {
        Err(e) => return Err(e),
        Ok(()) => {},
    }
    let message_hash = reading_hash(hex_id, temperature, pressure, timestamp);
    let previous = rep.last_submission;
    rep.total_submissions = rep.total_submissions + 1;
    rep.last_submission = timestamp;
    rep.last_nonce = nonce;
    if (timestamp as i128) - (previous as i128) <= STREAK_WINDOW as i128 {
        rep.streak_days = rep.streak_days + 1;
    } else {
        rep.streak_days = 1;
    }
    let reading = Reading {
        device_pubkey: device,
        hex_id,
        temperature,
        pressure,
        timestamp,
        gps_accuracy,
        signature,
        nonce,
    };
    let event = ReadingSubmitted { device, hex_id, temperature, timestamp };
    Ok(Submission { reading, event, message_hash })
}

} // verus!
