use thermo_net::aggregation::{aggregate_tile, calculate_confidence};
use thermo_net::digest::{reading_hash, reading_message};
use thermo_net::economics::{compute_reward, reward_mint, slash_device};
use thermo_net::state::{initialize_program, query_tile, DeviceReputation, HexTile, ThermoError};
use thermo_net::submission::{submit_reading, validate_reading, Submission};

const DEVICE: [u8; 32] = [7u8; 32];
const HEX: [u8; 8] = [1, 2, 3, 4, 5, 6, 7, 8];
const NOW: i64 = 1_700_000_000;

fn submit(rep: &mut DeviceReputation, temperature: i16, pressure: u32, timestamp: i64, gps: u16, nonce: u64, now: i64) -> Result<Submission, ThermoError> {
    submit_reading(rep, DEVICE, HEX, temperature, pressure, timestamp, gps, [9u8; 64], nonce, now)
}

fn rep_with(score: u32, streak: u16, stake: u64) -> DeviceReputation {
    let mut rep = DeviceReputation::new(DEVICE, 254);
    rep.reputation_score = score;
    rep.streak_days = streak;
    rep.stake_amount = stake;
    rep
}

#[test]
fn accepted_reading_updates_reputation() {
    let mut rep = DeviceReputation::new(DEVICE, 1);
    let s = submit(&mut rep, 2150, 101325, NOW, 300, 1, NOW).unwrap();
    assert_eq!(rep.total_submissions, 1);
    assert_eq!(rep.last_submission, NOW);
    assert_eq!(rep.last_nonce, 1);
    assert_eq!(rep.streak_days, 1);
    assert_eq!(s.reading.device_pubkey, DEVICE);
    assert_eq!(s.reading.hex_id, HEX);
    assert_eq!(s.reading.temperature, 2150);
    assert_eq!(s.reading.pressure, 101325);
    assert_eq!(s.reading.timestamp, NOW);
    assert_eq!(s.reading.gps_accuracy, 300);
    assert_eq!(s.reading.signature, [9u8; 64]);
    assert_eq!(s.reading.nonce, 1);
    assert_eq!(s.event.device, DEVICE);
    assert_eq!(s.event.temperature, 2150);
    assert_eq!(s.message_hash, reading_hash(HEX, 2150, 101325, NOW));
}

#[test]
fn nonces_must_strictly_increase() {
    let mut rep = DeviceReputation::new(DEVICE, 1);
    assert!(submit(&mut rep, 2150, 101325, NOW, 300, 5, NOW).is_ok());
    let before = rep;
    assert_eq!(submit(&mut rep, 2150, 101325, NOW + 10, 300, 5, NOW + 10).unwrap_err(), ThermoError::InvalidNonce);
    assert_eq!(submit(&mut rep, 2150, 101325, NOW + 10, 300, 4, NOW + 10).unwrap_err(), ThermoError::InvalidNonce);
    assert_eq!(rep.last_nonce, before.last_nonce);
    assert_eq!(rep.total_submissions, before.total_submissions);
    assert!(submit(&mut rep, 2150, 101325, NOW + 10, 300, 6, NOW + 10).is_ok());
    assert_eq!(rep.last_nonce, 6);
    assert_eq!(rep.total_submissions, 2);
}

#[test]
fn temperature_and_pressure_ranges() {
    let mut rep = DeviceReputation::new(DEVICE, 1);
    assert_eq!(submit(&mut rep, -5001, 101325, NOW, 0, 1, NOW).unwrap_err(), ThermoError::InvalidTemperature);
    assert_eq!(submit(&mut rep, 8501, 101325, NOW, 0, 1, NOW).unwrap_err(), ThermoError::InvalidTemperature);
    assert_eq!(submit(&mut rep, 2000, 79999, NOW, 0, 1, NOW).unwrap_err(), ThermoError::InvalidPressure);
    assert_eq!(submit(&mut rep, 2000, 120001, NOW, 0, 1, NOW).unwrap_err(), ThermoError::InvalidPressure);
    assert_eq!(rep.total_submissions, 0);
    assert!(submit(&mut rep, -5000, 80000, NOW, 0, 1, NOW).is_ok());
    assert!(submit(&mut rep, 8500, 120000, NOW, 0, 2, NOW).is_ok());
    assert_eq!(rep.total_submissions, 2);
}

#[test]
fn timestamp_window() {
    assert_eq!(validate_reading(2000, 100000, NOW + 301, 0, 1, 0, NOW), Err(ThermoError::FutureTimestamp));
    assert_eq!(validate_reading(2000, 100000, NOW - 1801, 0, 1, 0, NOW), Err(ThermoError::StaleReading));
    assert_eq!(validate_reading(2000, 100000, NOW + 300, 0, 1, 0, NOW), Ok(()));
    assert_eq!(validate_reading(2000, 100000, NOW - 1800, 0, 1, 0, NOW), Ok(()));
    assert_eq!(validate_reading(2000, 100000, i64::MAX, 0, 1, 0, i64::MAX - 10), Ok(()));
    assert_eq!(validate_reading(2000, 100000, i64::MIN, 0, 1, 0, i64::MAX), Err(ThermoError::StaleReading));
}

#[test]
fn gps_accuracy_limit() {
    assert_eq!(validate_reading(2000, 100000, NOW, 5001, 1, 0, NOW), Err(ThermoError::PoorGpsAccuracy));
    assert_eq!(validate_reading(2000, 100000, NOW, 5000, 1, 0, NOW), Ok(()));
}

#[test]
fn checks_come_in_order() {
    assert_eq!(validate_reading(9000, 1, NOW + 301, 6000, 0, 0, NOW), Err(ThermoError::FutureTimestamp));
    assert_eq!(validate_reading(9000, 1, NOW, 6000, 0, 0, NOW), Err(ThermoError::InvalidNonce));
    assert_eq!(validate_reading(9000, 1, NOW, 6000, 1, 0, NOW), Err(ThermoError::PoorGpsAccuracy));
    assert_eq!(validate_reading(9000, 1, NOW, 0, 1, 0, NOW), Err(ThermoError::InvalidTemperature));
}

#[test]
fn streak_counts_from_previous_submission() {
    let mut rep = DeviceReputation::new(DEVICE, 1);
    submit(&mut rep, 2000, 100000, NOW, 0, 1, NOW).unwrap();
    assert_eq!(rep.streak_days, 1);
    submit(&mut rep, 2000, 100000, NOW + 86400, 0, 2, NOW + 86400).unwrap();
    assert_eq!(rep.streak_days, 2);
    submit(&mut rep, 2000, 100000, NOW + 2 * 86400 + 1, 0, 3, NOW + 2 * 86400 + 1).unwrap();
    assert_eq!(rep.streak_days, 1);
}

#[test]
fn message_bytes_and_digest() {
    let msg = reading_message(HEX, -2, 0x0102_0304, -1);
    let mut expected: Vec<u8> = HEX.to_vec();
    expected.extend_from_slice(&(-2i16).to_le_bytes());
    expected.extend_from_slice(&0x0102_0304u32.to_le_bytes());
    expected.extend_from_slice(&(-1i64).to_le_bytes());
    assert_eq!(msg, expected);
    let h = reading_hash(HEX, 2150, 101325, NOW);
    let direct = solana_program::keccak::hashv(&[&HEX, &2150i16.to_le_bytes(), &101325u32.to_le_bytes(), &NOW.to_le_bytes()]).to_bytes();
    assert_eq!(h, direct);
    assert_ne!(h.to_vec(), reading_message(HEX, 2150, 101325, NOW));
    assert_ne!(h, reading_hash(HEX, 2151, 101325, NOW));
}

#[test]
fn median_and_confidence_of_three_samples() {
    let mut tile = HexTile::new(HEX, 3);
    aggregate_tile(&mut tile, HEX, vec![2150, 2180, 2120], NOW);
    assert_eq!(tile.median_temp, 2150);
    assert_eq!(tile.confidence, 50);
    assert_eq!(tile.sample_count, 3);
    assert_eq!(tile.last_updated, NOW);
    assert_eq!(tile.hex_id, HEX);
    assert_eq!(tile.bump, 3);
}

#[test]
fn median_of_even_count_truncates() {
    let mut tile = HexTile::new(HEX, 0);
    aggregate_tile(&mut tile, HEX, vec![2001, 2000], NOW);
    assert_eq!(tile.median_temp, 2000);
    assert_eq!(tile.confidence, 20);
    aggregate_tile(&mut tile, HEX, vec![-2, -3, 10, -10], NOW + 1);
    assert_eq!(tile.median_temp, -2);
    assert_eq!(tile.sample_count, 4);
    aggregate_tile(&mut tile, HEX, vec![i16::MAX, i16::MAX], NOW + 2);
    assert_eq!(tile.median_temp, i16::MAX);
}

#[test]
fn empty_aggregation_leaves_tile() {
    let mut tile = HexTile::new(HEX, 0);
    aggregate_tile(&mut tile, HEX, vec![2150, 2180, 2120], NOW);
    aggregate_tile(&mut tile, [0u8; 8], vec![], NOW + 100);
    assert_eq!(tile.hex_id, HEX);
    assert_eq!(tile.median_temp, 2150);
    assert_eq!(tile.sample_count, 3);
    assert_eq!(tile.confidence, 50);
    assert_eq!(tile.last_updated, NOW);
}

#[test]
fn confidence_levels() {
    assert_eq!(calculate_confidence(&[]), 0);
    assert_eq!(calculate_confidence(&[2000]), 10);
    assert_eq!(calculate_confidence(&[2000, 9000]), 20);
    assert_eq!(calculate_confidence(&[2000, 2100, 2200]), 40);
    assert_eq!(calculate_confidence(&[1000, 2000, 3000]), 30);
    assert_eq!(calculate_confidence(&[2000; 8]), 90);
    assert_eq!(calculate_confidence(&[2000; 3]), 50);
    assert_eq!(calculate_confidence(&[0, 0, 0, 1000]), 40);
    assert_eq!(calculate_confidence(&[i16::MIN, i16::MAX, i16::MIN]), 30);
}

#[test]
fn reward_example() {
    let rep = rep_with(5000, 10, 0);
    assert_eq!(compute_reward(&rep), (600, 6));
    let ev = reward_mint(DEVICE, &rep);
    assert_eq!(ev.device, DEVICE);
    assert_eq!(ev.temp_amount, 600);
    assert_eq!(ev.bonk_amount, 6);
}

#[test]
fn reward_streak_caps_at_thirty_days() {
    assert_eq!(compute_reward(&rep_with(0, 45, 0)), (300, 3));
    assert_eq!(compute_reward(&rep_with(0, 0, 0)), (0, 0));
    assert_eq!(compute_reward(&rep_with(u32::MAX, u16::MAX, 0)), (429496729 + 300, 4294970));
}

#[test]
fn slash_example() {
    let mut rep = rep_with(1500, 0, 2000);
    let ev = slash_device(&mut rep, DEVICE, 500).unwrap();
    assert_eq!(rep.stake_amount, 1500);
    assert_eq!(rep.reputation_score, 500);
    assert_eq!(rep.slash_count, 1);
    assert_eq!(ev.amount, 500);
    assert_eq!(ev.new_reputation, 500);
    assert_eq!(ev.device, DEVICE);
    slash_device(&mut rep, DEVICE, 1500).unwrap();
    assert_eq!(rep.stake_amount, 0);
    assert_eq!(rep.reputation_score, 0);
    assert_eq!(rep.slash_count, 2);
}

#[test]
fn slash_beyond_stake_fails() {
    let mut rep = rep_with(1500, 0, 2000);
    assert_eq!(slash_device(&mut rep, DEVICE, 2001).unwrap_err(), ThermoError::InsufficientStake);
    assert_eq!(rep.stake_amount, 2000);
    assert_eq!(rep.reputation_score, 1500);
    assert_eq!(rep.slash_count, 0);
}

#[test]
fn initialize_and_query() {
    let st = initialize_program([1u8; 32], [2u8; 32], [3u8; 32], 255);
    assert_eq!(st.authority, [1u8; 32]);
    assert_eq!(st.temp_mint, [2u8; 32]);
    assert_eq!(st.bonk_mint, [3u8; 32]);
    assert_eq!(st.total_tiles, 0);
    assert_eq!(st.total_readings, 0);
    assert_eq!(st.bump, 255);
    let mut tile = HexTile::new(HEX, 0);
    aggregate_tile(&mut tile, HEX, vec![2150, 2180, 2120], NOW);
    let d = query_tile(&tile);
    assert_eq!(d.hex_id, HEX);
    assert_eq!(d.median_temp, 2150);
    assert_eq!(d.last_updated, NOW);
    assert_eq!(d.confidence, 50);
    assert_eq!(d.sample_count, 3);
}

#[test]
fn error_messages() {
    assert_eq!(ThermoError::InsufficientStake.message(), "Insufficient stake for slashing");
    assert_eq!(ThermoError::FutureTimestamp.message(), "Reading timestamp is in the future");
}

#[test]
fn rejection_at_counter_caps_changes_nothing() {
    let mut rep = rep_with(0, u16::MAX, 0);
    rep.total_submissions = u64::MAX;
    rep.last_nonce = 5;
    rep.last_submission = NOW;
    assert_eq!(submit(&mut rep, 2000, 100000, NOW, 0, 5, NOW).unwrap_err(), ThermoError::InvalidNonce);
    assert_eq!(submit(&mut rep, 9000, 100000, NOW, 0, 6, NOW).unwrap_err(), ThermoError::InvalidTemperature);
    assert_eq!(rep.streak_days, u16::MAX);
    assert_eq!(rep.total_submissions, u64::MAX);
    assert_eq!(rep.last_nonce, 5);
}

#[test]
fn streak_restarts_at_cap() {
    let mut rep = rep_with(0, u16::MAX, 0);
    rep.last_submission = NOW - 2 * 86400;
    submit(&mut rep, 2000, 100000, NOW, 0, 1, NOW).unwrap();
    assert_eq!(rep.streak_days, 1);
}

#[test]
fn failed_slash_at_count_cap() {
    let mut rep = rep_with(1500, 0, 100);
    rep.slash_count = u8::MAX;
    assert_eq!(slash_device(&mut rep, DEVICE, 101).unwrap_err(), ThermoError::InsufficientStake);
    assert_eq!(rep.slash_count, u8::MAX);
    assert_eq!(rep.stake_amount, 100);
    assert_eq!(rep.reputation_score, 1500);
}
