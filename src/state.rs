use vstd::prelude::*;

verus! {

/// Errors surfaced to the caller of an operation; none of them leaves any
/// state changed.
#[derive(Clone, Copy, Debug, PartialEq, Eq, Structural)]
pub enum ThermoError {
    /// The claimed timestamp lies more than 300 units after network time.
    FutureTimestamp,
    /// The claimed timestamp lies more than 1800 units before network time.
    StaleReading,
    /// The nonce is not above the device's last accepted nonce.
    InvalidNonce,
    /// GPS accuracy is worse than 50 m (5000 hundredths of a metre).
    PoorGpsAccuracy,
    /// Temperature outside [-5000, 8500] hundredths of a degree.
    InvalidTemperature,
    /// Pressure outside [80000, 120000].
    InvalidPressure,
    /// A slash asked for more than the device has staked.
    InsufficientStake,
    /// The signature does not match the reading.
    InvalidSignature,
}

impl ThermoError {
    /// The human-readable message of the error.
    pub fn message(&self) -> (r: &'static str) {
        match self {
            ThermoError::FutureTimestamp => "Reading timestamp is in the future",
            ThermoError::StaleReading => "Reading is too old",
            ThermoError::InvalidNonce => "Invalid nonce - must be greater than last nonce",
            ThermoError::PoorGpsAccuracy => "GPS accuracy too poor (>50m)",
            ThermoError::InvalidTemperature => "Temperature out of valid range (-50 C to 85 C)",
            ThermoError::InvalidPressure => "Pressure out of valid range (800-1200 hPa)",
            ThermoError::InsufficientStake => "Insufficient stake for slashing",
            ThermoError::InvalidSignature => "Invalid signature",
        }
    }
}

/// Singleton configuration: the authority and the two reward-token types.
#[derive(Clone, Copy, Debug)]
pub struct ProgramState {
    pub authority: [u8; 32],
    pub temp_mint: [u8; 32],
    pub bonk_mint: [u8; 32],
    pub total_tiles: u64,
    pub total_readings: u64,
    pub bump: u8,
}

/// Summary of one geographic cell, overwritten on each aggregation.
#[derive(Clone, Copy, Debug)]
pub struct HexTile {
    pub hex_id: [u8; 8],
    pub last_updated: i64,
    pub median_temp: i16,
    pub sample_count: u16,
    pub confidence: u8,
    pub bump: u8,
}

/// Trust, stake and anti-replay state of one device.
#[derive(Clone, Copy, Debug)]
pub struct DeviceReputation {
    pub device_pubkey: [u8; 32],
    pub reputation_score: u32,
    pub total_submissions: u64,
    pub streak_days: u16,
    pub last_submission: i64,
    pub stake_amount: u64,
    pub slash_count: u8,
    pub last_nonce: u64,
    pub bump: u8,
}

/// One accepted submission; never changed once made.
#[derive(Clone, Copy, Debug)]
pub struct Reading {
    pub device_pubkey: [u8; 32],
    pub hex_id: [u8; 8],
    pub temperature: i16,
    pub pressure: u32,
    pub timestamp: i64,
    pub gps_accuracy: u16,
    pub signature: [u8; 64],
    pub nonce: u64,
}

/// Snapshot of a tile handed out by `query_tile`.
#[derive(Clone, Copy, Debug)]
pub struct TileData {
    pub hex_id: [u8; 8],
    pub median_temp: i16,
    pub last_updated: i64,
    pub confidence: u8,
    pub sample_count: u16,
}

/// Notification that a reading was accepted.
#[derive(Clone, Copy, Debug)]
pub struct ReadingSubmitted {
    pub device: [u8; 32],
    pub hex_id: [u8; 8],
    pub temperature: i16,
    pub timestamp: i64,
}

/// Notification that a reward was issued; it also names the two amounts to mint.
#[derive(Clone, Copy, Debug)]
pub struct RewardMinted {
    pub device: [u8; 32],
    pub temp_amount: u64,
    pub bonk_amount: u64,
}

/// Notification that a device was slashed; it also names the amount to burn.
#[derive(Clone, Copy, Debug)]
pub struct DeviceSlashed {
    pub device: [u8; 32],
    pub amount: u64,
    pub new_reputation: u32,
}

impl DeviceReputation {
    /// The record of a device seen for the first time: everything at zero.
    pub fn new(device: [u8; 32], bump: u8) -> (r: DeviceReputation)
        ensures
            r.device_pubkey == device,
            r.bump == bump,
            r.reputation_score == 0,
            r.total_submissions == 0,
            r.streak_days == 0,
            r.last_submission == 0,
            r.stake_amount == 0,
            r.slash_count == 0,
            r.last_nonce == 0,
    {
        DeviceReputation {
            device_pubkey: device,
            reputation_score: 0,
            total_submissions: 0,
            streak_days: 0,
            last_submission: 0,
            stake_amount: 0,
            slash_count: 0,
            last_nonce: 0,
            bump,
        }
    }
}

impl HexTile {
    /// The record of a cell not aggregated yet: everything at zero.
    pub fn new(hex_id: [u8; 8], bump: u8) -> (r: HexTile)
        ensures
            r.hex_id == hex_id,
            r.bump == bump,
            r.last_updated == 0,
            r.median_temp == 0,
            r.sample_count == 0,
            r.confidence == 0,
    {
        HexTile { hex_id, last_updated: 0, median_temp: 0, sample_count: 0, confidence: 0, bump }
    }
}

/// Creates the singleton configuration with both counters at zero.
pub fn initialize_program(authority: [u8; 32], temp_mint: [u8; 32], bonk_mint: [u8; 32], bump: u8) -> (r:
    ProgramState)
    ensures
        r.authority == authority,
        r.temp_mint == temp_mint,
        r.bonk_mint == bonk_mint,
        r.total_tiles == 0,
        r.total_readings == 0,
        r.bump == bump,
{
    ProgramState { authority, temp_mint, bonk_mint, total_tiles: 0, total_readings: 0, bump }
}

/// The snapshot of a tile: its identifier, median, time of update,
/// confidence and sample count.
pub fn query_tile(tile: &HexTile) -> (r: TileData)
    ensures
        r.hex_id == tile.hex_id,
        r.median_temp == tile.median_temp,
        r.last_updated == tile.last_updated,
        r.confidence == tile.confidence,
        r.sample_count == tile.sample_count,
{
    TileData {
        hex_id: tile.hex_id,
        median_temp: tile.median_temp,
        last_updated: tile.last_updated,
        confidence: tile.confidence,
        sample_count: tile.sample_count,
    }
}

} // verus!
