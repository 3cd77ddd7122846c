//! Decision core of an environmental-sensor oracle: admission of device
//! readings, device reputation and streak bookkeeping, per-cell aggregation
//! (median and confidence), and the reward and slash formulas.

pub mod state;
pub mod digest;
pub mod submission;
pub mod economics;
pub mod aggregation;
pub mod laws;
