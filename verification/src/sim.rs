//! The configuration of the signal generator and the points it produces.
//! Real numbers are carried as their IEEE-754 double-precision bit patterns:
//! this module stores and hands them on, it does not compute with them.

use vstd::prelude::*;

verus! {

/// The bit pattern of the real number one.
pub const ONE_BITS: u64 = 0x3FF0_0000_0000_0000;

/// The bit pattern of the real number zero.
pub const ZERO_BITS: u64 = 0;

/// One sinusoid: amplitude, frequency in hertz, phase in degrees.
#[derive(Debug, Clone, Copy, PartialEq, Eq, Structural)]
pub struct SignalParams {
    pub amplitude_bits: u64,
    pub frequency_bits: u64,
    pub phase_bits: u64,
}

impl Default for SignalParams {
    /// Amplitude one, frequency one, phase zero.
    fn default() -> (params: Self)
        ensures
            params.amplitude_bits == ONE_BITS,
            params.frequency_bits == ONE_BITS,
            params.phase_bits == ZERO_BITS,
    {
        SignalParams { amplitude_bits: ONE_BITS, frequency_bits: ONE_BITS, phase_bits: ZERO_BITS }
    }
}

/// The binary operation applied to the two generated signals.
#[derive(Debug, Clone, Copy, PartialEq, Eq, Structural)]
pub enum Operation {
    Add,
    Subtract,
    Multiply,
}

/// What the generator produces, and whether it runs.
#[derive(Debug, Clone, Copy, PartialEq, Eq, Structural)]
pub struct SimConfig {
    pub signal1: SignalParams,
    pub signal2: SignalParams,
    pub operation: Operation,
    pub running: bool,
}

impl Default for SimConfig {
    /// Two default signals, added, not running.
    fn default() -> (config: Self)
        ensures
            config.signal1.amplitude_bits == ONE_BITS,
            config.signal1.frequency_bits == ONE_BITS,
            config.signal1.phase_bits == ZERO_BITS,
            config.signal2 == config.signal1,
            config.operation == Operation::Add,
            !config.running,
    {
        SimConfig {
            signal1: SignalParams::default(),
            signal2: SignalParams::default(),
            operation: Operation::Add,
            running: false,
        }
    }
}

/// One generated point: the time in seconds, the two signals and their
/// combination.
#[derive(Debug, Clone, Copy, PartialEq, Eq, Structural)]
pub struct SimDataPoint {
    pub time_bits: u64,
    pub x1_bits: u64,
    pub x2_bits: u64,
    pub y_bits: u64,
}

} // verus!
