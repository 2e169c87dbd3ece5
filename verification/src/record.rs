//! One decoded sensor frame.

use vstd::prelude::*;

verus! {

/// A telemetry record. The seven calibrated concentrations are carried as the
/// IEEE-754 single-precision bit patterns of the readings, so that a record
/// is compared and copied bit for bit.
#[derive(Debug, PartialEq, Eq)]
pub struct SensorData {
    pub ts: u64,
    pub state: String,
    pub motor_a_duty: i32,
    pub motor_b_duty: i32,
    pub gmxxx_ch1: u32,
    pub gmxxx_ch2: u32,
    pub gmxxx_ch3: u32,
    pub gmxxx_ch4: u32,
    pub mics5524_raw: u32,
    pub co_mics_bits: u32,
    pub eth_mics_bits: u32,
    pub voc_mics_bits: u32,
    pub no2_gm_bits: u32,
    pub c2h5oh_gm_bits: u32,
    pub voc_gm_bits: u32,
    pub co_gm_bits: u32,
    pub current_level: i32,
}

impl Clone for SensorData {
    /// A copy that equals the record in every field.
    fn clone(&self) -> (copy: Self)
        ensures
            copy == *self,
    {
        SensorData {
            ts: self.ts,
            state: self.state.clone(),
            motor_a_duty: self.motor_a_duty,
            motor_b_duty: self.motor_b_duty,
            gmxxx_ch1: self.gmxxx_ch1,
            gmxxx_ch2: self.gmxxx_ch2,
            gmxxx_ch3: self.gmxxx_ch3,
            gmxxx_ch4: self.gmxxx_ch4,
            mics5524_raw: self.mics5524_raw,
            co_mics_bits: self.co_mics_bits,
            eth_mics_bits: self.eth_mics_bits,
            voc_mics_bits: self.voc_mics_bits,
            no2_gm_bits: self.no2_gm_bits,
            c2h5oh_gm_bits: self.c2h5oh_gm_bits,
            voc_gm_bits: self.voc_gm_bits,
            co_gm_bits: self.co_gm_bits,
            current_level: self.current_level,
        }
    }
}

} // verus!
