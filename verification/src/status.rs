//! The status record that every part of the gateway reads and a few write.

use vstd::prelude::*;

verus! {

/// Where the telemetry comes from.
#[derive(Debug, Clone, Copy, PartialEq, Eq, Structural)]
pub enum Mode {
    Real,
    Simulation,
}

/// The shared status record.
#[derive(Debug)]
pub struct Status {
    pub is_sampling: bool,
    pub current_sample_id: Option<String>,
    pub mode: Mode,
    pub serial_connected: bool,
    pub serial_port: Option<String>,
}

impl Status {
    /// A sample id is present exactly while a session is running.
    pub open spec fn wf(&self) -> bool {
        self.current_sample_id.is_some() <==> self.is_sampling
    }

    /// The status of a gateway that has just started: no session, no serial
    /// link wanted, real telemetry.
    pub open spec fn is_idle(&self) -> bool {
        &&& !self.is_sampling
        &&& self.current_sample_id.is_none()
        &&& self.mode == Mode::Real
        &&& !self.serial_connected
        &&& self.serial_port.is_none()
    }

    /// The status of a gateway that has just started.
    pub fn new() -> (status: Self)
        ensures
            status.is_idle(),
            status.wf(),
    {
        Status {
            is_sampling: false,
            current_sample_id: None,
            mode: Mode::Real,
            serial_connected: false,
            serial_port: None,
        }
    }
}

} // verus!
