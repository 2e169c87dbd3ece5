//! Data plane of a sensor gateway: the shared runtime state, the sampling
//! session lifecycle, frame ingestion, the serial link state machine and the
//! fan-out hubs that carry telemetry, log lines and device commands.

pub mod control;
pub mod hub;
pub mod record;
pub mod serial;
pub mod session;
pub mod settings;
pub mod sim;
pub mod status;
pub mod text;
