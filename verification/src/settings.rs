//! Static configuration of the gateway, as plain values.

use vstd::prelude::*;

verus! {

/// Where the gateway listens: the control surface and the device stream.
#[derive(Debug, Clone)]
pub struct ServerConfig {
    pub host: String,
    pub port: u16,
    pub arduino_port: u16,
}

/// How to reach the time-series store.
#[derive(Debug, Clone)]
pub struct InfluxConfig {
    pub url: String,
    pub org: String,
    pub bucket: String,
    pub token: String,
}

/// Credentials of the model-training service.
#[derive(Debug, Clone)]
pub struct EdgeImpulseConfig {
    pub api_key: String,
}

/// The whole configuration.
#[derive(Debug, Clone)]
pub struct Settings {
    pub server: ServerConfig,
    pub influxdb: InfluxConfig,
    pub edge_impulse: EdgeImpulseConfig,
}

impl Settings {
    /// Assembles the configuration from its three sections, unchanged.
    pub fn new(server: ServerConfig, influxdb: InfluxConfig, edge_impulse: EdgeImpulseConfig) -> (settings: Self)
        ensures
            settings.server == server,
            settings.influxdb == influxdb,
            settings.edge_impulse == edge_impulse,
    {
        Settings { server, influxdb, edge_impulse }
    }
}

} // verus!
