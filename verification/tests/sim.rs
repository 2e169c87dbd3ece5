use sensor_gateway::session::AppState;
use sensor_gateway::settings::{EdgeImpulseConfig, InfluxConfig, ServerConfig, Settings};
use sensor_gateway::sim::{Operation, SignalParams, SimConfig, SimDataPoint, ONE_BITS, ZERO_BITS};

fn fresh() -> AppState {
    AppState::new(Settings::new(
        ServerConfig { host: "h".to_string(), port: 1, arduino_port: 2 },
        InfluxConfig {
            url: "u".to_string(),
            org: "o".to_string(),
            bucket: "b".to_string(),
            token: "t".to_string(),
        },
        EdgeImpulseConfig { api_key: "k".to_string() },
    ))
}

fn point(time: f64, x1: f64, x2: f64, y: f64) -> SimDataPoint {
    SimDataPoint {
        time_bits: time.to_bits(),
        x1_bits: x1.to_bits(),
        x2_bits: x2.to_bits(),
        y_bits: y.to_bits(),
    }
}

#[test]
fn default_signal_is_a_unit_sinusoid() {
    let s = SignalParams::default();
    assert_eq!(f64::from_bits(s.amplitude_bits), 1.0);
    assert_eq!(f64::from_bits(s.frequency_bits), 1.0);
    assert_eq!(f64::from_bits(s.phase_bits), 0.0);
    assert_eq!(ONE_BITS, 1.0f64.to_bits());
    assert_eq!(ZERO_BITS, 0.0f64.to_bits());
}

#[test]
fn default_generator_adds_and_does_not_run() {
    let c = SimConfig::default();
    assert_eq!(c.signal1, SignalParams::default());
    assert_eq!(c.signal2, SignalParams::default());
    assert_eq!(c.operation, Operation::Add);
    assert!(!c.running);
    assert_eq!(fresh().sim, c);
}

#[test]
fn points_are_published_only_while_the_generator_runs() {
    let mut state = fresh();
    let mut stream = state.sim_tx.subscribe();
    assert!(!state.sim_publish(point(0.0, 0.0, 0.0, 0.0)));
    assert_eq!(stream.try_next(), None);
    state.sim_start();
    assert!(state.sim.running);
    let p = point(0.25, 1.0, 0.0, 1.0);
    assert!(state.sim_publish(p));
    assert_eq!(stream.try_next(), Some(p));
    assert_eq!(stream.try_next(), None);
    state.sim_stop();
    assert!(!state.sim.running);
    assert!(!state.sim_publish(p));
    assert_eq!(stream.try_next(), None);
}

#[test]
fn stopping_keeps_the_parameters() {
    let mut state = fresh();
    let a = SignalParams {
        amplitude_bits: 2.0f64.to_bits(),
        frequency_bits: 0.5f64.to_bits(),
        phase_bits: 90.0f64.to_bits(),
    };
    let b = SignalParams {
        amplitude_bits: ZERO_BITS,
        frequency_bits: ZERO_BITS,
        phase_bits: ZERO_BITS,
    };
    state.sim_start();
    state.sim_update(a, b, Operation::Multiply);
    assert!(state.sim.running);
    state.sim_stop();
    assert_eq!(
        state.sim,
        SimConfig { signal1: a, signal2: b, operation: Operation::Multiply, running: false }
    );
    state.sim_update(b, a, Operation::Subtract);
    assert!(!state.sim.running);
    assert_eq!(state.sim.signal1, b);
    assert_eq!(state.sim.signal2, a);
    assert_eq!(state.sim.operation, Operation::Subtract);
}

#[test]
fn generator_verbs_are_logged_and_leave_the_session() {
    let mut state = fresh();
    state.start_at("run", 9);
    let mut logs = state.log_tx.subscribe();
    state.sim_start();
    state.sim_update(SignalParams::default(), SignalParams::default(), Operation::Add);
    state.sim_stop();
    assert_eq!(logs.try_next(), Some("[INFO] Simulation Started".to_string()));
    assert_eq!(logs.try_next(), Some("[INFO] Simulation Parameters Updated".to_string()));
    assert_eq!(logs.try_next(), Some("[INFO] Simulation Stopped".to_string()));
    assert_eq!(logs.try_next(), None);
    assert!(state.status.is_sampling);
    assert_eq!(state.status.current_sample_id, Some("run_9".to_string()));
}
