use sensor_gateway::record::SensorData;
use sensor_gateway::session::{AppState, LineEvent};
use sensor_gateway::settings::{EdgeImpulseConfig, InfluxConfig, ServerConfig, Settings};
use sensor_gateway::status::Mode;

fn settings() -> Settings {
    Settings::new(
        ServerConfig { host: "127.0.0.1".to_string(), port: 8080, arduino_port: 8082 },
        InfluxConfig {
            url: "http://localhost:8086".to_string(),
            org: "lab".to_string(),
            bucket: "sensors".to_string(),
            token: "t".to_string(),
        },
        EdgeImpulseConfig { api_key: "k".to_string() },
    )
}

fn idle_record() -> SensorData {
    SensorData {
        ts: 1,
        state: "idle".to_string(),
        motor_a_duty: 0,
        motor_b_duty: 0,
        gmxxx_ch1: 10,
        gmxxx_ch2: 0,
        gmxxx_ch3: 0,
        gmxxx_ch4: 0,
        mics5524_raw: 0,
        co_mics_bits: 0.0f32.to_bits(),
        eth_mics_bits: 0.0f32.to_bits(),
        voc_mics_bits: 0.0f32.to_bits(),
        no2_gm_bits: 0.0f32.to_bits(),
        c2h5oh_gm_bits: 0.0f32.to_bits(),
        voc_gm_bits: 0.0f32.to_bits(),
        co_gm_bits: 0.0f32.to_bits(),
        current_level: 0,
    }
}

fn record(ts: u64, state: &str, co: f32) -> SensorData {
    let mut r = idle_record();
    r.ts = ts;
    r.state = state.to_string();
    r.co_mics_bits = co.to_bits();
    r
}

#[test]
fn new_state_is_idle_and_empty() {
    let mut state = AppState::new(settings());
    assert!(!state.status.is_sampling);
    assert_eq!(state.status.current_sample_id, None);
    assert_eq!(state.status.mode, Mode::Real);
    assert!(!state.status.serial_connected);
    assert_eq!(state.status.serial_port, None);
    assert!(state.session_data().is_empty());
    assert_eq!(state.settings.server.arduino_port, 8082);
    let mut logs = state.log_tx.subscribe();
    assert_eq!(state.data_tx.send(idle_record()), 0);
    assert_eq!(logs.try_next(), None);
}

#[test]
fn frame_while_idle_is_published_once_and_not_buffered() {
    let mut state = AppState::new(settings());
    let mut telemetry = state.data_tx.subscribe();
    let outcome = state.ingest(LineEvent::Frame(idle_record()));
    assert!(outcome.keep_open);
    assert!(outcome.persist.is_none());
    assert_eq!(state.session_data().len(), 0);
    assert_eq!(telemetry.try_next(), Some(idle_record()));
    assert_eq!(telemetry.try_next(), None);
}

#[test]
fn published_record_equals_the_ingested_one() {
    let mut state = AppState::new(settings());
    let mut telemetry = state.data_tx.subscribe();
    let sent = record(77, "sampling", 1.25);
    state.ingest(LineEvent::Frame(sent.clone()));
    let seen = telemetry.try_next().unwrap();
    assert_eq!(seen, sent);
    assert_eq!(f32::from_bits(seen.co_mics_bits), 1.25);
    assert_eq!(seen.gmxxx_ch1, 10);
}

#[test]
fn one_frame_between_start_and_stop() {
    let mut state = AppState::new(settings());
    let before = chrono::Utc::now().timestamp();
    let id = state.start("cal1");
    let after = chrono::Utc::now().timestamp();
    let stamp: i64 = id.strip_prefix("cal1_").unwrap().parse().unwrap();
    assert!(before <= stamp && stamp <= after);
    assert_eq!(id, format!("cal1_{}", stamp));
    assert_eq!(state.status.current_sample_id, Some(id.clone()));
    let outcome = state.ingest(LineEvent::Frame(idle_record()));
    let request = outcome.persist.unwrap();
    assert_eq!(request.sample_id, id);
    assert_eq!(request.record, idle_record());
    state.stop();
    assert_eq!(state.session_data().len(), 1);
    assert_eq!(state.session_data()[0], idle_record());
    assert!(!state.status.is_sampling);
}

#[test]
fn start_at_names_the_session() {
    let mut state = AppState::new(settings());
    assert_eq!(state.start_at("cal1", 1700000000), "cal1_1700000000");
    assert!(state.status.is_sampling);
    assert_eq!(state.status.current_sample_id, Some("cal1_1700000000".to_string()));
    assert_eq!(state.start_at("", 0), "_0");
    assert_eq!(state.start_at("a_b", -5), "a_b_-5");
    assert_eq!(state.status.current_sample_id, Some("a_b_-5".to_string()));
}

#[test]
fn start_empties_a_filled_buffer() {
    let mut state = AppState::new(settings());
    state.start_at("first", 10);
    state.ingest(LineEvent::Frame(record(1, "a", 0.5)));
    state.ingest(LineEvent::Frame(record(2, "b", 0.5)));
    assert_eq!(state.session_data().len(), 2);
    state.start_at("second", 20);
    assert_eq!(state.session_data().len(), 0);
    assert_eq!(state.status.current_sample_id, Some("second_20".to_string()));
}

#[test]
fn start_then_stop_without_frames() {
    let mut state = AppState::new(settings());
    state.start_at("empty", 5);
    state.stop();
    assert!(state.session_data().is_empty());
    assert!(!state.status.is_sampling);
    assert_eq!(state.status.current_sample_id, None);
}

#[test]
fn buffer_keeps_ingestion_order_and_stops_growing_after_stop() {
    let mut state = AppState::new(settings());
    state.ingest(LineEvent::Frame(record(1, "early", 0.0)));
    state.start_at("run", 1);
    state.ingest(LineEvent::Frame(record(2, "x", 0.0)));
    state.ingest(LineEvent::Frame(record(3, "y", 0.0)));
    state.stop();
    state.ingest(LineEvent::Frame(record(4, "late", 0.0)));
    let seen: Vec<u64> = state.session_data().iter().map(|r| r.ts).collect();
    assert_eq!(seen, vec![2, 3]);
}

#[test]
fn malformed_line_is_logged_and_changes_nothing_else() {
    let mut state = AppState::new(settings());
    state.start_at("run", 1);
    let mut telemetry = state.data_tx.subscribe();
    let mut logs = state.log_tx.subscribe();
    let outcome = state.ingest(LineEvent::Malformed {
        reason: "expected value at line 1 column 1".to_string(),
        line: "not json".to_string(),
    });
    assert!(outcome.keep_open);
    assert!(outcome.persist.is_none());
    assert!(state.session_data().is_empty());
    assert_eq!(telemetry.try_next(), None);
    assert_eq!(
        logs.try_next(),
        Some("[WARN] Failed to parse JSON: expected value at line 1 column 1 | Data: not json".to_string())
    );
    assert_eq!(logs.try_next(), None);
    let next = state.ingest(LineEvent::Frame(idle_record()));
    assert!(next.keep_open);
    assert_eq!(state.session_data().len(), 1);
}

#[test]
fn read_error_and_end_of_stream_close_the_connection() {
    let mut state = AppState::new(settings());
    let mut logs = state.log_tx.subscribe();
    let closed = state.ingest(LineEvent::Closed);
    assert!(!closed.keep_open);
    assert!(closed.persist.is_none());
    assert_eq!(logs.try_next(), None);
    let failed = state.ingest(LineEvent::ReadError("connection reset".to_string()));
    assert!(!failed.keep_open);
    assert!(failed.persist.is_none());
    assert_eq!(logs.try_next(), Some("[ERROR] Socket read error: connection reset".to_string()));
    assert!(state.session_data().is_empty());
}

#[test]
fn frame_is_logged_with_its_state() {
    let mut state = AppState::new(settings());
    let mut logs = state.log_tx.subscribe();
    state.ingest(LineEvent::Frame(record(9, "purge", 0.0)));
    assert_eq!(logs.try_next(), Some("[DEBUG] Data received: State=purge".to_string()));
}

#[test]
fn sampling_without_a_sample_id_persists_under_the_empty_id() {
    let mut state = AppState::new(settings());
    state.status.is_sampling = true;
    let outcome = state.ingest(LineEvent::Frame(idle_record()));
    assert_eq!(outcome.persist.unwrap().sample_id, "");
    assert_eq!(state.session_data().len(), 1);
}

#[test]
fn start_and_stop_relay_commands_and_log() {
    let mut state = AppState::new(settings());
    let mut commands = state.cmd_tx.subscribe();
    let mut logs = state.log_tx.subscribe();
    state.start_at("cal1", 42);
    assert_eq!(commands.try_next(), Some("START_SAMPLING".to_string()));
    assert_eq!(commands.try_next(), None);
    assert_eq!(logs.try_next(), Some("[INFO] Started sampling: cal1_42".to_string()));
    state.stop();
    assert_eq!(commands.try_next(), Some("STOP_SAMPLING".to_string()));
    assert_eq!(logs.try_next(), Some("[INFO] Stopped sampling".to_string()));
    assert_eq!(logs.try_next(), None);
}

#[test]
fn reset_empties_the_buffer_and_keeps_the_session() {
    let mut state = AppState::new(settings());
    let mut logs = state.log_tx.subscribe();
    state.start_at("run", 3);
    state.ingest(LineEvent::Frame(idle_record()));
    state.reset();
    assert!(state.session_data().is_empty());
    assert!(state.status.is_sampling);
    assert_eq!(state.status.current_sample_id, Some("run_3".to_string()));
    assert_eq!(logs.try_next(), Some("[INFO] Started sampling: run_3".to_string()));
    assert_eq!(logs.try_next(), Some("[DEBUG] Data received: State=idle".to_string()));
    assert_eq!(logs.try_next(), Some("[INFO] System Reset".to_string()));
}

#[test]
fn log_publishes_the_message() {
    let mut state = AppState::new(settings());
    state.log("before anyone listens".to_string());
    let mut logs = state.log_tx.subscribe();
    state.log("hello".to_string());
    assert_eq!(logs.try_next(), Some("hello".to_string()));
    assert_eq!(logs.try_next(), None);
}

#[test]
fn persist_failure_is_logged_and_leaves_the_buffer() {
    let mut state = AppState::new(settings());
    state.start_at("run", 1);
    state.ingest(LineEvent::Frame(idle_record()));
    let mut logs = state.log_tx.subscribe();
    state.persist_failed("timeout");
    assert_eq!(logs.try_next(), Some("[ERROR] InfluxDB write failed: timeout".to_string()));
    assert_eq!(state.session_data().len(), 1);
    assert!(state.status.is_sampling);
}

#[test]
fn desired_serial_connection_is_recorded() {
    let mut state = AppState::new(settings());
    state.connect_serial("/dev/ttyUSB0".to_string());
    assert!(state.status.serial_connected);
    assert_eq!(state.status.serial_port, Some("/dev/ttyUSB0".to_string()));
    state.disconnect_serial();
    assert!(!state.status.serial_connected);
    assert_eq!(state.status.serial_port, Some("/dev/ttyUSB0".to_string()));
    assert!(!state.status.is_sampling);
}

#[test]
fn settings_are_assembled_unchanged() {
    let s = settings();
    assert_eq!(s.server.host, "127.0.0.1");
    assert_eq!(s.server.port, 8080);
    assert_eq!(s.server.arduino_port, 8082);
    assert_eq!(s.influxdb.url, "http://localhost:8086");
    assert_eq!(s.influxdb.org, "lab");
    assert_eq!(s.influxdb.bucket, "sensors");
    assert_eq!(s.influxdb.token, "t");
    assert_eq!(s.edge_impulse.api_key, "k");
}
