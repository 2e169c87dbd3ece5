//! The shared runtime state and the operations on it: the sampling session
//! lifecycle, the desired serial connection, and the ingestion of device
//! frames.

use vstd::prelude::*;
use vstd::string::*;
use crate::hub::Hub;
use crate::record::SensorData;
use crate::settings::Settings;
use crate::sim::{Operation, SignalParams, SimConfig, SimDataPoint, ONE_BITS, ZERO_BITS};
use crate::status::Status;
use crate::text::{append_decimal, decimal};

verus! {

/// The texts of a sequence of strings.
pub open spec fn texts(values: Seq<String>) -> Seq<Seq<char>> {
    values.map_values(|s: String| s@)
}

/// The sample id of a session: its label, an underscore, and the decimal
/// text of the time at which it started, in seconds since the Unix epoch.
pub open spec fn sample_id_text(label: Seq<char>, timestamp: int) -> Seq<char> {
    label + seq!['_'] + decimal(timestamp)
}

/// The command that tells the device to start sampling.
pub open spec fn start_command() -> Seq<char> {
    "START_SAMPLING"@
}

/// The command that tells the device to stop sampling.
pub open spec fn stop_command() -> Seq<char> {
    "STOP_SAMPLING"@
}

/// The log line of a started session.
pub open spec fn started_line(sample_id: Seq<char>) -> Seq<char> {
    "[INFO] Started sampling: "@ + sample_id
}

/// The log line of a stopped session.
pub open spec fn stopped_line() -> Seq<char> {
    "[INFO] Stopped sampling"@
}

/// The log line of a buffer reset.
pub open spec fn reset_line() -> Seq<char> {
    "[INFO] System Reset"@
}

/// The log line of a decoded frame.
pub open spec fn received_line(state: Seq<char>) -> Seq<char> {
    "[DEBUG] Data received: State="@ + state
}

/// The log line of a frame that could not be decoded.
pub open spec fn malformed_line(reason: Seq<char>, line: Seq<char>) -> Seq<char> {
    "[WARN] Failed to parse JSON: "@ + reason + " | Data: "@ + line
}

/// The log line of a failed read.
pub open spec fn read_error_line(reason: Seq<char>) -> Seq<char> {
    "[ERROR] Socket read error: "@ + reason
}

/// The log line of a failed write to the time-series store.
pub open spec fn persist_failed_line(reason: Seq<char>) -> Seq<char> {
    "[ERROR] InfluxDB write failed: "@ + reason
}

/// The log line of a started signal generator.
pub open spec fn sim_started_line() -> Seq<char> {
    "[INFO] Simulation Started"@
}

/// The log line of a stopped signal generator.
pub open spec fn sim_stopped_line() -> Seq<char> {
    "[INFO] Simulation Stopped"@
}

/// The log line of changed generator parameters.
pub open spec fn sim_updated_line() -> Seq<char> {
    "[INFO] Simulation Parameters Updated"@
}

/// What one read on a device connection gave.
pub enum LineEvent {
    /// The stream ended.
    Closed,
    /// A line that decoded to a record.
    Frame(SensorData),
    /// A line that did not decode: why, and the line.
    Malformed { reason: String, line: String },
    /// The read failed.
    ReadError(String),
}

/// A record to hand to the time-series store, with the session it belongs to.
pub struct PersistRequest {
    pub record: SensorData,
    pub sample_id: String,
}

/// What the connection handler does after an event.
pub struct IngestOutcome {
    /// Whether to go on reading the connection.
    pub keep_open: bool,
    /// What to write to the time-series store, if anything.
    pub persist: Option<PersistRequest>,
}

/// The state that all parts of the gateway share.
pub struct AppState {
    pub status: Status,
    pub session_buffer: Vec<SensorData>,
    pub settings: Settings,
    pub data_tx: Hub<SensorData>,
    pub log_tx: Hub<String>,
    pub cmd_tx: Hub<String>,
    pub sim: SimConfig,
    pub sim_tx: Hub<SimDataPoint>,
}

/// `chrono::Utc::now` and `DateTime::timestamp`: the system clock's time in
/// whole seconds since the Unix epoch. Nothing is claimed of the number. (A
/// clock set before 1970 makes chrono panic.)
#[verifier::external_body]
fn unix_now() -> (seconds: i64) {
    chrono::Utc::now().timestamp()
}

/// `head` followed by `tail`.
fn joined(head: &str, tail: &str) -> (text: String)
    ensures
        text@ == head@ + tail@,
{
    let mut text = String::from_str(head);
    text.append(tail);
    text
}

impl AppState {
    /// The log lines published so far.
    pub open spec fn log_lines(&self) -> Seq<Seq<char>> {
        texts(self.log_tx.published())
    }

    /// The device commands published so far.
    pub open spec fn commands(&self) -> Seq<Seq<char>> {
        texts(self.cmd_tx.published())
    }

    /// `next` has the settings and the signal generator's side of `self`.
    pub open spec fn aside_kept(&self, next: &AppState) -> bool {
        &&& next.settings == self.settings
        &&& next.sim == self.sim
        &&& next.sim_tx == self.sim_tx
    }

    /// `next` has the status, the buffer and the telemetry and command hubs
    /// of `self`.
    pub open spec fn session_kept(&self, next: &AppState) -> bool {
        &&& next.status == self.status
        &&& next.session_buffer@ == self.session_buffer@
        &&& next.settings == self.settings
        &&& next.data_tx == self.data_tx
        &&& next.cmd_tx == self.cmd_tx
    }

    /// `next` is `self` after one more log line, `line`, and nothing else.
    pub open spec fn logged(&self, next: &AppState, line: Seq<char>) -> bool {
        &&& next.status == self.status
        &&& next.session_buffer@ == self.session_buffer@
        &&& self.aside_kept(next)
        &&& next.data_tx == self.data_tx
        &&& next.cmd_tx == self.cmd_tx
        &&& next.log_lines() == self.log_lines().push(line)
    }

    /// `next` is `self` after a session was started under `label` at
    /// `timestamp`: sampling, under the new sample id, with an empty buffer,
    /// one start command relayed and one line logged.
    pub open spec fn started(&self, next: &AppState, label: Seq<char>, timestamp: int) -> bool {
        &&& next.status.is_sampling
        &&& next.status.current_sample_id matches Some(id) && id@ == sample_id_text(label, timestamp)
        &&& next.status.mode == self.status.mode
        &&& next.status.serial_connected == self.status.serial_connected
        &&& next.status.serial_port == self.status.serial_port
        &&& next.session_buffer@ == Seq::<SensorData>::empty()
        &&& self.aside_kept(next)
        &&& next.data_tx == self.data_tx
        &&& next.commands() == self.commands().push(start_command())
        &&& next.log_lines() == self.log_lines().push(
            started_line(sample_id_text(label, timestamp)),
        )
    }

    /// `next` is `self` after the session was stopped: not sampling, without
    /// a sample id, the buffer kept, one stop command relayed and one line
    /// logged.
    pub open spec fn stopped(&self, next: &AppState) -> bool {
        &&& !next.status.is_sampling
        &&& next.status.current_sample_id.is_none()
        &&& next.status.mode == self.status.mode
        &&& next.status.serial_connected == self.status.serial_connected
        &&& next.status.serial_port == self.status.serial_port
        &&& next.session_buffer@ == self.session_buffer@
        &&& self.aside_kept(next)
        &&& next.data_tx == self.data_tx
        &&& next.commands() == self.commands().push(stop_command())
        &&& next.log_lines() == self.log_lines().push(stopped_line())
    }

    /// `next` is `self` after `record` was ingested: published to the
    /// telemetry hub and logged in any case; appended to the buffer exactly
    /// when a session is running.
    pub open spec fn ingested(&self, next: &AppState, record: SensorData) -> bool {
        &&& next.status == self.status
        &&& self.aside_kept(next)
        &&& next.cmd_tx == self.cmd_tx
        &&& next.data_tx.published() == self.data_tx.published().push(record)
        &&& next.log_lines() == self.log_lines().push(received_line(record.state@))
        &&& next.session_buffer@ == if self.status.is_sampling {
            self.session_buffer@.push(record)
        } else {
            self.session_buffer@
        }
    }

    /// The sample id under which a record ingested now is stored: that of
    /// the running session, or the empty one where the status names none.
    pub open spec fn persist_id(&self) -> Seq<char> {
        match self.status.current_sample_id {
            Some(id) => id@,
            None => Seq::<char>::empty(),
        }
    }

    /// The state of a gateway that has just started: idle, with an empty
    /// buffer and nothing published.
    pub fn new(settings: Settings) -> (state: Self)
        ensures
            state.status.is_idle(),
            state.status.wf(),
            state.session_buffer@ == Seq::<SensorData>::empty(),
            state.settings == settings,
            state.data_tx.published() == Seq::<SensorData>::empty(),
            state.log_lines() == Seq::<Seq<char>>::empty(),
            state.commands() == Seq::<Seq<char>>::empty(),
            state.sim.signal1.amplitude_bits == ONE_BITS,
            state.sim.signal1.frequency_bits == ONE_BITS,
            state.sim.signal1.phase_bits == ZERO_BITS,
            state.sim.signal2 == state.sim.signal1,
            state.sim.operation == Operation::Add,
            !state.sim.running,
            state.sim_tx.published() == Seq::<SimDataPoint>::empty(),
    {
        let state = AppState {
            status: Status::new(),
            session_buffer: Vec::new(),
            settings,
            data_tx: Hub::new(),
            log_tx: Hub::new(),
            cmd_tx: Hub::new(),
            sim: SimConfig::default(),
            sim_tx: Hub::new(),
        };
        assert(state.log_lines() =~= Seq::<Seq<char>>::empty());
        assert(state.commands() =~= Seq::<Seq<char>>::empty());
        state
    }

    /// Publishes `message` on the log hub. It cannot fail.
    pub fn log(&mut self, message: String)
        ensures
            old(self).logged(final(self), message@),
    {
        self.log_tx.send(message);
        assert(self.log_lines() =~= old(self).log_lines().push(message@));
    }

    /// Relays `command` to the serial link manager.
    fn relay(&mut self, command: &str)
        ensures
            final(self).status == old(self).status,
            final(self).session_buffer == old(self).session_buffer,
            old(self).aside_kept(final(self)),
            final(self).data_tx == old(self).data_tx,
            final(self).log_tx == old(self).log_tx,
            final(self).commands() == old(self).commands().push(command@),
    {
        self.cmd_tx.send(String::from_str(command));
        assert(self.commands() =~= old(self).commands().push(command@));
    }

    /// Starts a session under `label` at the current time and returns its
    /// sample id. Whatever the clock says, the session starts as
    /// `start_at` describes for some timestamp.
    pub fn start(&mut self, label: &str) -> (sample_id: String)
        ensures
            exists|timestamp: int|
                {
                    &&& #[trigger] old(self).started(final(self), label@, timestamp)
                    &&& sample_id@ == sample_id_text(label@, timestamp)
                },
    {
        let timestamp: i64 = unix_now();
        let sample_id = self.start_at(label, timestamp);
        assert(old(self).started(self, label@, timestamp as int));
        sample_id
    }

    /// Starts a session under `label` at `timestamp` (seconds since the Unix
    /// epoch) and returns its sample id. Status and buffer change in this
    /// one step: no record can be ingested between them.
    pub fn start_at(&mut self, label: &str, timestamp: i64) -> (sample_id: String)
        ensures
            old(self).started(final(self), label@, timestamp as int),
            sample_id@ == sample_id_text(label@, timestamp as int),
    {
        let mut sample_id = joined(label, "_");
        proof {
            reveal_strlit("_");
        }
        append_decimal(&mut sample_id, timestamp);
        assert(sample_id@ =~= sample_id_text(label@, timestamp as int));
        self.status.is_sampling = true;
        self.status.current_sample_id = Some(sample_id.clone());
        self.session_buffer.clear();
        self.relay("START_SAMPLING");
        self.log(joined("[INFO] Started sampling: ", sample_id.as_str()));
        sample_id
    }

    /// Stops the session, if one is running. The buffer is kept.
    pub fn stop(&mut self)
        ensures
            old(self).stopped(final(self)),
    {
        self.status.is_sampling = false;
        self.status.current_sample_id = None;
        self.relay("STOP_SAMPLING");
        self.log(String::from_str("[INFO] Stopped sampling"));
    }

    /// Empties the session buffer.
    pub fn reset(&mut self)
        ensures
            final(self).session_buffer@ == Seq::<SensorData>::empty(),
            final(self).status == old(self).status,
            old(self).aside_kept(final(self)),
            final(self).data_tx == old(self).data_tx,
            final(self).cmd_tx == old(self).cmd_tx,
            final(self).log_lines() == old(self).log_lines().push(reset_line()),
    {
        self.session_buffer.clear();
        self.log(String::from_str("[INFO] System Reset"));
    }

    /// The records of the session buffer, oldest first.
    pub fn session_data(&self) -> (records: &Vec<SensorData>)
        ensures
            records@ == self.session_buffer@,
    {
        &self.session_buffer
    }

    /// Asks for a serial connection to `port`. The link manager acts on it
    /// at its next tick.
    pub fn connect_serial(&mut self, port: String)
        ensures
            final(self).status.serial_connected,
            final(self).status.serial_port == Some(port),
            final(self).status.is_sampling == old(self).status.is_sampling,
            final(self).status.current_sample_id == old(self).status.current_sample_id,
            final(self).status.mode == old(self).status.mode,
            final(self).session_buffer == old(self).session_buffer,
            old(self).aside_kept(final(self)),
            final(self).data_tx == old(self).data_tx,
            final(self).log_tx == old(self).log_tx,
            final(self).cmd_tx == old(self).cmd_tx,
    {
        self.status.serial_port = Some(port);
        self.status.serial_connected = true;
    }

    /// Asks for the serial connection to be released. The port's name is
    /// kept.
    pub fn disconnect_serial(&mut self)
        ensures
            !final(self).status.serial_connected,
            final(self).status.serial_port == old(self).status.serial_port,
            final(self).status.is_sampling == old(self).status.is_sampling,
            final(self).status.current_sample_id == old(self).status.current_sample_id,
            final(self).status.mode == old(self).status.mode,
            final(self).session_buffer == old(self).session_buffer,
            old(self).aside_kept(final(self)),
            final(self).data_tx == old(self).data_tx,
            final(self).log_tx == old(self).log_tx,
            final(self).cmd_tx == old(self).cmd_tx,
    {
        self.status.serial_connected = false;
    }

    /// Handles one event of a device connection.
    ///
    /// A record is published and logged, and, while a session runs, appended
    /// to the buffer and handed back for the time-series store under the
    /// session's sample id. A line that did not decode is logged and
    /// changes nothing else; the connection stays open. A failed read is
    /// logged and ends the connection, as the end of the stream does.
    pub fn ingest(&mut self, event: LineEvent) -> (outcome: IngestOutcome)
        ensures
            match event {
                LineEvent::Closed => {
                    &&& *final(self) == *old(self)
                    &&& !outcome.keep_open
                    &&& outcome.persist.is_none()
                },
                LineEvent::ReadError(reason) => {
                    &&& old(self).logged(final(self), read_error_line(reason@))
                    &&& !outcome.keep_open
                    &&& outcome.persist.is_none()
                },
                LineEvent::Malformed { reason, line } => {
                    &&& old(self).logged(final(self), malformed_line(reason@, line@))
                    &&& outcome.keep_open
                    &&& outcome.persist.is_none()
                },
                LineEvent::Frame(record) => {
                    &&& old(self).ingested(final(self), record)
                    &&& outcome.keep_open
                    &&& old(self).status.is_sampling ==> (outcome.persist matches Some(request)
                        && request.record == record && request.sample_id@ == old(self).persist_id())
                    &&& !old(self).status.is_sampling ==> outcome.persist.is_none()
                },
            },
    {
        match event {
            LineEvent::Closed => IngestOutcome { keep_open: false, persist: None },
            LineEvent::ReadError(reason) => {
                self.log(joined("[ERROR] Socket read error: ", reason.as_str()));
                IngestOutcome { keep_open: false, persist: None }
            },
            LineEvent::Malformed { reason, line } => {
                let mut message = joined("[WARN] Failed to parse JSON: ", reason.as_str());
                message.append(" | Data: ");
                message.append(line.as_str());
                self.log(message);
                IngestOutcome { keep_open: true, persist: None }
            },
            LineEvent::Frame(record) => {
                self.log(joined("[DEBUG] Data received: State=", record.state.as_str()));
                self.data_tx.send(record.clone());
                if self.status.is_sampling {
                    self.session_buffer.push(record.clone());
                    let sample_id = match &self.status.current_sample_id {
                        Some(id) => id.clone(),
                        None => String::new(),
                    };
                    IngestOutcome {
                        keep_open: true,
                        persist: Some(PersistRequest { record, sample_id }),
                    }
                } else {
                    IngestOutcome { keep_open: true, persist: None }
                }
            },
        }
    }

    /// Starts the signal generator. Its parameters are kept.
    pub fn sim_start(&mut self)
        ensures
            final(self).sim == (SimConfig { running: true, ..old(self).sim }),
            old(self).session_kept(final(self)),
            final(self).sim_tx == old(self).sim_tx,
            final(self).log_lines() == old(self).log_lines().push(sim_started_line()),
    {
        self.sim.running = true;
        self.log(String::from_str("[INFO] Simulation Started"));
    }

    /// Stops the signal generator. Nothing but its running flag changes.
    pub fn sim_stop(&mut self)
        ensures
            final(self).sim == (SimConfig { running: false, ..old(self).sim }),
            old(self).session_kept(final(self)),
            final(self).sim_tx == old(self).sim_tx,
            final(self).log_lines() == old(self).log_lines().push(sim_stopped_line()),
    {
        self.sim.running = false;
        self.log(String::from_str("[INFO] Simulation Stopped"));
    }

    /// Replaces the two signals and the operation of the signal generator.
    /// Whether it runs is kept.
    pub fn sim_update(&mut self, signal1: SignalParams, signal2: SignalParams, operation: Operation)
        ensures
            final(self).sim == (SimConfig { signal1, signal2, operation, running: old(self).sim.running }),
            old(self).session_kept(final(self)),
            final(self).sim_tx == old(self).sim_tx,
            final(self).log_lines() == old(self).log_lines().push(sim_updated_line()),
    {
        self.sim.signal1 = signal1;
        self.sim.signal2 = signal2;
        self.sim.operation = operation;
        self.log(String::from_str("[INFO] Simulation Parameters Updated"));
    }

    /// Publishes a generated point, if the generator runs, and says whether
    /// it did. A point handed in while the generator is stopped is dropped.
    pub fn sim_publish(&mut self, point: SimDataPoint) -> (published: bool)
        ensures
            published == old(self).sim.running,
            old(self).session_kept(final(self)),
            final(self).log_tx == old(self).log_tx,
            final(self).sim == old(self).sim,
            final(self).sim_tx.published() == if old(self).sim.running {
                old(self).sim_tx.published().push(point)
            } else {
                old(self).sim_tx.published()
            },
    {
        if self.sim.running {
            self.sim_tx.send(point);
            true
        } else {
            false
        }
    }

    /// Records that a write to the time-series store failed. Ingestion and
    /// the buffer are not affected.
    pub fn persist_failed(&mut self, reason: &str)
        ensures
            old(self).logged(final(self), persist_failed_line(reason@)),
    {
        self.log(joined("[ERROR] InfluxDB write failed: ", reason));
    }
}

/// Starting a session and stopping it with nothing ingested in between
/// leaves the buffer empty, the gateway not sampling, and no sample id.
pub proof fn lemma_start_then_stop(
    before: AppState,
    running: AppState,
    after: AppState,
    label: Seq<char>,
    timestamp: int,
)
    requires
        before.started(&running, label, timestamp),
        running.stopped(&after),
    ensures
        after.session_buffer@.len() == 0,
        !after.status.is_sampling,
        after.status.current_sample_id.is_none(),
        after.status.wf(),
{
}

/// However full the buffer was, it is empty once a session has started, and
/// the status names the new session.
pub proof fn lemma_start_clears(before: AppState, running: AppState, label: Seq<char>, timestamp: int)
    requires
        before.started(&running, label, timestamp),
    ensures
        running.session_buffer@.len() == 0,
        running.status.wf(),
{
}

/// A record is always published, exactly as it was ingested, and the buffer
/// grows by that record exactly when a session is running.
pub proof fn lemma_buffer_grows_only_while_sampling(before: AppState, after: AppState, record: SensorData)
    requires
        before.ingested(&after, record),
    ensures
        after.session_buffer@.len() == before.session_buffer@.len() + (if before.status.is_sampling {
            1int
        } else {
            0int
        }),
        after.data_tx.published().len() == before.data_tx.published().len() + 1,
        after.data_tx.published().last() == record,
{
}

/// A sample id is present exactly while a session runs: starting and
/// stopping a session establish this, and ingesting a record or logging a
/// line keep it.
pub proof fn lemma_sample_id_iff_sampling(
    before: AppState,
    after: AppState,
    label: Seq<char>,
    timestamp: int,
    record: SensorData,
    line: Seq<char>,
)
    requires
        before.started(&after, label, timestamp) || before.stopped(&after) || (before.status.wf() && (
            before.ingested(&after, record) || before.logged(&after, line))),
    ensures
        after.status.wf(),
{
}

/// Whether each state of `states` follows from the one before it by
/// ingesting the record of `records` at that place.
pub open spec fn ingested_in_turn(states: Seq<AppState>, records: Seq<SensorData>) -> bool {
    &&& states.len() == records.len() + 1
    &&& forall|i: int|
        0 <= i < records.len() ==> (#[trigger] states[i]).ingested(&states[i + 1], records[i])
}

/// From the start of a session on, and as long as it is neither stopped nor
/// reset, the buffer holds exactly the records ingested since, in the order
/// in which they came, and the session's id stays.
pub proof fn lemma_buffer_holds_the_session(
    before: AppState,
    states: Seq<AppState>,
    records: Seq<SensorData>,
    label: Seq<char>,
    timestamp: int,
)
    requires
        ingested_in_turn(states, records),
        before.started(&states[0], label, timestamp),
    ensures
        states.last().session_buffer@ == records,
        states.last().status.is_sampling,
        states.last().persist_id() == sample_id_text(label, timestamp),
    decreases records.len(),
{
    if records.len() == 0 {
        assert(states.last().session_buffer@ =~= records);
    } else {
        let earlier = states.drop_last();
        let seen = records.drop_last();
        assert(ingested_in_turn(earlier, seen)) by {
            assert forall|i: int| 0 <= i < seen.len() implies (#[trigger] earlier[i]).ingested(
                &earlier[i + 1],
                seen[i],
            ) by {
                assert(states[i].ingested(&states[i + 1], records[i]));
            }
        }
        lemma_buffer_holds_the_session(before, earlier, seen, label, timestamp);
        let k = records.len() - 1;
        assert(states[k].ingested(&states[k + 1], records[k]));
        assert(earlier.last() == states[k]);
        assert(states.last().session_buffer@ =~= records);
    }
}

} // verus!
