//! The serial link manager: a reconciliation state machine that drives the
//! actual serial connection toward the desired one, and the relay of device
//! commands over it. The port itself is opened, written and released by the
//! caller; the decisions are made here.

use vstd::prelude::*;
use vstd::string::*;
use crate::hub::Subscription;
use crate::session::AppState;
use crate::status::Status;

verus! {

/// Whether the manager holds an open port.
#[derive(Debug, Clone, Copy, PartialEq, Eq, Structural)]
pub enum LinkState {
    Disconnected,
    Connected,
}

/// What the caller has to do to the port at this tick.
#[derive(Debug)]
pub enum LinkAction {
    /// Try to open the port of this name, then report with `finish_open`.
    Open(String),
    /// Release the port that is held.
    Close,
    /// Nothing.
    Stay,
}

/// A command to write to the port: the command, and the line that carries
/// it.
#[derive(Debug)]
pub struct Outbound {
    pub command: String,
    pub line: String,
}

/// A connection is wanted, none is held, and the port to open is named.
pub open spec fn wants_open(status: Status, link: LinkState) -> bool {
    status.serial_connected && link == LinkState::Disconnected && status.serial_port.is_some()
}

/// No connection is wanted and one is held.
pub open spec fn wants_close(status: Status, link: LinkState) -> bool {
    !status.serial_connected && link == LinkState::Connected
}

/// The link after a tick at which the status was `status` and an attempt to
/// open the port, if one was made, had the result `open_succeeds`.
pub open spec fn link_after(status: Status, link: LinkState, open_succeeds: bool) -> LinkState {
    if wants_open(status, link) {
        if open_succeeds {
            LinkState::Connected
        } else {
            LinkState::Disconnected
        }
    } else if wants_close(status, link) {
        LinkState::Disconnected
    } else {
        link
    }
}

/// The number of open ports after that tick, where `handles` were open
/// before it: one more after an attempt that succeeded, one fewer after a
/// release.
pub open spec fn handles_after(handles: int, status: Status, link: LinkState, open_succeeds: bool) -> int {
    if wants_open(status, link) {
        if open_succeeds {
            handles + 1
        } else {
            handles
        }
    } else if wants_close(status, link) {
        handles - 1
    } else {
        handles
    }
}

/// One tick of the reconciliation loop as the manager sees it: the status
/// at that moment, and how an attempt to open the port ends.
pub struct Tick {
    pub status: Status,
    pub open_succeeds: bool,
}

/// The link after `ticks`, from a manager that holds no port.
pub open spec fn link_after_all(ticks: Seq<Tick>) -> LinkState
    decreases ticks.len(),
{
    if ticks.len() == 0 {
        LinkState::Disconnected
    } else {
        link_after(ticks.last().status, link_after_all(ticks.drop_last()), ticks.last().open_succeeds)
    }
}

/// The number of open ports after `ticks`, from a manager that holds none.
pub open spec fn handles_after_all(ticks: Seq<Tick>) -> int
    decreases ticks.len(),
{
    if ticks.len() == 0 {
        0
    } else {
        handles_after(
            handles_after_all(ticks.drop_last()),
            ticks.last().status,
            link_after_all(ticks.drop_last()),
            ticks.last().open_succeeds,
        )
    }
}

/// Whatever the desired connection does from tick to tick, and however the
/// attempts to open the port end, the manager never holds two open ports:
/// it holds one exactly while it is connected, and none otherwise.
pub proof fn lemma_at_most_one_handle(ticks: Seq<Tick>)
    ensures
        0 <= handles_after_all(ticks) <= 1,
        handles_after_all(ticks) == 1 <==> link_after_all(ticks) == LinkState::Connected,
    decreases ticks.len(),
{
    if ticks.len() > 0 {
        lemma_at_most_one_handle(ticks.drop_last());
    }
}

/// After every tick the link follows the desired connection: no port is held
/// once none is wanted, and a wanted port that could be opened is held.
pub proof fn lemma_link_follows_desired(status: Status, link: LinkState, open_succeeds: bool)
    ensures
        !status.serial_connected ==> link_after(status, link, open_succeeds) == LinkState::Disconnected,
        status.serial_connected && status.serial_port.is_some() && open_succeeds ==> link_after(
            status,
            link,
            open_succeeds,
        ) == LinkState::Connected,
        status.serial_connected && link == LinkState::Connected ==> link_after(status, link, open_succeeds)
            == LinkState::Connected,
{
}

/// The log line of a port that was opened.
pub open spec fn connected_line(port: Seq<char>) -> Seq<char> {
    "[INFO] Serial connected to "@ + port
}

/// The log line of a port that could not be opened.
pub open spec fn open_failed_line(port: Seq<char>, reason: Seq<char>) -> Seq<char> {
    "[ERROR] Failed to open serial "@ + port + ": "@ + reason
}

/// The log line of a port that was released.
pub open spec fn disconnected_line() -> Seq<char> {
    "[INFO] Serial disconnected"@
}

/// The log line of a command that was written to the port.
pub open spec fn sent_line(command: Seq<char>) -> Seq<char> {
    "[INFO] Sent to Arduino: "@ + command
}

/// The log line of a command that could not be written to the port.
pub open spec fn write_failed_line(reason: Seq<char>) -> Seq<char> {
    "[ERROR] Failed to write to serial: "@ + reason
}

/// The log line of a command that was dropped for want of a connection.
pub open spec fn dropped_line(command: Seq<char>) -> Seq<char> {
    "[WARN] Cannot send command '"@ + command + "': Serial not connected"@
}

/// The line that carries `command` to the device.
pub open spec fn command_line(command: Seq<char>) -> Seq<char> {
    command + seq!['\n']
}

/// What relaying `command` at link state `link` does to the shared state and
/// gives back: nothing where there is no command; the command and its line,
/// with the state untouched, where the port is held; one warning logged and
/// the command dropped where it is not.
pub open spec fn relayed(
    link: LinkState,
    before: &AppState,
    after: &AppState,
    command: Option<String>,
    outbound: Option<Outbound>,
) -> bool {
    match command {
        None => *after == *before && outbound.is_none(),
        Some(text) => if link == LinkState::Connected {
            &&& *after == *before
            &&& outbound matches Some(out) && out.command@ == text@ && out.line@ == command_line(text@)
        } else {
            &&& before.logged(after, dropped_line(text@))
            &&& outbound.is_none()
        },
    }
}

/// The serial link manager.
pub struct SerialManager {
    link: LinkState,
    commands: Subscription<String>,
}

impl SerialManager {
    /// Whether the manager holds an open port.
    pub closed spec fn link(&self) -> LinkState {
        self.link
    }

    /// How many commands had been published when the manager subscribed to
    /// the command relay: it relays none of those.
    pub closed spec fn relays_from(&self) -> nat {
        self.commands.subscribed_at()
    }

    /// A manager that holds no port and relays the commands published on
    /// `state`'s command hub from now on.
    pub fn new(state: &AppState) -> (manager: Self)
        ensures
            manager.link() == LinkState::Disconnected,
            manager.relays_from() == state.commands().len(),
    {
        SerialManager { link: LinkState::Disconnected, commands: state.cmd_tx.subscribe() }
    }

    /// Whether the manager holds an open port.
    pub fn is_connected(&self) -> (connected: bool)
        ensures
            connected == (self.link() == LinkState::Connected),
    {
        self.link == LinkState::Connected
    }

    /// Compares the desired connection with the actual one and says what to
    /// do to the port. A release takes effect here: the manager is
    /// disconnected from then on, and the release is logged. An attempt to
    /// open is settled by `finish_open`.
    pub fn reconcile(&mut self, state: &mut AppState) -> (action: LinkAction)
        ensures
            final(self).relays_from() == old(self).relays_from(),
            match action {
                LinkAction::Open(name) => {
                    &&& wants_open(old(state).status, old(self).link())
                    &&& old(state).status.serial_port matches Some(port) && port@ == name@
                    &&& *final(state) == *old(state)
                    &&& final(self).link() == LinkState::Disconnected
                },
                LinkAction::Close => {
                    &&& wants_close(old(state).status, old(self).link())
                    &&& old(state).logged(final(state), disconnected_line())
                    &&& final(self).link() == link_after(old(state).status, old(self).link(), false)
                },
                LinkAction::Stay => {
                    &&& !wants_open(old(state).status, old(self).link())
                    &&& !wants_close(old(state).status, old(self).link())
                    &&& *final(state) == *old(state)
                    &&& final(self).link() == link_after(old(state).status, old(self).link(), false)
                },
            },
    {
        if state.status.serial_connected && !self.is_connected() {
            match &state.status.serial_port {
                Some(port) => LinkAction::Open(port.clone()),
                None => LinkAction::Stay,
            }
        } else if !state.status.serial_connected && self.is_connected() {
            self.link = LinkState::Disconnected;
            state.log(String::from_str("[INFO] Serial disconnected"));
            LinkAction::Close
        } else {
            LinkAction::Stay
        }
    }

    /// Settles an attempt to open `port`: `failure` is why it failed, or
    /// nothing where the port is now open. On success the manager is
    /// connected. On failure it stays disconnected and the desired
    /// connection is withdrawn, so that the attempt is not repeated until it
    /// is asked for again. Either way one line is logged.
    pub fn finish_open(&mut self, state: &mut AppState, port: &str, failure: Option<String>)
        requires
            old(self).link() == LinkState::Disconnected,
        ensures
            final(self).relays_from() == old(self).relays_from(),
            final(self).link() == (if failure.is_none() {
                LinkState::Connected
            } else {
                LinkState::Disconnected
            }),
            final(state).status.serial_connected == (failure.is_none()
                && old(state).status.serial_connected),
            final(state).status.serial_port == old(state).status.serial_port,
            final(state).status.is_sampling == old(state).status.is_sampling,
            final(state).status.current_sample_id == old(state).status.current_sample_id,
            final(state).status.mode == old(state).status.mode,
            final(state).session_buffer@ == old(state).session_buffer@,
            old(state).aside_kept(final(state)),
            final(state).data_tx == old(state).data_tx,
            final(state).cmd_tx == old(state).cmd_tx,
            final(state).log_lines() == old(state).log_lines().push(
                match failure {
                    None => connected_line(port@),
                    Some(reason) => open_failed_line(port@, reason@),
                },
            ),
    {
        match failure {
            None => {
                self.link = LinkState::Connected;
                let mut message = String::from_str("[INFO] Serial connected to ");
                message.append(port);
                state.log(message);
            },
            Some(reason) => {
                state.status.serial_connected = false;
                let mut message = String::from_str("[ERROR] Failed to open serial ");
                message.append(port);
                message.append(": ");
                message.append(reason.as_str());
                state.log(message);
            },
        }
    }

    /// Decides what becomes of `command`, the command drained at this tick
    /// if there was one.
    pub fn relay_command(&self, state: &mut AppState, command: Option<String>) -> (outbound: Option<Outbound>)
        ensures
            relayed(self.link(), old(state), final(state), command, outbound),
    {
        match command {
            None => None,
            Some(text) => {
                if self.is_connected() {
                    let mut line = text.clone();
                    line.append("\n");
                    proof {
                        reveal_strlit("\n");
                    }
                    assert(line@ =~= command_line(text@));
                    Some(Outbound { command: text, line })
                } else {
                    let mut message = String::from_str("[WARN] Cannot send command '");
                    message.append(text.as_str());
                    message.append("': Serial not connected");
                    state.log(message);
                    None
                }
            },
        }
    }

    /// Drains at most one pending command and decides what becomes of it, as
    /// `relay_command` does for whatever was drained.
    pub fn next_command(&mut self, state: &mut AppState) -> (outbound: Option<Outbound>)
        ensures
            final(self).link() == old(self).link(),
            final(self).relays_from() == old(self).relays_from(),
            exists|command: Option<String>| #[trigger]
                relayed(old(self).link(), old(state), final(state), command, outbound),
    {
        let command = self.commands.try_next();
        let outbound = self.relay_command(state, command);
        assert(relayed(old(self).link(), old(state), state, command, outbound));
        outbound
    }

    /// Records how the write of `command` to the port ended: `failure` is
    /// why it failed, or nothing where it was written. One line is logged.
    pub fn finish_write(&self, state: &mut AppState, command: &str, failure: Option<String>)
        ensures
            old(state).logged(
                final(state),
                match failure {
                    None => sent_line(command@),
                    Some(reason) => write_failed_line(reason@),
                },
            ),
    {
        match failure {
            None => {
                let mut message = String::from_str("[INFO] Sent to Arduino: ");
                message.append(command);
                state.log(message);
            },
            Some(reason) => {
                let mut message = String::from_str("[ERROR] Failed to write to serial: ");
                message.append(reason.as_str());
                state.log(message);
            },
        }
    }
}

} // verus!
