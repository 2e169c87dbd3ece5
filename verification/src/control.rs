//! What the control surface answers and logs once an export of the session
//! buffer or a check of the time-series store has been tried.

use vstd::prelude::*;
use vstd::string::*;
use crate::session::AppState;

verus! {

/// The answer to a request of the control surface.
#[derive(Debug, Clone, PartialEq, Eq)]
pub struct Reply {
    pub success: bool,
    pub message: String,
}

/// The format of an export.
#[derive(Debug, Clone, Copy, PartialEq, Eq, Structural)]
pub enum ExportFormat {
    Csv,
    Json,
}

/// The name of a format in messages.
pub open spec fn format_name(format: ExportFormat) -> Seq<char> {
    match format {
        ExportFormat::Csv => "CSV"@,
        ExportFormat::Json => "JSON"@,
    }
}

/// The log line of an export that was written to `path`.
pub open spec fn saved_line(format: ExportFormat, path: Seq<char>) -> Seq<char> {
    "[INFO] Saved "@ + format_name(format) + " to "@ + path
}

/// The log line of an export that failed.
pub open spec fn save_failed_line(format: ExportFormat, reason: Seq<char>) -> Seq<char> {
    "[ERROR] Failed to save "@ + format_name(format) + ": "@ + reason
}

/// The answer to an export that was written.
pub open spec fn saved_message(format: ExportFormat) -> Seq<char> {
    "Saved "@ + format_name(format)
}

/// The log line of a time-series store that answered.
pub open spec fn store_reached_line() -> Seq<char> {
    "[INFO] InfluxDB Connected Successfully"@
}

/// The log line of a time-series store that did not answer.
pub open spec fn store_unreachable_line(reason: Seq<char>) -> Seq<char> {
    "[ERROR] InfluxDB Connection Failed: "@ + reason
}

/// The answer for a time-series store that answered.
pub open spec fn store_reached_message() -> Seq<char> {
    "Connected to InfluxDB"@
}

fn format_word(format: ExportFormat) -> (word: &'static str)
    ensures
        word@ == format_name(format),
{
    match format {
        ExportFormat::Csv => "CSV",
        ExportFormat::Json => "JSON",
    }
}

impl AppState {
    /// Records how an export of the session buffer to `path` ended, and
    /// answers the request: `failure` is why it failed, or nothing where the
    /// file was written. A failure is reported with its reason and changes
    /// nothing but the log.
    pub fn export_finished(&mut self, format: ExportFormat, path: &str, failure: Option<String>) -> (reply: Reply)
        ensures
            match failure {
                None => {
                    &&& old(self).logged(final(self), saved_line(format, path@))
                    &&& reply.success
                    &&& reply.message@ == saved_message(format)
                },
                Some(reason) => {
                    &&& old(self).logged(final(self), save_failed_line(format, reason@))
                    &&& !reply.success
                    &&& reply.message@ == reason@
                },
            },
    {
        match failure {
            None => {
                let mut line = String::from_str("[INFO] Saved ");
                line.append(format_word(format));
                line.append(" to ");
                line.append(path);
                self.log(line);
                let mut message = String::from_str("Saved ");
                message.append(format_word(format));
                Reply { success: true, message }
            },
            Some(reason) => {
                let mut line = String::from_str("[ERROR] Failed to save ");
                line.append(format_word(format));
                line.append(": ");
                line.append(reason.as_str());
                self.log(line);
                Reply { success: false, message: reason }
            },
        }
    }

    /// Records how a check of the time-series store ended, and answers the
    /// request: `failure` is why it failed, or nothing where the store
    /// answered. Nothing but the log changes.
    pub fn store_checked(&mut self, failure: Option<String>) -> (reply: Reply)
        ensures
            match failure {
                None => {
                    &&& old(self).logged(final(self), store_reached_line())
                    &&& reply.success
                    &&& reply.message@ == store_reached_message()
                },
                Some(reason) => {
                    &&& old(self).logged(final(self), store_unreachable_line(reason@))
                    &&& !reply.success
                    &&& reply.message@ == reason@
                },
            },
    {
        match failure {
            None => {
                self.log(String::from_str("[INFO] InfluxDB Connected Successfully"));
                Reply { success: true, message: String::from_str("Connected to InfluxDB") }
            },
            Some(reason) => {
                let mut line = String::from_str("[ERROR] InfluxDB Connection Failed: ");
                line.append(reason.as_str());
                self.log(line);
                Reply { success: false, message: reason }
            },
        }
    }
}

} // verus!
