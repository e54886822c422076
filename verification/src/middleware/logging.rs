//! What is logged of commands and of calls to outside services.
//!
//! The functions here decide what a log line says: its level, its message and
//! its fields. Handing the line to a log is left to the caller.

use crate::utils::text::{decimal, decimal_string};
use vstd::prelude::*;
use vstd::string::StringExecFns;

verus! {

/// Below this budget the caller is warned that a limit is near.
pub const LOW_BUDGET_THRESHOLD: u32 = 10;

/// How much a log line matters.
#[derive(Debug, Clone, Copy, PartialEq, Eq, Structural)]
pub enum LogLevel {
    Debug,
    Info,
    Warn,
    Error,
}

/// A named value of a log line.
#[derive(Debug, Clone)]
pub struct LogField {
    pub name: String,
    pub value: String,
}

/// A log line.
#[derive(Debug, Clone)]
pub struct LogRecord {
    pub level: LogLevel,
    pub message: String,
    pub fields: Vec<LogField>,
}

/// A [`LogRecord`] as plain values: each field as its name and its value.
pub struct LogRecordView {
    pub level: LogLevel,
    pub message: Seq<char>,
    pub fields: Seq<(Seq<char>, Seq<char>)>,
}

impl View for LogRecord {
    type V = LogRecordView;

    open spec fn view(&self) -> LogRecordView {
        LogRecordView {
            level: self.level,
            message: self.message@,
            fields: self.fields@.map_values(|f: LogField| (f.name@, f.value@)),
        }
    }
}

/// The time from `start` to `end`, both clock readings in milliseconds; none
/// if the clock stepped back in between.
pub open spec fn duration_ms(start: i64, end: i64) -> u64 {
    if end >= start {
        (end - start) as u64
    } else {
        0
    }
}

/// The line that reports the start of a command.
pub open spec fn command_start_record(command_name: Seq<char>, args: Seq<char>) -> LogRecordView {
    LogRecordView {
        level: LogLevel::Info,
        message: "Command started"@,
        fields: seq![("command"@, command_name), ("args"@, args)],
    }
}

/// The line that reports that a command ended well.
pub open spec fn command_success_record(command_name: Seq<char>, duration: u64) -> LogRecordView {
    LogRecordView {
        level: LogLevel::Info,
        message: "Command completed successfully"@,
        fields: seq![("command"@, command_name), ("duration_ms"@, decimal(duration as nat))],
    }
}

/// The line that reports that a command failed.
pub open spec fn command_error_record(
    command_name: Seq<char>,
    error: Seq<char>,
    duration: u64,
) -> LogRecordView {
    LogRecordView {
        level: LogLevel::Error,
        message: "Command failed"@,
        fields: seq![
            ("command"@, command_name),
            ("error"@, error),
            ("duration_ms"@, decimal(duration as nat)),
        ],
    }
}

/// The line that reports a request to an outside service.
pub open spec fn api_request_record(
    endpoint: Seq<char>,
    method: Seq<char>,
    params: Seq<char>,
) -> LogRecordView {
    LogRecordView {
        level: LogLevel::Debug,
        message: "API request"@,
        fields: seq![("endpoint"@, endpoint), ("method"@, method), ("params"@, params)],
    }
}

/// The line that reports the answer of an outside service.
pub open spec fn api_response_record(
    endpoint: Seq<char>,
    status: Seq<char>,
    duration: u64,
) -> LogRecordView {
    LogRecordView {
        level: LogLevel::Debug,
        message: "API response"@,
        fields: seq![
            ("endpoint"@, endpoint),
            ("status"@, status),
            ("duration_ms"@, decimal(duration as nat)),
        ],
    }
}

/// The line that warns that the budget of an endpoint is nearly spent.
pub open spec fn rate_limit_warning_record(endpoint: Seq<char>, remaining: u32) -> LogRecordView {
    LogRecordView {
        level: LogLevel::Warn,
        message: "Approaching rate limit"@,
        fields: seq![("endpoint"@, endpoint), ("remaining"@, decimal(remaining as nat))],
    }
}

fn field(name: &str, value: &str) -> (r: LogField)
    ensures
        r.name@ == name@,
        r.value@ == value@,
{
    LogField { name: String::from_str(name), value: String::from_str(value) }
}

/// The time from `start` to `end`, both clock readings in milliseconds.
pub fn elapsed_between(start: i64, end: i64) -> (r: u64)
    ensures
        r == duration_ms(start, end),
{
    if end >= start {
        ((end as i128) - (start as i128)) as u64
    } else {
        0
    }
}

/// The lines that are logged of commands and calls.
pub struct CommandLogger;

impl CommandLogger {
    /// The line for the start of the command `command_name` with `args`.
    pub fn log_command_start(command_name: &str, args: &str) -> (r: LogRecord)
        ensures
            r@ == command_start_record(command_name@, args@),
    {
        let mut fields: Vec<LogField> = Vec::new();
        fields.push(field("command", command_name));
        fields.push(field("args", args));
        let r = LogRecord {
            level: LogLevel::Info,
            message: String::from_str("Command started"),
            fields,
        };
        assert(r@.fields =~= command_start_record(command_name@, args@).fields);
        r
    }

    /// The line for a command that ended well after `duration` milliseconds.
    pub fn log_command_success(command_name: &str, duration: u64) -> (r: LogRecord)
        ensures
            r@ == command_success_record(command_name@, duration),
    {
        let mut fields: Vec<LogField> = Vec::new();
        fields.push(field("command", command_name));
        fields.push(field("duration_ms", decimal_string(duration).as_str()));
        let r = LogRecord {
            level: LogLevel::Info,
            message: String::from_str("Command completed successfully"),
            fields,
        };
        assert(r@.fields =~= command_success_record(command_name@, duration).fields);
        r
    }

    /// The line for a command that failed with `error` after `duration`
    /// milliseconds.
    pub fn log_command_error(command_name: &str, error: &str, duration: u64) -> (r: LogRecord)
        ensures
            r@ == command_error_record(command_name@, error@, duration),
    {
        let mut fields: Vec<LogField> = Vec::new();
        fields.push(field("command", command_name));
        fields.push(field("error", error));
        fields.push(field("duration_ms", decimal_string(duration).as_str()));
        let r = LogRecord {
            level: LogLevel::Error,
            message: String::from_str("Command failed"),
            fields,
        };
        assert(r@.fields =~= command_error_record(command_name@, error@, duration).fields);
        r
    }

    /// The line for a request to `endpoint`.
    pub fn log_api_request(endpoint: &str, method: &str, params: &str) -> (r: LogRecord)
        ensures
            r@ == api_request_record(endpoint@, method@, params@),
    {
        let mut fields: Vec<LogField> = Vec::new();
        fields.push(field("endpoint", endpoint));
        fields.push(field("method", method));
        fields.push(field("params", params));
        let r = LogRecord {
            level: LogLevel::Debug,
            message: String::from_str("API request"),
            fields,
        };
        assert(r@.fields =~= api_request_record(endpoint@, method@, params@).fields);
        r
    }

    /// The line for the answer of `endpoint`.
    pub fn log_api_response(endpoint: &str, status: &str, duration_ms: u64) -> (r: LogRecord)
        ensures
            r@ == api_response_record(endpoint@, status@, duration_ms),
    {
        let mut fields: Vec<LogField> = Vec::new();
        fields.push(field("endpoint", endpoint));
        fields.push(field("status", status));
        fields.push(field("duration_ms", decimal_string(duration_ms).as_str()));
        let r = LogRecord {
            level: LogLevel::Debug,
            message: String::from_str("API response"),
            fields,
        };
        assert(r@.fields =~= api_response_record(endpoint@, status@, duration_ms).fields);
        r
    }

    /// The line that warns that `endpoint` has only `remaining` requests left.
    pub fn log_rate_limit_warning(endpoint: &str, remaining: u32) -> (r: LogRecord)
        ensures
            r@ == rate_limit_warning_record(endpoint@, remaining),
    {
        let mut fields: Vec<LogField> = Vec::new();
        fields.push(field("endpoint", endpoint));
        fields.push(field("remaining", decimal_string(remaining as u64).as_str()));
        let r = LogRecord {
            level: LogLevel::Warn,
            message: String::from_str("Approaching rate limit"),
            fields,
        };
        assert(r@.fields =~= rate_limit_warning_record(endpoint@, remaining).fields);
        r
    }

    /// The line for the end of a command that ran from `start` to `end`: a
    /// success if it returned a value, else a failure with its error.
    pub fn log_command_end(command_name: &str, error: Option<&str>, start: i64, end: i64) -> (r:
        LogRecord)
        ensures
            r@ == match error {
                None => command_success_record(command_name@, duration_ms(start, end)),
                Some(e) => command_error_record(command_name@, e@, duration_ms(start, end)),
            },
    {
        let duration = elapsed_between(start, end);
        match error {
            None => Self::log_command_success(command_name, duration),
            Some(e) => Self::log_command_error(command_name, e, duration),
        }
    }

    /// The warning that is due after a request was admitted with `remaining`
    /// requests left: one below the threshold, none at or above it.
    pub fn budget_warning(endpoint: &str, remaining: u32) -> (r: Option<LogRecord>)
        ensures
            remaining < LOW_BUDGET_THRESHOLD ==> r is Some && r->0@ == rate_limit_warning_record(
                endpoint@,
                remaining,
            ),
            remaining >= LOW_BUDGET_THRESHOLD ==> r is None,
    {
        if remaining < LOW_BUDGET_THRESHOLD {
            Some(Self::log_rate_limit_warning(endpoint, remaining))
        } else {
            None
        }
    }
}

} // verus!
