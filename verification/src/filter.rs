//! Which events and spans reach the log and trace outputs.
use vstd::prelude::*;

use crate::text::{spec_eq_ignore_ascii_case, spec_parse_u64, str_eq};

verus! {

/// Severity of a span or event, from the most to the least severe
/// (`tracing::Level`).
#[derive(Debug, Clone, Copy, PartialEq, Eq, Structural)]
pub enum Level {
    /// Very serious errors.
    Error,
    /// Hazardous situations.
    Warn,
    /// Useful information.
    Info,
    /// Lower priority information.
    Debug,
    /// Very low priority, often extremely verbose, information.
    Trace,
}

impl Level {
    /// How verbose the level is: 1 for `Error` up to 5 for `Trace`.
    /// `tracing` orders levels by it: `ERROR < WARN < INFO < DEBUG < TRACE`.
    pub open spec fn verbosity(self) -> int {
        match self {
            Level::Error => 1,
            Level::Warn => 2,
            Level::Info => 3,
            Level::Debug => 4,
            Level::Trace => 5,
        }
    }

    /// `self <= other` in `tracing`'s order of levels.
    pub fn le(self, other: Level) -> (r: bool)
        ensures
            r == (self.verbosity() <= other.verbosity()),
    {
        Self::rank(self) <= Self::rank(other)
    }

    fn rank(l: Level) -> (r: u8)
        ensures
            r == l.verbosity(),
    {
        match l {
            Level::Error => 1,
            Level::Warn => 2,
            Level::Info => 3,
            Level::Debug => 4,
            Level::Trace => 5,
        }
    }
}

/// The level that `<tracing::Level as FromStr>::from_str` reads from `s`:
/// a number from 1 (`ERROR`) to 5 (`TRACE`), or a level's name in any case.
pub open spec fn spec_parse_level(s: Seq<char>) -> Option<Level> {
    match spec_parse_u64(s) {
        Ok(n) if 1 <= n <= 5 => Some(
            if n == 1 {
                Level::Error
            } else if n == 2 {
                Level::Warn
            } else if n == 3 {
                Level::Info
            } else if n == 4 {
                Level::Debug
            } else {
                Level::Trace
            },
        ),
        _ => if spec_eq_ignore_ascii_case(s, "error"@) {
            Some(Level::Error)
        } else if spec_eq_ignore_ascii_case(s, "warn"@) {
            Some(Level::Warn)
        } else if spec_eq_ignore_ascii_case(s, "info"@) {
            Some(Level::Info)
        } else if spec_eq_ignore_ascii_case(s, "debug"@) {
            Some(Level::Debug)
        } else if spec_eq_ignore_ascii_case(s, "trace"@) {
            Some(Level::Trace)
        } else {
            None
        },
    }
}

/// Calls `<tracing::Level as FromStr>::from_str`. Its source reads `s` as a
/// number first (1 to 5 name `ERROR` to `TRACE`), then as a level's name
/// compared without ASCII case; the contract states exactly that.
#[verifier::external_body]
fn parse_tracing_level(s: &str) -> (r: Option<Level>)
    ensures
        r == spec_parse_level(s@),
{
    match s.parse::<tracing::Level>() {
        Ok(tracing::Level::ERROR) => Some(Level::Error),
        Ok(tracing::Level::WARN) => Some(Level::Warn),
        Ok(tracing::Level::INFO) => Some(Level::Info),
        Ok(tracing::Level::DEBUG) => Some(Level::Debug),
        Ok(tracing::Level::TRACE) => Some(Level::Trace),
        Ok(_) => None,
        Err(_) => None,
    }
}

/// `tracing_opentelemetry_instrumentation_sdk::TRACING_TARGET`, the target of
/// the spans that the instrumentation helpers open; its source sets it to
/// `"otel::tracing"`, and the contract says so.
#[verifier::external_body]
fn tracing_target() -> (r: &'static str)
    ensures
        r@ == spec_tracing_target(),
{
    tracing_opentelemetry_instrumentation_sdk::TRACING_TARGET
}

/// The target of the instrumentation helpers' spans.
pub open spec fn spec_tracing_target() -> Seq<char> {
    "otel::tracing"@
}

/// The level used for spans when `OTEL_LOG_LEVEL` is unset or unreadable.
pub open spec fn default_tracing_level() -> Level {
    Level::Info
}

/// The tracing level that the value of `OTEL_LOG_LEVEL` selects; `Info` when
/// the variable is unset or holds no level.
pub open spec fn spec_tracing_level(value: Option<Seq<char>>) -> Level {
    match value {
        Some(s) => match spec_parse_level(s) {
            Some(l) => l,
            None => default_tracing_level(),
        },
        None => default_tracing_level(),
    }
}

/// Reads the tracing level from the value of the `OTEL_LOG_LEVEL` environment
/// variable (`None` when it is unset). Accepts `ERROR`, `WARN`, `INFO`,
/// `DEBUG`, `TRACE` in any case, or 1 to 5; anything else gives `Level::Info`.
pub fn read_tracing_level_from_env(value: Option<&str>) -> (r: Level)
    ensures
        r == spec_tracing_level(
            match value {
                Some(s) => Some(s@),
                None => None,
            },
        ),
{
    match value {
        Some(s) => match parse_tracing_level(s) {
            Some(l) => l,
            None => Level::Info,
        },
        None => Level::Info,
    }
}

/// Whether a callsite is always or never enabled (`tracing::subscriber::Interest`).
#[derive(Debug, Clone, Copy, PartialEq, Eq, Structural)]
pub enum Interest {
    /// The callsite is always enabled.
    Always,
    /// The callsite is never enabled.
    Never,
}

/// Filters events by a log level and spans by a tracing level.
#[derive(Debug, Clone, Copy, PartialEq, Eq, Structural)]
pub struct TracingFilter {
    /// The least severe level of the events that are logged.
    pub log_level: Level,
    /// The least severe level of the spans that are traced.
    pub tracing_level: Level,
}

/// Whether a filter with these levels lets through a span or event of `level`
/// with `target`.
pub open spec fn spec_enabled(
    log_level: Level,
    tracing_level: Level,
    is_event: bool,
    level: Level,
    target: Seq<char>,
) -> bool {
    if is_event {
        level.verbosity() <= log_level.verbosity()
    } else {
        target == spec_tracing_target() || level.verbosity() <= tracing_level.verbosity()
    }
}

impl TracingFilter {
    /// A filter with the given log and tracing levels.
    pub fn new(log_level: Level, tracing_level: Level) -> (r: Self)
        ensures
            r.log_level == log_level,
            r.tracing_level == tracing_level,
    {
        Self { log_level, tracing_level }
    }

    /// A filter with the given log level and the tracing level that the value
    /// of `OTEL_LOG_LEVEL` selects (see [`read_tracing_level_from_env`]).
    pub fn from_level(log_level: Level, otel_log_level: Option<&str>) -> (r: Self)
        ensures
            r.log_level == log_level,
            r.tracing_level == spec_tracing_level(
                match otel_log_level {
                    Some(s) => Some(s@),
                    None => None,
                },
            ),
    {
        Self::new(log_level, read_tracing_level_from_env(otel_log_level))
    }

    /// Whether an event (`is_event`) or a span of `level` with `target` passes:
    /// events by the log level, spans by the tracing level, and the spans of the
    /// instrumentation target always.
    pub fn enabled(&self, is_event: bool, level: Level, target: &str) -> (r: bool)
        ensures
            r == spec_enabled(self.log_level, self.tracing_level, is_event, level, target@),
    {
        if is_event {
            level.le(self.log_level)
        } else {
            str_eq(target, tracing_target()) || level.le(self.tracing_level)
        }
    }

    /// `Interest::Always` for a callsite that passes the filter, else `Interest::Never`.
    pub fn callsite_enabled(&self, is_event: bool, level: Level, target: &str) -> (r: Interest)
        ensures
            r == (if spec_enabled(self.log_level, self.tracing_level, is_event, level, target@) {
                Interest::Always
            } else {
                Interest::Never
            }),
    {
        if self.enabled(is_event, level, target) {
            Interest::Always
        } else {
            Interest::Never
        }
    }
}

} // verus!
