use vstd::prelude::*;

use crate::render::emit_line;
use crate::render::render_line;
use crate::render::rendered_line_ok;
use crate::severity::is_permitted;
use crate::severity::permits;
use crate::severity::LoggingLevel;
use crate::severity::LoggingType;

verus! {

/// A console logger: a minimum-severity threshold together with the
/// origin label that calls without an origin of their own fall back to.
#[derive(Debug)]
pub struct Logger {
    log_level: LoggingLevel,
    default_origin: String,
}

/// The origin label a call ends up with: its own when it brings one, the
/// logger's fallback otherwise.
pub open spec fn resolved_origin(origin: Option<&str>, fallback: Seq<char>) -> Seq<char> {
    match origin {
        Some(o) => o@,
        None => fallback,
    }
}

impl Logger {
    /// The configured minimum-severity threshold.
    pub closed spec fn threshold(&self) -> LoggingLevel {
        self.log_level
    }

    /// The configured fallback origin label.
    pub closed spec fn origin_default(&self) -> Seq<char> {
        self.default_origin@
    }

    pub fn new(log_level: LoggingLevel, default_origin: String) -> (r: Self)
        ensures
            r.threshold() == log_level,
            r.origin_default() == default_origin@,
    {
        Self { log_level, default_origin }
    }

    /// Replaces the filter threshold; always succeeds.
    pub fn set_level(&mut self, level: LoggingLevel)
        ensures
            final(self).threshold() == level,
            final(self).origin_default() == old(self).origin_default(),
    {
        self.log_level = level;
    }

    /// Replaces the fallback origin label; always succeeds.
    pub fn set_default_origin(&mut self, default_origin: String)
        ensures
            final(self).origin_default() == default_origin@,
            final(self).threshold() == old(self).threshold(),
    {
        self.default_origin = default_origin;
    }

    /// The line that `log_origin_message` would print for this call, or
    /// nothing when the threshold filters the message out.
    pub fn render_origin_message(
        &self,
        message: &str,
        message_log_type: LoggingType,
        log_origin: Option<&str>,
    ) -> (r: Option<String>)
        ensures
            r is Some <==> permits(self.threshold(), message_log_type),
            r matches Some(line) ==> rendered_line_ok(
                line@,
                message_log_type,
                resolved_origin(log_origin, self.origin_default()),
                message@,
            ),
    {
        if !is_permitted(self.log_level, message_log_type) {
            return None;
        }
        let origin_text: &str = match log_origin {
            Some(o) => o,
            None => self.default_origin.as_str(),
        };
        Some(render_line(message_log_type, origin_text, message))
    }

    /// Logs one message with an optional per-call origin: writes exactly
    /// one rendered line to standard output when the threshold permits the
    /// kind, and nothing otherwise.
    pub fn log_origin_message(
        &self,
        message: &str,
        message_log_type: LoggingType,
        log_origin: Option<&str>,
    ) {
        match self.render_origin_message(message, message_log_type, log_origin) {
            Some(line) => emit_line(line.as_str()),
            None => (),
        }
    }

    /// Logs one message under the fallback origin.
    pub fn log_message(&self, message: &str, message_log_type: LoggingType) {
        self.log_origin_message(message, message_log_type, None);
    }
}

impl Default for Logger {
    /// The most permissive logger: everything is printed, under no origin.
    fn default() -> (r: Self)
        ensures
            r.threshold() == LoggingLevel::Full,
            r.origin_default() == Seq::<char>::empty(),
    {
        Self { log_level: LoggingLevel::Full, default_origin: String::new() }
    }
}

} // verus!
