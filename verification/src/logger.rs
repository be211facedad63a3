use vstd::prelude::*;
use vstd::string::StringExecFns;

use crate::level::LogLevel;
use crate::term::{
    bright_black_text, bright_green_text, bright_red_text, bright_yellow_text, dark_codes,
    now_string, spec_painted, write_error_line, write_standard_line,
};

verus! {

/// Which of the two fixed output streams a line belongs on.
#[derive(Debug, Clone, Copy, PartialEq, Eq, Structural)]
pub enum LogStream {
    Standard,
    Error,
}

/// The stream for a severity: `Error` goes to the error stream, every other
/// severity to the standard stream.
pub open spec fn spec_stream_for(level: LogLevel) -> LogStream {
    if level == LogLevel::Error {
        LogStream::Error
    } else {
        LogStream::Standard
    }
}

/// The stream a message of severity `level` is written to.
pub fn stream_for(level: LogLevel) -> (r: LogStream)
    ensures
        r == spec_stream_for(level),
{
    if level == LogLevel::Error {
        LogStream::Error
    } else {
        LogStream::Standard
    }
}

/// One formatted log line together with the stream it belongs on.
pub struct Emission {
    pub line: String,
    pub stream: LogStream,
}

/// `line` is `<painted stamp> <painted tag> <message>`: the bracketed
/// timestamp painted bright black, the severity's tag painted in the
/// severity's own color, then the caller's message, separated by single
/// spaces.
pub open spec fn spec_line_shape(
    line: Seq<char>,
    stamp: Seq<char>,
    level: LogLevel,
    message: Seq<char>,
) -> bool {
    exists|ps: Seq<char>, pt: Seq<char>|
        {
            &&& #[trigger] spec_painted(dark_codes(), "["@ + stamp + "]"@, ps)
            &&& #[trigger] spec_painted(level.spec_color_codes(), level.spec_tag(), pt)
            &&& line == ps + " "@ + pt + " "@ + message
        }
}

impl LogLevel {
    /// The severity's display tag in the severity's color: the tag verbatim,
    /// or between the severity's own style sequence and the reset.
    pub fn color(&self) -> (r: String)
        ensures
            spec_painted(self.spec_color_codes(), self.spec_tag(), r@),
    {
        let text = self.as_str();
        match *self {
            LogLevel::Error => bright_red_text(text),
            LogLevel::Warn => bright_yellow_text(text),
            LogLevel::Debug => bright_black_text(text),
            LogLevel::Info => bright_green_text(text),
        }
    }
}

/// Format one log line: `stamp` in brackets painted dark, the severity's tag
/// in the severity's color, and the message, space-separated, together with
/// the stream the line belongs on.
pub fn compose(level: LogLevel, stamp: &str, message: &str) -> (e: Emission)
    ensures
        e.stream == spec_stream_for(level),
        spec_line_shape(e.line@, stamp@, level, message@),
{
    let mut bracketed = String::new();
    bracketed.append("[");
    bracketed.append(stamp);
    bracketed.append("]");
    let painted_stamp = bright_black_text(bracketed.as_str());
    let painted_tag = level.color();
    let ghost painted_stamp_view = painted_stamp@;
    let mut line = painted_stamp;
    line.append(" ");
    line.append(painted_tag.as_str());
    line.append(" ");
    line.append(message);
    proof {
        assert(bracketed@ =~= "["@ + stamp@ + "]"@);
        assert(spec_painted(dark_codes(), "["@ + stamp@ + "]"@, painted_stamp_view));
        assert(spec_painted(level.spec_color_codes(), level.spec_tag(), painted_tag@));
        assert(line@ == painted_stamp_view + " "@ + painted_tag@ + " "@ + message@);
    }
    Emission { line, stream: stream_for(level) }
}

/// The logger: holds the current minimum-severity threshold and performs
/// filtered, formatted output.
pub struct Logger {
    log_level: LogLevel,
}

impl Logger {
    /// The current threshold: a message is emitted exactly when its severity
    /// is at least as severe as this level.
    pub closed spec fn threshold(self) -> LogLevel {
        self.log_level
    }

    /// The logger as it stands once its threshold is overwritten with `level`.
    pub closed spec fn with_threshold(self, level: LogLevel) -> Logger {
        Logger { log_level: level }
    }

    /// Whether a message of severity `level` passes the current threshold.
    pub open spec fn spec_permits(self, level: LogLevel) -> bool {
        level.spec_at_least(self.threshold())
    }

    /// A fresh logger. The threshold starts at `Info`, the least severe
    /// level, so at first every message is emitted.
    pub fn new() -> (r: Logger)
        ensures
            r.threshold() == LogLevel::Info,
    {
        Logger { log_level: LogLevel::Info }
    }

    /// Unconditionally replace the current threshold with `level`.
    pub fn set_log_level(&mut self, level: LogLevel)
        ensures
            *final(self) == old(self).with_threshold(level),
            final(self).threshold() == level,
    {
        self.log_level = level;
    }

    /// Whether a message of severity `level` would be emitted now.
    pub fn should_log(&self, level: LogLevel) -> (r: bool)
        ensures
            r == self.spec_permits(level),
    {
        level.at_least(&self.log_level)
    }

    /// Render what `log` would write: `Some` with the line and its stream
    /// exactly when `level` passes the current threshold, `None` otherwise.
    pub fn render(&self, level: LogLevel, stamp: &str, message: &str) -> (r: Option<Emission>)
        ensures
            (r is Some) == self.spec_permits(level),
            (r matches Some(e) ==> e.stream == spec_stream_for(level)
                && spec_line_shape(e.line@, stamp@, level, message@)),
    {
        if self.should_log(level) {
            Some(compose(level, stamp, message))
        } else {
            None
        }
    }

    /// Check the threshold and, if `level` passes it, write one line,
    /// `[<timestamp>] [<tag>] <message>`, to the severity's stream: standard
    /// error for `Error`, standard output for every other severity. If
    /// `level` does not pass, the call is a silent no-op.
    pub fn log(&self, level: LogLevel, message: &str) {
        if self.should_log(level) {
            let stamp = now_string();
            let emission = compose(level, stamp.as_str(), message);
            match emission.stream {
                LogStream::Error => write_error_line(emission.line.as_str()),
                LogStream::Standard => write_standard_line(emission.line.as_str()),
            }
        }
    }

    /// Log `message` at `Info` severity.
    pub fn info(&self, message: &str) {
        self.log(LogLevel::Info, message);
    }

    /// Log `message` at `Warn` severity.
    pub fn warn(&self, message: &str) {
        self.log(LogLevel::Warn, message);
    }

    /// Log `message` at `Error` severity.
    pub fn error(&self, message: &str) {
        self.log(LogLevel::Error, message);
    }

    /// Log `message` at `Debug` severity.
    pub fn debug(&self, message: &str) {
        self.log(LogLevel::Debug, message);
    }
}

/// Filtering law: a message is permitted exactly when its severity is at
/// least as severe as the current threshold under the declared total order.
pub proof fn lemma_permits_iff_at_least(l: Logger, level: LogLevel)
    ensures
        l.spec_permits(level) <==> level.severity() <= l.threshold().severity(),
{
}

/// Idempotence law: overwriting the threshold with `t` and then with `t`
/// again leaves the logger exactly as one overwrite does, so its filtering
/// behaviour is unchanged.
pub proof fn lemma_set_threshold_idempotent(l: Logger, t: LogLevel)
    ensures
        l.with_threshold(t).with_threshold(t) == l.with_threshold(t),
{
}

/// Visibility law: once the threshold is overwritten with `t`, the logger's
/// threshold is `t`, whatever it was before, so every later filtering
/// decision is taken against `t`.
pub proof fn lemma_set_threshold_visible(l: Logger, t: LogLevel)
    ensures
        l.with_threshold(t).threshold() == t,
{
}

/// Routing law: a line goes to the error stream exactly when its severity is
/// `Error`; every other severity goes to the standard stream, never both.
pub proof fn lemma_stream_routing(level: LogLevel)
    ensures
        (spec_stream_for(level) == LogStream::Error) <==> (level == LogLevel::Error),
        (spec_stream_for(level) == LogStream::Standard) <==> (level != LogLevel::Error),
{
}

} // verus!
