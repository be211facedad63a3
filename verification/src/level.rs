use vstd::prelude::*;

verus! {

/// Severity of a log message.
///
/// The declared total order, from most to least severe, is
/// `Error` > `Warn` > `Debug` > `Info`; [`LogLevel::severity`] gives each
/// level's position in that order (0 is most severe).
#[derive(Debug, Clone, Copy, PartialEq, Eq, Structural)]
pub enum LogLevel {
    Error,
    Warn,
    Debug,
    Info,
}

impl LogLevel {
    /// Position of this level in the declared total order: 0 (most severe)
    /// for `Error`, 3 (least severe) for `Info`.
    pub open spec fn severity(self) -> int {
        match self {
            LogLevel::Error => 0,
            LogLevel::Warn => 1,
            LogLevel::Debug => 2,
            LogLevel::Info => 3,
        }
    }

    /// `self` is at least as severe as `other` in the declared total order.
    pub open spec fn spec_at_least(self, other: LogLevel) -> bool {
        self.severity() <= other.severity()
    }

    /// The ANSI style codes of the severity's display color: bright red for
    /// `Error`, bright yellow for `Warn`, bright black (gray) for `Debug`,
    /// bright green for `Info`.
    pub open spec fn spec_color_codes(self) -> Seq<char> {
        match self {
            LogLevel::Error => seq!['9', '1'],
            LogLevel::Warn => seq!['9', '3'],
            LogLevel::Debug => seq!['9', '0'],
            LogLevel::Info => seq!['9', '2'],
        }
    }

    /// The bracketed, fixed-width display tag of each severity.
    pub open spec fn spec_tag(self) -> Seq<char> {
        match self {
            LogLevel::Error => "[ERRR]"@,
            LogLevel::Warn => "[WARN]"@,
            LogLevel::Debug => "[DEBU]"@,
            LogLevel::Info => "[INFO]"@,
        }
    }

    fn rank(&self) -> (r: u8)
        ensures
            r == self.severity(),
    {
        match *self {
            LogLevel::Error => 0,
            LogLevel::Warn => 1,
            LogLevel::Debug => 2,
            LogLevel::Info => 3,
        }
    }

    /// Whether `self` is at least as severe as `other`.
    pub fn at_least(&self, other: &LogLevel) -> (r: bool)
        ensures
            r == self.spec_at_least(*other),
    {
        self.rank() <= other.rank()
    }

    /// The display tag: `"[ERRR]"`, `"[WARN]"`, `"[DEBU]"` or `"[INFO]"`.
    pub fn as_str(&self) -> (r: &'static str)
        ensures
            r@ == self.spec_tag(),
    {
        match *self {
            LogLevel::Error => "[ERRR]",
            LogLevel::Warn => "[WARN]",
            LogLevel::Debug => "[DEBU]",
            LogLevel::Info => "[INFO]",
        }
    }
}

} // verus!
