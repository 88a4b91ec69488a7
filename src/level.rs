use vstd::prelude::*;

verus! {

/// Severity of a log message, ordered from the least to the most urgent.
///
/// `Off` is a sentinel that sorts above every other level: setting it as the
/// minimum level silences the logger.
#[derive(Clone, Copy, Debug, Hash, PartialEq, Eq, Structural, PartialOrd, Ord)]
pub enum Level {
    Trace,
    Debug,
    Info,
    Warning,
    Error,
    Critical,
    Fatal,
    Diagnostic,
    Off,
}

/// The number of levels.
pub const LEVEL_COUNT: usize = 9;

impl Level {
    /// Position of the level in tables that hold one entry per level.
    pub open spec fn slot(self) -> int {
        match self {
            Level::Trace => 0,
            Level::Debug => 1,
            Level::Info => 2,
            Level::Warning => 3,
            Level::Error => 4,
            Level::Critical => 5,
            Level::Fatal => 6,
            Level::Diagnostic => 7,
            Level::Off => 8,
        }
    }

    /// Position of the level in tables that hold one entry per level.
    pub fn slot_index(&self) -> (r: usize)
        ensures
            r as int == self.slot(),
            r < LEVEL_COUNT,
    {
        match self {
            Level::Trace => 0,
            Level::Debug => 1,
            Level::Info => 2,
            Level::Warning => 3,
            Level::Error => 4,
            Level::Critical => 5,
            Level::Fatal => 6,
            Level::Diagnostic => 7,
            Level::Off => 8,
        }
    }

    /// Position of the level in the severity order.
    pub open spec fn rank(self) -> nat {
        match self {
            Level::Trace => 0,
            Level::Debug => 1,
            Level::Info => 2,
            Level::Warning => 3,
            Level::Error => 4,
            Level::Critical => 5,
            Level::Fatal => 6,
            Level::Diagnostic => 245,
            Level::Off => 255,
        }
    }

    /// The fixed-width plain label of the level, as written to files.
    pub open spec fn label_spec(self) -> Seq<char> {
        match self {
            Level::Trace => "TRACE     "@,
            Level::Debug => "DEBUG     "@,
            Level::Info => "INFO      "@,
            Level::Warning => "WARNING   "@,
            Level::Error => "ERROR     "@,
            Level::Critical => "CRITICAL  "@,
            Level::Fatal => "FATAL     "@,
            Level::Diagnostic => "DIAGNOSTIC"@,
            Level::Off => "NONE      "@,
        }
    }

    /// The position of the level in the severity order.
    pub fn ordinal(&self) -> (r: u8)
        ensures
            r as nat == self.rank(),
    {
        match self {
            Level::Trace => 0,
            Level::Debug => 1,
            Level::Info => 2,
            Level::Warning => 3,
            Level::Error => 4,
            Level::Critical => 5,
            Level::Fatal => 6,
            Level::Diagnostic => 245,
            Level::Off => 255,
        }
    }

    /// Whether `self` is strictly less severe than `other`.
    pub fn is_below(&self, other: &Level) -> (r: bool)
        ensures
            r == (self.rank() < other.rank()),
    {
        self.ordinal() < other.ordinal()
    }

    /// The fixed-width plain label of the level (`"INFO      "`, `"DIAGNOSTIC"`).
    pub fn label(&self) -> (r: String)
        ensures
            r@ == self.label_spec(),
    {
        match self {
            Level::Trace => String::from_str("TRACE     "),
            Level::Debug => String::from_str("DEBUG     "),
            Level::Info => String::from_str("INFO      "),
            Level::Warning => String::from_str("WARNING   "),
            Level::Error => String::from_str("ERROR     "),
            Level::Critical => String::from_str("CRITICAL  "),
            Level::Fatal => String::from_str("FATAL     "),
            Level::Diagnostic => String::from_str("DIAGNOSTIC"),
            Level::Off => String::from_str("NONE      "),
        }
    }
}

} // verus!
