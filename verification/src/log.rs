use vstd::prelude::*;
use vstd::string::*;

verus! {

/// How serious a log record is, from the most serious down.
#[derive(Debug, Clone, Copy, PartialEq, Eq, Structural)]
pub enum Level {
    Error,
    Warn,
    Info,
    Debug,
    Trace,
}

/// Which records a logger lets through.
#[derive(Debug, Clone, Copy, PartialEq, Eq, Structural)]
pub enum LevelFilter {
    Off,
    Error,
    Warn,
    Info,
    Debug,
    Trace,
}

/// The host's level for errors.
pub const LOG_ERROR: u32 = 100;

/// The host's level for warnings.
pub const LOG_WARNING: u32 = 200;

/// The host's level for information.
pub const LOG_INFO: u32 = 300;

/// The host's level for debugging, which only debug builds of the host show.
pub const LOG_DEBUG: u32 = 400;

impl Level {
    /// The place of the level: 1 for errors, up to 5 for traces.
    pub open spec fn rank(self) -> int {
        match self {
            Level::Error => 1,
            Level::Warn => 2,
            Level::Info => 3,
            Level::Debug => 4,
            Level::Trace => 5,
        }
    }

    /// The name of the level in capitals.
    pub open spec fn name(self) -> Seq<char> {
        match self {
            Level::Error => "ERROR"@,
            Level::Warn => "WARN"@,
            Level::Info => "INFO"@,
            Level::Debug => "DEBUG"@,
            Level::Trace => "TRACE"@,
        }
    }

    pub fn as_str(self) -> (r: &'static str)
        ensures
            r@ == self.name(),
    {
        match self {
            Level::Error => "ERROR",
            Level::Warn => "WARN",
            Level::Info => "INFO",
            Level::Debug => "DEBUG",
            Level::Trace => "TRACE",
        }
    }

    fn number(self) -> (r: u8)
        ensures
            r == self.rank(),
    {
        match self {
            Level::Error => 1,
            Level::Warn => 2,
            Level::Info => 3,
            Level::Debug => 4,
            Level::Trace => 5,
        }
    }
}

impl LevelFilter {
    /// The place of the filter: 0 for off, then as the levels.
    pub open spec fn rank(self) -> int {
        match self {
            LevelFilter::Off => 0,
            LevelFilter::Error => 1,
            LevelFilter::Warn => 2,
            LevelFilter::Info => 3,
            LevelFilter::Debug => 4,
            LevelFilter::Trace => 5,
        }
    }

    fn number(self) -> (r: u8)
        ensures
            r == self.rank(),
    {
        match self {
            LevelFilter::Off => 0,
            LevelFilter::Error => 1,
            LevelFilter::Warn => 2,
            LevelFilter::Info => 3,
            LevelFilter::Debug => 4,
            LevelFilter::Trace => 5,
        }
    }
}

/// The host's level for a record of `level`. The host has four levels and
/// shows the lowest only in its debug builds, so debug and trace records
/// can be promoted to information.
pub open spec fn native_level(level: Level, promote_debug: bool) -> u32 {
    match level {
        Level::Error => LOG_ERROR,
        Level::Warn => LOG_WARNING,
        Level::Info => LOG_INFO,
        _ => if promote_debug {
            LOG_INFO
        } else {
            LOG_DEBUG
        },
    }
}

#[verifier::when_used_as_spec(native_level)]
pub fn to_native_level(level: Level, promote_debug: bool) -> (r: u32)
    ensures
        r == native_level(level, promote_debug),
{
    match level {
        Level::Error => LOG_ERROR,
        Level::Warn => LOG_WARNING,
        Level::Info => LOG_INFO,
        _ => {
            if promote_debug {
                LOG_INFO
            } else {
                LOG_DEBUG
            }
        },
    }
}

/// A logger that writes to the log of the host.
///
/// The host writes its log to a file as well, which helps where it was not
/// started from a console.
#[derive(Debug, Clone, Copy, PartialEq, Eq, Structural)]
pub struct Logger {
    pub max_level: LevelFilter,
    pub promote_debug: bool,
}

impl Default for Logger {
    fn default() -> (r: Self)
        ensures
            r == (Logger { max_level: LevelFilter::Info, promote_debug: false }),
    {
        Self { max_level: LevelFilter::Info, promote_debug: false }
    }
}

/// One line for the host's log, with the level to write it at.
#[derive(Debug, Clone, PartialEq, Eq)]
pub struct LogLine {
    pub native_level: u32,
    pub line: String,
}

impl Logger {
    /// A logger that filters at [`LevelFilter::Info`] and promotes nothing.
    pub fn new() -> (r: Self)
        ensures
            r == (Logger { max_level: LevelFilter::Info, promote_debug: false }),
    {
        Self { max_level: LevelFilter::Info, promote_debug: false }
    }

    /// Sets whether to promote [`Level::Debug`] and [`Level::Trace`] records.
    pub fn with_promote_debug(self, promote_debug: bool) -> (r: Self)
        ensures
            r == (Logger { promote_debug, ..self }),
    {
        let mut logger = self;
        logger.promote_debug = promote_debug;
        logger
    }

    /// Sets the filter.
    pub fn with_max_level(self, max_level: LevelFilter) -> (r: Self)
        ensures
            r == (Logger { max_level, ..self }),
    {
        let mut logger = self;
        logger.max_level = max_level;
        logger
    }

    /// Whether a record of `level` is let through: its place is not before
    /// the place of the filter.
    pub open spec fn lets_through(self, level: Level) -> bool {
        level.rank() >= self.max_level.rank()
    }

    #[verifier::when_used_as_spec(lets_through)]
    pub fn enabled(self, level: Level) -> (r: bool)
        ensures
            r == self.lets_through(level),
    {
        level.number() >= self.max_level.number()
    }

    /// Whether the line of a record of `level` starts with the level.
    pub open spec fn shows_level(self, level: Level) -> bool {
        self.promote_debug && level.rank() <= Level::Debug.rank()
    }

    /// What a record is filed under: its target, or the path of its module
    /// where it has no target, or nothing.
    pub open spec fn target_of(target: Seq<char>, module: Option<Seq<char>>) -> Seq<char> {
        if target.len() > 0 {
            target
        } else {
            match module {
                Some(path) => path,
                None => Seq::empty(),
            }
        }
    }

    /// The text of the line for a record, terminator included.
    pub open spec fn line_of(
        self,
        level: Level,
        target: Seq<char>,
        module: Option<Seq<char>>,
        message: Seq<char>,
    ) -> Seq<char> {
        let filed = Self::target_of(target, module);
        if self.shows_level(level) {
            "("@ + level.name() + ") ["@ + filed + "] "@ + message + "\0"@
        } else {
            "["@ + filed + "] "@ + message + "\0"@
        }
    }

    /// What the host's log is to be given for one record: nothing where the
    /// record is filtered out.
    pub fn log(&self, level: Level, target: &str, module: Option<&str>, message: &str) -> (r:
        Option<LogLine>)
        ensures
            r is Some <==> self.lets_through(level),
            r matches Some(out) ==> out.native_level == native_level(level, self.promote_debug)
                && out.line@ == self.line_of(
                level,
                target@,
                match module {
                    Some(path) => Some(path@),
                    None => None,
                },
                message@,
            ),
    {
        if !self.enabled(level) {
            return None;
        }
        let native_level = to_native_level(level, self.promote_debug);
        let filed = if target.unicode_len() > 0 {
            target
        } else {
            match module {
                Some(path) => path,
                None => "",
            }
        };
        proof {
            reveal_strlit("");
        }
        let mut line = String::new();
        if self.promote_debug && level.number() <= 4 {
            line.append("(");
            line.append(level.as_str());
            line.append(") [");
        } else {
            line.append("[");
        }
        line.append(filed);
        line.append("] ");
        line.append(message);
        line.append("\0");
        proof {
            let text = self.line_of(
                level,
                target@,
                match module {
                    Some(path) => Some(path@),
                    None => None,
                },
                message@,
            );
            assert(line@ =~= text);
        }
        Some(LogLine { native_level, line })
    }
}

} // verus!
