//! The log level of the process: its names, and the one configuration that
//! holds it.

use vstd::prelude::*;
use vstd::string::StringExecFns;
use crate::error::{ErrorKind, ErrorModel, PiskyError};
use crate::text::{folded, same_text_ignoring_case};

verus! {

/// How much is logged.
#[derive(Clone, Copy, Debug, PartialEq, Eq, Structural)]
pub enum LogLevel {
    Trace,
    Debug,
    Info,
    Warn,
    Error,
    Off,
}

/// The level that a name stands for, if it stands for one. There are six
/// names, one for each level, and no other text names a level. Names are
/// read without regard to ASCII case.
pub open spec fn level_named(name: Seq<char>) -> Option<LogLevel> {
    let lower = folded(name);
    if lower == "trace"@ {
        Some(LogLevel::Trace)
    } else if lower == "debug"@ {
        Some(LogLevel::Debug)
    } else if lower == "info"@ {
        Some(LogLevel::Info)
    } else if lower == "warn"@ {
        Some(LogLevel::Warn)
    } else if lower == "error"@ {
        Some(LogLevel::Error)
    } else if lower == "off"@ {
        Some(LogLevel::Off)
    } else {
        None
    }
}

/// The message of the error that an unknown level name gives.
pub open spec fn invalid_level_message(name: Seq<char>) -> Seq<char> {
    "Invalid log level: "@ + name
        + ". Valid levels are: trace, debug, info, warn, error, off"@
}

/// The names of the levels are written in lower case.
proof fn lemma_level_names_are_lower_case()
    ensures
        folded("trace"@) == "trace"@,
        folded("debug"@) == "debug"@,
        folded("info"@) == "info"@,
        folded("warn"@) == "warn"@,
        folded("error"@) == "error"@,
        folded("off"@) == "off"@,
{
    reveal_strlit("trace");
    reveal_strlit("debug");
    reveal_strlit("info");
    reveal_strlit("warn");
    reveal_strlit("error");
    reveal_strlit("off");
}

/// Reads the name of a level.
pub fn parse_log_level(name: &str) -> (level: Option<LogLevel>)
    ensures
        level == level_named(name@),
{
    proof {
        lemma_level_names_are_lower_case();
    }
    if same_text_ignoring_case(name, "trace") {
        Some(LogLevel::Trace)
    } else if same_text_ignoring_case(name, "debug") {
        Some(LogLevel::Debug)
    } else if same_text_ignoring_case(name, "info") {
        Some(LogLevel::Info)
    } else if same_text_ignoring_case(name, "warn") {
        Some(LogLevel::Warn)
    } else if same_text_ignoring_case(name, "error") {
        Some(LogLevel::Error)
    } else if same_text_ignoring_case(name, "off") {
        Some(LogLevel::Off)
    } else {
        None
    }
}

/// The logging configuration of the process. It is initialised at most
/// once; until then the level in force is `Info`.
#[derive(Debug)]
pub struct LogConfig {
    level: Option<LogLevel>,
}

impl View for LogConfig {
    type V = Option<LogLevel>;

    /// The level that was set, or `None` before the first initialisation.
    closed spec fn view(&self) -> Option<LogLevel> {
        self.level
    }
}

/// The level in force under a configuration.
pub open spec fn level_in_force(config: Option<LogLevel>) -> LogLevel {
    match config {
        Some(level) => level,
        None => LogLevel::Info,
    }
}

impl LogConfig {
    /// A configuration that was not initialised yet.
    pub fn new() -> (config: LogConfig)
        ensures
            config@ is None,
    {
        LogConfig { level: None }
    }

    /// Whether the configuration was initialised.
    pub fn is_initialized(&self) -> (initialized: bool)
        ensures
            initialized == (self@ is Some),
    {
        self.level.is_some()
    }

    /// The level in force.
    pub fn level(&self) -> (level: LogLevel)
        ensures
            level == level_in_force(self@),
    {
        match self.level {
            Some(level) => level,
            None => LogLevel::Info,
        }
    }
}

/// Initialises the configuration with `level`. Only the first
/// initialisation counts: a configuration that has a level keeps it.
pub fn init_logger(config: &mut LogConfig, level: LogLevel)
    ensures
        final(config)@ == (match old(config)@ {
            Some(kept) => Some(kept),
            None => Some(level),
        }),
{
    if !config.is_initialized() {
        config.level = Some(level);
    }
}

/// Sets the level by its name. A known name sets the level, whether or not
/// the configuration was initialised before; an unknown name is a
/// configuration error that quotes it and changes nothing.
pub fn set_log_level(config: &mut LogConfig, level_str: &str) -> (r: Result<(), PiskyError>)
    ensures
        match level_named(level_str@) {
            Some(level) => r is Ok && final(config)@ == Some(level),
            None => r is Err && final(config)@ == old(config)@ && r->Err_0@ == (ErrorModel {
                kind: ErrorKind::Configuration,
                message: invalid_level_message(level_str@),
            }),
        },
{
    match parse_log_level(level_str) {
        Some(level) => {
            config.level = Some(level);
            Ok(())
        },
        None => {
            let message = String::from_str("Invalid log level: ").concat(level_str).concat(
                ". Valid levels are: trace, debug, info, warn, error, off",
            );
            Err(PiskyError::new(ErrorKind::Configuration, message))
        },
    }
}

} // verus!
