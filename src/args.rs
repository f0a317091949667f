use vstd::prelude::*;

verus! {

/// The verbosity levels that the command line accepts.
#[derive(Debug, Clone, Copy, PartialEq, Eq)]
pub enum LogLevels {
    Trace,
    Debug,
    Info,
    Warn,
    Error,
}

#[verifier::external_type_specification]
pub struct ExLevel(log::Level);

/// The command-line options of the exporter, once parsed.
#[derive(Debug, Clone)]
pub struct Args {
    /// Path of the monitoring configuration file.
    pub config: String,
    /// Personal access token, when one is used.
    pub pat: Option<String>,
    /// Application id, used together with `app_secret`.
    pub app_id: Option<String>,
    /// Application secret, used together with `app_id`.
    pub app_secret: Option<String>,
    /// Requested verbosity.
    pub log_level: LogLevels,
}

/// The `log` level that corresponds to each command-line level.
pub open spec fn level_of(l: LogLevels) -> log::Level {
    match l {
        LogLevels::Trace => log::Level::Trace,
        LogLevels::Debug => log::Level::Debug,
        LogLevels::Info => log::Level::Info,
        LogLevels::Warn => log::Level::Warn,
        LogLevels::Error => log::Level::Error,
    }
}

impl LogLevels {
    /// Converts to the level type of the logging facade.
    pub fn into_level(self) -> (r: log::Level)
        ensures
            r == level_of(self),
    {
        match self {
            LogLevels::Trace => log::Level::Trace,
            LogLevels::Debug => log::Level::Debug,
            LogLevels::Info => log::Level::Info,
            LogLevels::Warn => log::Level::Warn,
            LogLevels::Error => log::Level::Error,
        }
    }
}

} // verus!
