//! Settings of the host process.
use vstd::prelude::*;
use vstd::string::*;

verus! {

/// How much the host logs.
#[derive(Clone, Copy, Debug, PartialEq, Eq, Structural)]
pub enum Level {
    Error,
    Warn,
    Info,
    Debug,
    Trace,
}

impl Default for Level {
    fn default() -> (r: Level)
        ensures
            r == Level::Info,
    {
        Level::Info
    }
}

impl Level {
    /// The level's name in configuration files.
    pub fn as_str(&self) -> (r: &'static str)
        ensures
            r@ == match self {
                Level::Error => "error"@,
                Level::Warn => "warn"@,
                Level::Info => "info"@,
                Level::Debug => "debug"@,
                Level::Trace => "trace"@,
            },
    {
        match self {
            Level::Error => "error",
            Level::Warn => "warn",
            Level::Info => "info",
            Level::Debug => "debug",
            Level::Trace => "trace",
        }
    }
}

/// Logging settings.
#[derive(Clone, Copy, Debug, PartialEq, Eq, Structural)]
pub struct LogConfig {
    pub level: Level,
}

impl Default for LogConfig {
    fn default() -> (r: LogConfig)
        ensures
            r.level == Level::Info,
    {
        LogConfig { level: Level::Info }
    }
}

/// Where a client finds the host.
#[derive(Clone, Debug)]
pub struct ServerOpts {
    pub carol_url: String,
}

impl ServerOpts {
    /// The URL of `path` on the host.
    pub fn url_for(&self, path: &str) -> (r: String)
        ensures
            r@ == self.carol_url@ + path@,
    {
        self.carol_url.clone().concat(path)
    }
}

} // verus!
