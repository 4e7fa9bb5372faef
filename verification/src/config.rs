//! The gateway's configuration, as read values are turned into it.

use vstd::prelude::*;

verus! {

/// How much is logged.
#[derive(Debug, Clone, Copy, PartialEq, Eq, Structural)]
pub enum Level {
    Error,
    Warn,
    Info,
    Debug,
    Trace,
}

/// The log verbosity of the application.
#[derive(Debug, Clone, Copy, PartialEq, Eq, Structural)]
pub struct LogLevel(pub Level);

/// How the wallet is opened.
#[derive(Debug)]
pub struct WalletConfig {
    pub kdf: String,
    pub key: String,
    pub name: String,
}

/// Which ledger pool is joined.
#[derive(Debug)]
pub struct PoolConfig {
    pub name: String,
    pub network: String,
}

/// Settings of the application itself.
#[derive(Debug)]
pub struct ApplicationConfig {
    pub log_level: LogLevel,
    pub port: u16,
}

/// The whole configuration.
#[derive(Debug)]
pub struct Config {
    pub pool: PoolConfig,
    pub wallet: WalletConfig,
    pub application: ApplicationConfig,
}

/// The level that `name` names: one of the five lower-case names, or none.
pub open spec fn level_named(name: Seq<char>) -> Option<Level> {
    if name == "error"@ {
        Some(Level::Error)
    } else if name == "warn"@ {
        Some(Level::Warn)
    } else if name == "info"@ {
        Some(Level::Info)
    } else if name == "debug"@ {
        Some(Level::Debug)
    } else if name == "trace"@ {
        Some(Level::Trace)
    } else {
        None
    }
}

/// The message for a name that names no level.
pub open spec fn invalid_level_message(name: Seq<char>) -> Seq<char> {
    "Invalid log level: "@ + name
}

/// Whether `a` and `b` hold the same characters.
fn same_text(a: &str, b: &str) -> (same: bool)
    ensures
        same == (a@ == b@),
{
    a.to_owned() == b.to_owned()
}

impl LogLevel {
    /// Reads a log level from its name. The names are `error`, `warn`,
    /// `info`, `debug` and `trace`, in lower case; any other text is refused
    /// with a message that quotes it.
    pub fn deserialize(name: &str) -> (level: Result<LogLevel, String>)
        ensures
            match level {
                Ok(l) => level_named(name@) == Some(l.0),
                Err(message) => level_named(name@) is None && message@ == invalid_level_message(name@),
            },
    {
        if same_text(name, "error") {
            Ok(LogLevel(Level::Error))
        } else if same_text(name, "warn") {
            Ok(LogLevel(Level::Warn))
        } else if same_text(name, "info") {
            Ok(LogLevel(Level::Info))
        } else if same_text(name, "debug") {
            Ok(LogLevel(Level::Debug))
        } else if same_text(name, "trace") {
            Ok(LogLevel(Level::Trace))
        } else {
            let mut message = "Invalid log level: ".to_owned();
            message.append(name);
            Err(message)
        }
    }
}

impl Config {
    /// Puts a configuration together from the values that were read. The
    /// log level is given by name and is the one value that can be refused.
    pub fn new(pool: PoolConfig, wallet: WalletConfig, log_level: &str, port: u16) -> (config: Result<
        Config,
        String,
    >)
        ensures
            match config {
                Ok(c) => {
                    &&& level_named(log_level@) == Some(c.application.log_level.0)
                    &&& c.application.port == port
                    &&& c.pool == pool
                    &&& c.wallet == wallet
                },
                Err(message) => level_named(log_level@) is None && message@ == invalid_level_message(
                    log_level@,
                ),
            },
    {
        match LogLevel::deserialize(log_level) {
            Ok(level) => Ok(Config { pool, wallet, application: ApplicationConfig { log_level: level, port } }),
            Err(message) => Err(message),
        }
    }
}

} // verus!
