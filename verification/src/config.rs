//! The persisted configuration record: the knobs the worker process is
//! started with, together with the errors the persistence layer can report.

use vstd::prelude::*;

verus! {

/// Configuration handed to the worker on every start.
///
/// `interval` is a positive number of seconds; the four flags default to
/// `true`.  `idle_check` and `low_priority` are persisted but deliberately
/// never translated into worker arguments: the worker's command contract
/// does not know them.
#[derive(Clone, Copy, Debug, PartialEq, Eq, Structural)]
pub struct Config {
    pub interval: u32,
    pub adaptive: bool,
    pub burst: bool,
    pub idle_check: bool,
    pub low_priority: bool,
}

impl Config {
    /// A configuration is valid when its interval is a positive integer.
    pub open spec fn valid(self) -> bool {
        self.interval >= 1
    }
}

impl Default for Config {
    /// The defaults used when no record has ever been persisted.
    fn default() -> (c: Config)
        ensures
            c == (Config {
                interval: 4,
                adaptive: true,
                burst: true,
                idle_check: true,
                low_priority: true,
            }),
            c.valid(),
    {
        Config { interval: 4, adaptive: true, burst: true, idle_check: true, low_priority: true }
    }
}

/// Failures of the persistence layer.
///
/// `ConfigCorrupt` reports a present but unparsable record;
/// `ConfigWriteError` an I/O failure while writing; `HomeDirUnresolvable`
/// that the storage root could not be determined.  The `String` payloads
/// carry the diagnostic detail for display.
#[derive(Debug)]
pub enum ConfigError {
    ConfigCorrupt(String),
    ConfigWriteError(String),
    HomeDirUnresolvable,
}

} // verus!
