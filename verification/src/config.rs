//! Configuration data for the synchronization pipeline.
//!
//! The configuration is owned by the surrounding program, which loads it from
//! a file and hands it over as plain values. The library only reads it: the
//! getters below supply the defaults, and `find_gfroerli_sensor_id` resolves
//! the station-to-sensor mapping that the forwarding step is addressed by.

use vstd::prelude::*;

verus! {

/// Execution mode for the cycle scheduler: run one cycle and terminate, or
/// sleep between cycles forever.
#[derive(Clone, Copy, Debug, PartialEq, Eq, Structural)]
pub enum RunMode {
    /// Run once and exit.
    Oneshot,
    /// Run continuously in a loop.
    Loop,
}

impl Default for RunMode {
    fn default() -> (r: Self)
        ensures
            r == RunMode::Oneshot,
    {
        RunMode::Oneshot
    }
}

/// Association of one station with the downstream sensor that its readings
/// are forwarded to.
#[derive(Clone, Copy, Debug, PartialEq, Eq, Structural)]
pub struct StationConfig {
    /// FOEN hydrological station ID.
    pub foen_station_id: u32,
    /// Gfrörli sensor ID.
    pub gfroerli_sensor_id: u32,
}

/// Downstream ingestion API endpoint and credential.
#[derive(Clone, Debug)]
pub struct GfroerliConfig {
    /// Gfrörli API base URL.
    pub api_url: String,
    /// Gfrörli private API key.
    pub api_key: String,
}

/// Logging configuration.
#[derive(Clone, Debug)]
pub struct LoggingConfig {
    /// Log level filter.
    pub level: String,
}

/// Database configuration.
#[derive(Clone, Debug)]
pub struct DatabaseConfig {
    /// Path to the SQLite ledger file.
    pub path: String,
}

/// Run configuration.
#[derive(Clone, Copy, Debug)]
pub struct RunConfig {
    /// Interval between cycles in minutes; only used in loop mode.
    pub interval_minutes: u32,
    /// Execution mode; oneshot when absent.
    pub mode: Option<RunMode>,
}

/// Main configuration structure.
#[derive(Clone, Debug)]
pub struct Config {
    /// List of station configurations.
    pub stations: Vec<StationConfig>,
    /// Gfrörli API configuration.
    pub gfroerli_api: GfroerliConfig,
    /// Logging configuration; level "info" when absent.
    pub logging: Option<LoggingConfig>,
    /// Database configuration; path "measurements.db" when absent.
    pub database: Option<DatabaseConfig>,
    /// Run configuration; oneshot mode, 5 minute interval when absent.
    pub run: Option<RunConfig>,
}

/// The sensor that the first station with the given ID maps to, if any.
pub open spec fn spec_find_sensor(stations: Seq<StationConfig>, foen_station_id: u32) -> Option<u32>
    decreases stations.len(),
{
    if stations.len() == 0 {
        None
    } else if stations[0].foen_station_id == foen_station_id {
        Some(stations[0].gfroerli_sensor_id)
    } else {
        spec_find_sensor(stations.drop_first(), foen_station_id)
    }
}

impl Config {
    /// The logging level, with fallback to "info" if not configured.
    pub fn logging_level(&self) -> (r: &str)
        ensures
            self.logging matches Some(l) ==> r@ == l.level@,
            self.logging is None ==> r@ == "info"@,
    {
        match &self.logging {
            Some(l) => l.level.as_str(),
            None => "info",
        }
    }

    /// The ledger database path, with fallback to "measurements.db" if not
    /// configured.
    pub fn database_path(&self) -> (r: &str)
        ensures
            self.database matches Some(d) ==> r@ == d.path@,
            self.database is None ==> r@ == "measurements.db"@,
    {
        match &self.database {
            Some(d) => d.path.as_str(),
            None => "measurements.db",
        }
    }

    /// The interval between cycles in minutes, with fallback to 5 minutes if
    /// not configured.
    pub fn run_interval_minutes(&self) -> (r: u32)
        ensures
            self.run matches Some(rc) ==> r == rc.interval_minutes,
            self.run is None ==> r == 5,
    {
        match &self.run {
            Some(rc) => rc.interval_minutes,
            None => 5,
        }
    }

    /// The run mode, with fallback to oneshot if not configured.
    pub fn run_mode(&self) -> (r: RunMode)
        ensures
            (match self.run {
                Some(rc) => match rc.mode {
                    Some(m) => r == m,
                    None => r == RunMode::Oneshot,
                },
                None => r == RunMode::Oneshot,
            }),
    {
        match &self.run {
            Some(rc) => match rc.mode {
                Some(m) => m,
                None => RunMode::Oneshot,
            },
            None => RunMode::Oneshot,
        }
    }

    /// All configured FOEN station IDs, in configured order.
    pub fn foen_station_ids(&self) -> (r: Vec<u32>)
        ensures
            r@.len() == self.stations@.len(),
            forall|i: int| 0 <= i < r@.len() ==> r@[i] == self.stations@[i].foen_station_id,
    {
        let mut r: Vec<u32> = Vec::new();
        let n = self.stations.len();
        let mut i: usize = 0;
        while i < n
            invariant
                i <= n,
                n == self.stations@.len(),
                r@.len() == i,
                forall|j: int| 0 <= j < i ==> r@[j] == self.stations@[j].foen_station_id,
            decreases n - i,
        {
            r.push(self.stations[i].foen_station_id);
            i += 1;
        }
        r
    }

    /// The Gfrörli sensor ID mapped to the given FOEN station ID: the first
    /// matching entry of the station list, or `None` when the station is not
    /// configured.
    pub fn find_gfroerli_sensor_id(&self, foen_station_id: u32) -> (r: Option<u32>)
        ensures
            r == spec_find_sensor(self.stations@, foen_station_id),
    {
        let n = self.stations.len();
        let mut i: usize = 0;
        assert(self.stations@.skip(0) =~= self.stations@);
        while i < n
            invariant
                i <= n,
                n == self.stations@.len(),
                spec_find_sensor(self.stations@, foen_station_id)
                    == spec_find_sensor(self.stations@.skip(i as int), foen_station_id),
            decreases n - i,
        {
            if self.stations[i].foen_station_id == foen_station_id {
                assert(self.stations@.skip(i as int)[0] == self.stations@[i as int]);
                return Some(self.stations[i].gfroerli_sensor_id);
            }
            assert(self.stations@.skip(i as int).drop_first() =~= self.stations@.skip(i as int + 1));
            i += 1;
        }
        assert(self.stations@.skip(n as int) =~= Seq::<StationConfig>::empty());
        None
    }
}

} // verus!
