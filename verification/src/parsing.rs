//! Interpretation of query responses: from the rows the endpoint returned
//! to at most one well-formed measurement per station.
//!
//! Every bound variable of a response row arrives as a plain string (the
//! surrounding program unwraps the uniform `{value: ...}` wrapper of the
//! wire format); the type-specific parsing below is the library's.

use vstd::prelude::*;

use crate::text::{check_decimal, is_decimal_text};
use crate::timestamp::{parse_rfc3339_epoch, rfc3339_epoch, MAX_EPOCH};

verus! {

/// One row binding of a station's query result, each bound variable already
/// unwrapped to its value string.
#[derive(Debug, Clone, PartialEq, Eq)]
pub struct SparqlBinding {
    /// The station's display name.
    pub name: String,
    /// The measurement instant, as RFC 3339 text.
    pub time: String,
    /// The water temperature, as decimal text.
    pub temperature: String,
}

/// Container for the query result bindings.
#[derive(Debug, Clone, PartialEq, Eq)]
pub struct Results {
    /// The returned rows.
    pub bindings: Vec<SparqlBinding>,
}

/// A structured query response.
#[derive(Debug, Clone, PartialEq, Eq)]
pub struct SparqlResponse {
    /// The result section of the response.
    pub results: Results,
}

/// A water temperature measurement from a monitoring station. Immutable
/// once constructed; created here, consumed by the forwarder and the dedup
/// ledger.
#[derive(Debug, Clone, PartialEq, Eq)]
pub struct StationMeasurement {
    /// The station the reading belongs to.
    pub station_id: u32,
    /// The station's display name; may be empty.
    pub station_name: String,
    /// Instant of physical measurement, as epoch seconds.
    pub time: i64,
    /// Water temperature in degrees Celsius, as the decimal text the
    /// endpoint reported.
    pub temperature: String,
}

impl StationMeasurement {
    /// Well-formedness: the temperature is decimal text and the instant is
    /// renderable, so the forwarder can serialize the measurement.
    pub open spec fn wf(&self) -> bool {
        is_decimal_text(self.temperature@) && 0 <= self.time <= MAX_EPOCH
    }
}

/// Why fetching one station's reading failed. Each case carries what is
/// needed to attribute the failure from logs alone.
#[derive(Debug, Clone, PartialEq, Eq)]
pub enum FetchError {
    /// The transport failed before any response arrived.
    Transport {
        /// What the transport reported.
        message: String,
    },
    /// The endpoint answered with a non-success status.
    Status {
        /// The HTTP status code.
        status: u16,
        /// The response body, verbatim.
        body: String,
    },
    /// The response body was not in the expected shape.
    MalformedResponse {
        /// What the decoder reported.
        message: String,
    },
    /// More rows came back than the single one the query asks for: a
    /// contract violation by the remote source.
    MultipleRows {
        /// How many rows came back.
        count: usize,
    },
    /// The measurement instant could not be read as a timestamp in the
    /// supported range.
    InvalidTimestamp {
        /// The offending text.
        value: String,
    },
    /// The temperature could not be read as a decimal number.
    InvalidTemperature {
        /// The offending text.
        value: String,
    },
}

/// The instant a time text denotes, when it parses and lies in the range
/// the forwarder can render (1970 up to the year 9999).
pub open spec fn parsed_instant(s: Seq<char>) -> Option<i64> {
    match rfc3339_epoch(s) {
        Some(t) => if 0 <= t <= MAX_EPOCH {
            Some(t)
        } else {
            None
        },
        None => None,
    }
}

/// Turns one station's query response into at most one measurement: zero
/// rows is "no measurement available", not an error; more than one row
/// breaks the one-row contract of the query and is rejected; the single
/// row's instant and temperature must parse, the instant first.
pub fn extract_measurement(station_id: u32, response: SparqlResponse) -> (r: Result<
    Option<StationMeasurement>,
    FetchError,
>)
    ensures
        response.results.bindings@.len() == 0 ==> (r matches Ok(m) && m is None),
        response.results.bindings@.len() > 1 ==> (r matches Err(e) && e matches
            FetchError::MultipleRows { count } && count == response.results.bindings@.len()),
        response.results.bindings@.len() == 1 ==> ({
            let b = response.results.bindings@[0];
            match parsed_instant(b.time@) {
                None => r matches Err(e) && e == (FetchError::InvalidTimestamp { value: b.time }),
                Some(t) => {
                    if is_decimal_text(b.temperature@) {
                        r matches Ok(m) && m matches Some(sm) && sm.station_id == station_id
                            && sm.station_name == b.name && sm.time == t && sm.temperature
                            == b.temperature && sm.wf()
                    } else {
                        r matches Err(e) && e == (FetchError::InvalidTemperature {
                            value: b.temperature,
                        })
                    }
                },
            }
        }),
{
    let mut bindings = response.results.bindings;
    if bindings.len() == 0 {
        return Ok(None);
    }
    if bindings.len() > 1 {
        return Err(FetchError::MultipleRows { count: bindings.len() });
    }
    let b = bindings.remove(0);
    let t = match parse_rfc3339_epoch(b.time.as_str()) {
        Some(t) => t,
        None => {
            return Err(FetchError::InvalidTimestamp { value: b.time });
        },
    };
    if t < 0 || t > MAX_EPOCH {
        return Err(FetchError::InvalidTimestamp { value: b.time });
    }
    if !check_decimal(b.temperature.as_str()) {
        return Err(FetchError::InvalidTemperature { value: b.temperature });
    }
    Ok(
        Some(
            StationMeasurement {
                station_id,
                station_name: b.name,
                time: t,
                temperature: b.temperature,
            },
        ),
    )
}

} // verus!
