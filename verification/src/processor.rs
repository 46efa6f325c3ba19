//! The station processor: one station's fetch → resolve → dedup check →
//! forward → commit sequence, and a model of a whole cycle over it.
//!
//! The surrounding program drives the sequence — it performs the HTTP
//! calls — and the library takes every decision: `process_fetched` turns a
//! fetch outcome into the next step, and `finish_forward` turns the
//! downstream response into the station's outcome, writing the ledger only
//! after a confirmed success. The spec functions at the end run the same
//! state machine over a whole cycle's worth of events; the laws about
//! failure isolation and quiet cycles are stated on them.

use vstd::prelude::*;

use crate::config::{spec_find_sensor, Config, GfroerliConfig, StationConfig};
use crate::database::{is_measurement_sent, record_measurement_sent, Ledger, LedgerError};
use crate::gfroerli::{build_api_url, measurement_json, spec_api_url, spec_measurement_json};
use crate::parsing::{FetchError, StationMeasurement};
use crate::sparql::is_success_status;

verus! {

/// Why one station failed in one cycle.
#[derive(Debug, Clone, PartialEq, Eq)]
pub enum StationError {
    /// The fetch failed.
    Fetch(FetchError),
    /// No sensor is configured for the station: a configuration gap.
    NoSensorMapping,
    /// The dedup check could not read the ledger.
    LedgerRead(LedgerError),
    /// The downstream endpoint refused the measurement.
    Forward {
        /// The HTTP status code.
        status: u16,
        /// The response body, verbatim.
        body: String,
    },
    /// The reading was forwarded but could not be recorded: the
    /// duplicate-prevention invariant is at risk for this key.
    LedgerWrite(LedgerError),
}

/// What became of one station in one cycle.
#[derive(Debug, Clone, PartialEq, Eq)]
pub enum StationOutcome {
    /// The reading was forwarded and recorded.
    Sent {
        /// The station processed.
        station_id: u32,
        /// The sensor the reading went to.
        sensor_id: u32,
    },
    /// The endpoint had no reading for the station; nothing to do.
    SkippedNoData {
        /// The station processed.
        station_id: u32,
    },
    /// The reading is already recorded; the forwarder was not invoked.
    SkippedDuplicate {
        /// The station processed.
        station_id: u32,
        /// The sensor the reading maps to.
        sensor_id: u32,
    },
    /// Dry run: the reading would have been forwarded; nothing was sent and
    /// nothing was recorded.
    WouldSend {
        /// The station processed.
        station_id: u32,
        /// The sensor the reading maps to.
        sensor_id: u32,
    },
    /// The station failed this cycle; the other stations are unaffected.
    Failed {
        /// The station processed.
        station_id: u32,
        /// What went wrong.
        error: StationError,
    },
}

/// A planned forward: everything the transport needs to POST one
/// measurement, with the ledger key to record on success.
#[derive(Debug, Clone, PartialEq, Eq)]
pub struct ForwardPlan {
    /// The station the reading belongs to.
    pub station_id: u32,
    /// The sensor the downstream API is addressed by.
    pub sensor_id: u32,
    /// The endpoint URL.
    pub url: String,
    /// The JSON payload.
    pub body: String,
    /// The measurement instant: the second half of the ledger key.
    pub time: i64,
}

/// The next move for one station: done with an outcome, or a forward to
/// perform.
#[derive(Debug, Clone, PartialEq, Eq)]
pub enum StationStep {
    /// The station is done this cycle.
    Done(StationOutcome),
    /// The transport is to POST this plan and hand the response to
    /// `finish_forward`.
    Forward(ForwardPlan),
}

/// What a correct decision for a fetched, resolved measurement looks like:
/// skip an already-recorded reading, only announce it in dry-run mode, and
/// otherwise plan the forward with the exact URL and payload.
pub open spec fn forward_decision_ok(
    r: StationStep,
    api: GfroerliConfig,
    m: StationMeasurement,
    sensor_id: u32,
    already_sent: bool,
    dry_run: bool,
) -> bool {
    if already_sent {
        r == StationStep::Done(
            StationOutcome::SkippedDuplicate { station_id: m.station_id, sensor_id },
        )
    } else if dry_run {
        r == StationStep::Done(StationOutcome::WouldSend { station_id: m.station_id, sensor_id })
    } else {
        &&& r matches StationStep::Forward(p)
        &&& p.station_id == m.station_id
        &&& p.sensor_id == sensor_id
        &&& p.time == m.time
        &&& p.url@ == spec_api_url(api.api_url@, "measurements"@)
        &&& p.body@ == spec_measurement_json(sensor_id, m.temperature@, m.time as int)
    }
}

/// Decides the forwarding step for one fetched, resolved measurement, given
/// whether its key is already recorded.
pub fn decide_forward(
    api: &GfroerliConfig,
    m: &StationMeasurement,
    sensor_id: u32,
    already_sent: bool,
    dry_run: bool,
) -> (r: StationStep)
    requires
        m.wf(),
    ensures
        forward_decision_ok(r, *api, *m, sensor_id, already_sent, dry_run),
{
    if already_sent {
        StationStep::Done(
            StationOutcome::SkippedDuplicate { station_id: m.station_id, sensor_id },
        )
    } else if dry_run {
        StationStep::Done(StationOutcome::WouldSend { station_id: m.station_id, sensor_id })
    } else {
        let url = build_api_url(api.api_url.as_str(), "measurements");
        let body = measurement_json(sensor_id, m.temperature.as_str(), m.time);
        StationStep::Forward(
            ForwardPlan { station_id: m.station_id, sensor_id, url, body, time: m.time },
        )
    }
}

/// Runs one station up to the forwarding decision: a fetch failure or a
/// missing reading ends the station; otherwise the sensor is resolved, the
/// ledger is asked whether the reading was already sent, and the forwarding
/// step is decided. The ledger is only read here, never written.
pub fn process_fetched(
    config: &Config,
    ledger: &Ledger,
    station_id: u32,
    fetched: Result<Option<StationMeasurement>, FetchError>,
    dry_run: bool,
) -> (r: StationStep)
    requires
        fetched matches Ok(Some(m)) ==> m.wf(),
    ensures
        fetched matches Err(e) ==> r == StationStep::Done(
            (StationOutcome::Failed { station_id, error: StationError::Fetch(e) }),
        ),
        fetched matches Ok(None) ==> r == StationStep::Done(
            (StationOutcome::SkippedNoData { station_id }),
        ),
        fetched matches Ok(Some(m)) ==> (match spec_find_sensor(config.stations@, m.station_id) {
            None => r == StationStep::Done(
                (StationOutcome::Failed { station_id, error: StationError::NoSensorMapping }),
            ),
            Some(sensor_id) => forward_decision_ok(
                r,
                config.gfroerli_api,
                m,
                sensor_id,
                ledger@.contains((sensor_id, m.time)),
                dry_run,
            ) || (r matches StationStep::Done(StationOutcome::Failed { station_id: s, error })
                && s == station_id && error is LedgerRead),
        }),
{
    let m = match fetched {
        Err(e) => {
            return StationStep::Done(
                StationOutcome::Failed { station_id, error: StationError::Fetch(e) },
            );
        },
        Ok(None) => {
            return StationStep::Done(StationOutcome::SkippedNoData { station_id });
        },
        Ok(Some(m)) => m,
    };
    let sensor_id = match config.find_gfroerli_sensor_id(m.station_id) {
        Some(s) => s,
        None => {
            return StationStep::Done(
                StationOutcome::Failed { station_id, error: StationError::NoSensorMapping },
            );
        },
    };
    let already_sent = match is_measurement_sent(ledger, sensor_id, m.time) {
        Ok(b) => b,
        Err(e) => {
            return StationStep::Done(
                StationOutcome::Failed { station_id, error: StationError::LedgerRead(e) },
            );
        },
    };
    decide_forward(&config.gfroerli_api, &m, sensor_id, already_sent, dry_run)
}

/// Completes one planned forward, given the downstream response: on success
/// the key is recorded — strictly after the confirmed success — and on any
/// failure the ledger is left untouched, so the next cycle retries the same
/// reading.
pub fn finish_forward(ledger: &mut Ledger, plan: ForwardPlan, status: u16, body: String) -> (r:
    StationOutcome)
    ensures
        !is_success_status(status as int) ==> (final(ledger)@ == old(ledger)@ && r == (
        StationOutcome::Failed {
            station_id: plan.station_id,
            error: StationError::Forward { status, body },
        })),
        is_success_status(status as int) ==> ((final(ledger)@ == old(ledger)@.insert(
            (plan.sensor_id, plan.time),
        ) && r == (StationOutcome::Sent {
            station_id: plan.station_id,
            sensor_id: plan.sensor_id,
        })) || (final(ledger)@ == old(ledger)@ && (r matches StationOutcome::Failed {
            station_id: s,
            error,
        } && s == plan.station_id && error is LedgerWrite))),
{
    if !(200 <= status && status < 300) {
        return StationOutcome::Failed {
            station_id: plan.station_id,
            error: StationError::Forward { status, body },
        };
    }
    match record_measurement_sent(ledger, plan.sensor_id, plan.time) {
        Ok(()) => StationOutcome::Sent {
            station_id: plan.station_id,
            sensor_id: plan.sensor_id,
        },
        Err(e) => StationOutcome::Failed {
            station_id: plan.station_id,
            error: StationError::LedgerWrite(e),
        },
    }
}

/// What the outside world contributed for one station in one cycle: the
/// fetch outcome and — for the case that a forward is attempted — the
/// downstream response it would draw.
#[derive(Debug, Clone, PartialEq, Eq)]
pub enum StationEvent {
    /// The fetch failed.
    FetchFailed(FetchError),
    /// The endpoint had no reading for the station.
    NoData,
    /// The endpoint returned this reading.
    Reading {
        /// The fetched measurement.
        measurement: StationMeasurement,
        /// The downstream status a forward would draw.
        forward_status: u16,
        /// The downstream body a forward would draw.
        forward_body: String,
    },
}

/// The outcome of one station in the model: the processor's state machine
/// — fetch, resolve, dedup check, forward, commit — with the ledger assumed
/// to answer. `process_fetched` and `finish_forward` realize exactly this,
/// up to ledger read/write failures, which their contracts carry as an
/// extra case.
pub open spec fn spec_station_outcome(
    stations: Seq<StationConfig>,
    ledger: Set<(u32, i64)>,
    station_id: u32,
    ev: StationEvent,
    dry_run: bool,
) -> StationOutcome {
    match ev {
        StationEvent::FetchFailed(e) => StationOutcome::Failed {
            station_id,
            error: StationError::Fetch(e),
        },
        StationEvent::NoData => StationOutcome::SkippedNoData { station_id },
        StationEvent::Reading { measurement: m, forward_status, forward_body } => {
            match spec_find_sensor(stations, m.station_id) {
                None => StationOutcome::Failed {
                    station_id,
                    error: StationError::NoSensorMapping,
                },
                Some(sensor_id) => {
                    if ledger.contains((sensor_id, m.time)) {
                        StationOutcome::SkippedDuplicate { station_id: m.station_id, sensor_id }
                    } else if dry_run {
                        StationOutcome::WouldSend { station_id: m.station_id, sensor_id }
                    } else if is_success_status(forward_status as int) {
                        StationOutcome::Sent { station_id: m.station_id, sensor_id }
                    } else {
                        StationOutcome::Failed {
                            station_id: m.station_id,
                            error: StationError::Forward {
                                status: forward_status,
                                body: forward_body,
                            },
                        }
                    }
                },
            }
        },
    }
}

/// The ledger after one station in the model: only a confirmed forward
/// inserts, and exactly the station's own key.
pub open spec fn spec_station_ledger(
    stations: Seq<StationConfig>,
    ledger: Set<(u32, i64)>,
    ev: StationEvent,
    dry_run: bool,
) -> Set<(u32, i64)> {
    match ev {
        StationEvent::Reading { measurement: m, forward_status, .. } => {
            match spec_find_sensor(stations, m.station_id) {
                Some(sensor_id) => {
                    if !ledger.contains((sensor_id, m.time)) && !dry_run && is_success_status(
                        forward_status as int,
                    ) {
                        ledger.insert((sensor_id, m.time))
                    } else {
                        ledger
                    }
                },
                None => ledger,
            }
        },
        _ => ledger,
    }
}

/// The outcomes of one cycle in the model: stations processed strictly in
/// order, each against the ledger as the previous stations left it.
pub open spec fn spec_run_outcomes(
    stations: Seq<StationConfig>,
    ledger: Set<(u32, i64)>,
    ids: Seq<u32>,
    evs: Seq<StationEvent>,
    dry_run: bool,
) -> Seq<StationOutcome>
    decreases ids.len(),
{
    if ids.len() == 0 || evs.len() == 0 {
        Seq::empty()
    } else {
        seq![spec_station_outcome(stations, ledger, ids[0], evs[0], dry_run)]
            + spec_run_outcomes(
            stations,
            spec_station_ledger(stations, ledger, evs[0], dry_run),
            ids.drop_first(),
            evs.drop_first(),
            dry_run,
        )
    }
}

/// The ledger after one cycle in the model.
pub open spec fn spec_run_ledger(
    stations: Seq<StationConfig>,
    ledger: Set<(u32, i64)>,
    ids: Seq<u32>,
    evs: Seq<StationEvent>,
    dry_run: bool,
) -> Set<(u32, i64)>
    decreases ids.len(),
{
    if ids.len() == 0 || evs.len() == 0 {
        ledger
    } else {
        spec_run_ledger(
            stations,
            spec_station_ledger(stations, ledger, evs[0], dry_run),
            ids.drop_first(),
            evs.drop_first(),
            dry_run,
        )
    }
}

/// The per-phase contracts compose to the model: a step that satisfies
/// `forward_decision_ok` for the ledger's own answer — completed, when it
/// plans a forward, the way `finish_forward`'s contract completes it on a
/// working ledger — gives exactly `spec_station_outcome` and
/// `spec_station_ledger` for the station's event.
pub proof fn lemma_steps_realize_model(
    stations: Seq<StationConfig>,
    api: GfroerliConfig,
    ledger: Set<(u32, i64)>,
    station_id: u32,
    m: StationMeasurement,
    forward_status: u16,
    forward_body: String,
    sensor_id: u32,
    dry_run: bool,
    step: StationStep,
    outcome: StationOutcome,
    ledger_after: Set<(u32, i64)>,
)
    requires
        spec_find_sensor(stations, m.station_id) == Some(sensor_id),
        forward_decision_ok(step, api, m, sensor_id, ledger.contains((sensor_id, m.time)), dry_run),
        step matches StationStep::Done(o) ==> (outcome == o && ledger_after == ledger),
        step matches StationStep::Forward(p) ==> (if is_success_status(forward_status as int) {
            outcome == (StationOutcome::Sent { station_id: p.station_id, sensor_id: p.sensor_id })
                && ledger_after == ledger.insert((p.sensor_id, p.time))
        } else {
            outcome == (StationOutcome::Failed {
                station_id: p.station_id,
                error: StationError::Forward { status: forward_status, body: forward_body },
            }) && ledger_after == ledger
        }),
    ensures
        outcome == spec_station_outcome(
            stations,
            ledger,
            station_id,
            (StationEvent::Reading { measurement: m, forward_status, forward_body }),
            dry_run,
        ),
        ledger_after == spec_station_ledger(
            stations,
            ledger,
            (StationEvent::Reading { measurement: m, forward_status, forward_body }),
            dry_run,
        ),
{
}

/// One outcome per station: the model gives every station of the cycle an
/// outcome, however many of them fail.
pub proof fn lemma_run_outcomes_len(
    stations: Seq<StationConfig>,
    ledger: Set<(u32, i64)>,
    ids: Seq<u32>,
    evs: Seq<StationEvent>,
    dry_run: bool,
)
    requires
        ids.len() == evs.len(),
    ensures
        spec_run_outcomes(stations, ledger, ids, evs, dry_run).len() == ids.len(),
    decreases ids.len(),
{
    if ids.len() > 0 {
        lemma_run_outcomes_len(
            stations,
            spec_station_ledger(stations, ledger, evs[0], dry_run),
            ids.drop_first(),
            evs.drop_first(),
            dry_run,
        );
    }
}

/// No duplicate forward: when the ledger already holds the key of a
/// station's latest reading, the station's outcome is "skipped, duplicate"
/// and the ledger is unchanged — the forwarder is never reached, whatever
/// response it would have given.
pub proof fn lemma_no_duplicate_forward(
    stations: Seq<StationConfig>,
    ledger: Set<(u32, i64)>,
    station_id: u32,
    m: StationMeasurement,
    forward_status: u16,
    forward_body: String,
    sensor_id: u32,
    dry_run: bool,
)
    requires
        spec_find_sensor(stations, m.station_id) == Some(sensor_id),
        ledger.contains((sensor_id, m.time)),
    ensures
        spec_station_outcome(
            stations,
            ledger,
            station_id,
            (StationEvent::Reading { measurement: m, forward_status, forward_body }),
            dry_run,
        ) == (StationOutcome::SkippedDuplicate { station_id: m.station_id, sensor_id }),
        spec_station_ledger(
            stations,
            ledger,
            (StationEvent::Reading { measurement: m, forward_status, forward_body }),
            dry_run,
        ) == ledger,
{
}

/// Retry on failure: a failed forward leaves the reading's key out of the
/// ledger, and the processor, run again on the same reading, reaches the
/// forwarder again — it succeeds against a success response and is not
/// skipped as a duplicate.
pub proof fn lemma_failed_forward_retries(
    stations: Seq<StationConfig>,
    ledger: Set<(u32, i64)>,
    station_id: u32,
    m: StationMeasurement,
    forward_status: u16,
    forward_body: String,
    sensor_id: u32,
)
    requires
        spec_find_sensor(stations, m.station_id) == Some(sensor_id),
        !ledger.contains((sensor_id, m.time)),
        !is_success_status(forward_status as int),
    ensures
        spec_station_outcome(
            stations,
            ledger,
            station_id,
            (StationEvent::Reading { measurement: m, forward_status, forward_body }),
            false,
        ) == (StationOutcome::Failed {
            station_id: m.station_id,
            error: StationError::Forward { status: forward_status, body: forward_body },
        }),
        spec_station_ledger(
            stations,
            ledger,
            (StationEvent::Reading { measurement: m, forward_status, forward_body }),
            false,
        ) == ledger,
        forall|status2: u16, body2: String|
            is_success_status(status2 as int) ==> spec_station_outcome(
                stations,
                ledger,
                station_id,
                (StationEvent::Reading {
                    measurement: m,
                    forward_status: status2,
                    forward_body: body2,
                }),
                false,
            ) == (StationOutcome::Sent { station_id: m.station_id, sensor_id }),
{
}

/// Partial-failure isolation: a station whose fetch fails contributes its
/// own failure outcome and nothing else. The remaining stations are
/// processed exactly as they would be in a cycle without it, and the final
/// ledger is the same.
pub proof fn lemma_fetch_failure_isolated(
    stations: Seq<StationConfig>,
    ledger: Set<(u32, i64)>,
    ids: Seq<u32>,
    evs: Seq<StationEvent>,
    k: int,
    e: FetchError,
    dry_run: bool,
)
    requires
        ids.len() == evs.len(),
        0 <= k < evs.len(),
        evs[k] == StationEvent::FetchFailed(e),
    ensures
        spec_run_outcomes(stations, ledger, ids, evs, dry_run) == spec_run_outcomes(
            stations,
            ledger,
            ids.remove(k),
            evs.remove(k),
            dry_run,
        ).insert(k, (StationOutcome::Failed { station_id: ids[k], error: StationError::Fetch(e) })),
        spec_run_ledger(stations, ledger, ids, evs, dry_run) == spec_run_ledger(
            stations,
            ledger,
            ids.remove(k),
            evs.remove(k),
            dry_run,
        ),
    decreases k,
{
    if k == 0 {
        assert(ids.remove(0) =~= ids.drop_first());
        assert(evs.remove(0) =~= evs.drop_first());
        assert(spec_station_ledger(stations, ledger, evs[0], dry_run) == ledger);
        assert(spec_run_outcomes(stations, ledger, ids, evs, dry_run) =~= spec_run_outcomes(
            stations,
            ledger,
            ids.remove(0),
            evs.remove(0),
            dry_run,
        ).insert(
            0,
            (StationOutcome::Failed { station_id: ids[0], error: StationError::Fetch(e) }),
        ));
    } else {
        let l2 = spec_station_ledger(stations, ledger, evs[0], dry_run);
        lemma_fetch_failure_isolated(
            stations,
            l2,
            ids.drop_first(),
            evs.drop_first(),
            k - 1,
            e,
            dry_run,
        );
        assert(ids.drop_first().remove(k - 1) =~= ids.remove(k).drop_first());
        assert(evs.drop_first().remove(k - 1) =~= evs.remove(k).drop_first());
        assert(ids.drop_first()[k - 1] == ids[k]);
        lemma_run_outcomes_len(
            stations,
            l2,
            ids.drop_first().remove(k - 1),
            evs.drop_first().remove(k - 1),
            dry_run,
        );
        lemma_run_outcomes_len(stations, ledger, ids.remove(k), evs.remove(k), dry_run);
        let rest_removed = spec_run_outcomes(
            stations,
            l2,
            ids.drop_first().remove(k - 1),
            evs.drop_first().remove(k - 1),
            dry_run,
        );
        let o = StationOutcome::Failed { station_id: ids[k], error: StationError::Fetch(e) };
        assert(spec_run_outcomes(stations, ledger, ids, evs, dry_run) =~= spec_run_outcomes(
            stations,
            ledger,
            ids.remove(k),
            evs.remove(k),
            dry_run,
        ).insert(k, o)) by {
            assert(spec_run_outcomes(stations, ledger, ids, evs, dry_run)
                == seq![spec_station_outcome(stations, ledger, ids[0], evs[0], dry_run)]
                + spec_run_outcomes(stations, l2, ids.drop_first(), evs.drop_first(), dry_run));
            assert(spec_run_outcomes(stations, l2, ids.drop_first(), evs.drop_first(), dry_run)
                == rest_removed.insert(k - 1, o));
            assert(ids.remove(k)[0] == ids[0]);
            assert(evs.remove(k)[0] == evs[0]);
            assert(spec_run_outcomes(stations, ledger, ids.remove(k), evs.remove(k), dry_run)
                == seq![spec_station_outcome(stations, ledger, ids[0], evs[0], dry_run)]
                + rest_removed);
        }
    }
}

} // verus!
