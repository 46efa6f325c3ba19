//! The cycle scheduler: aggregation of one cycle's outcomes, and the
//! decision whether to terminate (oneshot) or sleep and repeat (loop).
//!
//! The surrounding program iterates the station processor over the
//! configured stations, collects the outcomes, tallies them here, and then
//! follows `after_cycle_action`.

use vstd::prelude::*;

use crate::config::{spec_find_sensor, RunMode, StationConfig};
use crate::processor::{
    spec_run_ledger,
    spec_run_outcomes,
    spec_station_ledger,
    spec_station_outcome,
    StationEvent,
    StationOutcome,
};

verus! {

/// Counts of one cycle's outcomes. Rebuilt every cycle; never persisted.
#[derive(Debug, Clone, Copy, PartialEq, Eq, Structural)]
pub struct CycleOutcome {
    /// Readings forwarded and recorded.
    pub sent: usize,
    /// Readings a dry run would have forwarded.
    pub would_send: usize,
    /// Stations skipped: no data, or an already-recorded reading.
    pub skipped: usize,
    /// Stations that failed.
    pub failed: usize,
}

/// The counts (sent, would-send, skipped, failed) of a run of outcomes.
pub open spec fn spec_tally(outcomes: Seq<StationOutcome>) -> (int, int, int, int)
    decreases outcomes.len(),
{
    if outcomes.len() == 0 {
        (0, 0, 0, 0)
    } else {
        let t = spec_tally(outcomes.drop_first());
        match outcomes[0] {
            StationOutcome::Sent { .. } => (t.0 + 1, t.1, t.2, t.3),
            StationOutcome::WouldSend { .. } => (t.0, t.1 + 1, t.2, t.3),
            StationOutcome::SkippedNoData { .. } => (t.0, t.1, t.2 + 1, t.3),
            StationOutcome::SkippedDuplicate { .. } => (t.0, t.1, t.2 + 1, t.3),
            StationOutcome::Failed { .. } => (t.0, t.1, t.2, t.3 + 1),
        }
    }
}

/// Tallies one cycle's outcomes.
pub fn tally_outcomes(outcomes: &Vec<StationOutcome>) -> (r: CycleOutcome)
    ensures
        r.sent == spec_tally(outcomes@).0,
        r.would_send == spec_tally(outcomes@).1,
        r.skipped == spec_tally(outcomes@).2,
        r.failed == spec_tally(outcomes@).3,
{
    let n = outcomes.len();
    let mut sent: usize = 0;
    let mut would_send: usize = 0;
    let mut skipped: usize = 0;
    let mut failed: usize = 0;
    let mut i: usize = 0;
    proof {
        assert(outcomes@.skip(0) =~= outcomes@);
    }
    while i < n
        invariant
            i <= n,
            n == outcomes@.len(),
            sent <= i && would_send <= i && skipped <= i && failed <= i,
            spec_tally(outcomes@).0 == sent + spec_tally(outcomes@.skip(i as int)).0,
            spec_tally(outcomes@).1 == would_send + spec_tally(outcomes@.skip(i as int)).1,
            spec_tally(outcomes@).2 == skipped + spec_tally(outcomes@.skip(i as int)).2,
            spec_tally(outcomes@).3 == failed + spec_tally(outcomes@.skip(i as int)).3,
        decreases n - i,
    {
        proof {
            assert(outcomes@.skip(i as int).drop_first() =~= outcomes@.skip(i as int + 1));
            assert(outcomes@.skip(i as int)[0] == outcomes@[i as int]);
        }
        match &outcomes[i] {
            StationOutcome::Sent { .. } => {
                sent = sent + 1;
            },
            StationOutcome::WouldSend { .. } => {
                would_send = would_send + 1;
            },
            StationOutcome::SkippedNoData { .. } => {
                skipped = skipped + 1;
            },
            StationOutcome::SkippedDuplicate { .. } => {
                skipped = skipped + 1;
            },
            StationOutcome::Failed { .. } => {
                failed = failed + 1;
            },
        }
        i = i + 1;
    }
    CycleOutcome { sent, would_send, skipped, failed }
}

/// What the scheduler does once a cycle's outcomes are tallied.
#[derive(Debug, Clone, Copy, PartialEq, Eq, Structural)]
pub enum SchedulerAction {
    /// Oneshot mode: the process terminates after this cycle.
    Terminate,
    /// Loop mode: sleep this many seconds, then run the next cycle.
    Sleep {
        /// The fixed inter-cycle pause, measured from the end of the cycle.
        seconds: u64,
    },
}

/// The scheduler's move after a cycle: terminate in oneshot mode; in loop
/// mode sleep exactly the configured interval — no jitter, no catch-up, no
/// dynamic adjustment.
pub fn after_cycle_action(mode: RunMode, interval_minutes: u32) -> (r: SchedulerAction)
    ensures
        mode == RunMode::Oneshot ==> r == SchedulerAction::Terminate,
        mode == RunMode::Loop ==> (r matches SchedulerAction::Sleep { seconds } && seconds
            == interval_minutes as int * 60),
{
    match mode {
        RunMode::Oneshot => SchedulerAction::Terminate,
        RunMode::Loop => SchedulerAction::Sleep { seconds: (interval_minutes as u64) * 60 },
    }
}

/// An event that hands a station nothing new to forward: no reading at
/// all, or a reading whose key the ledger already holds.
pub open spec fn quiet_event(
    stations: Seq<StationConfig>,
    ledger: Set<(u32, i64)>,
    ev: StationEvent,
) -> bool {
    match ev {
        StationEvent::NoData => true,
        StationEvent::Reading { measurement: m, .. } => match spec_find_sensor(
            stations,
            m.station_id,
        ) {
            Some(sensor_id) => ledger.contains((sensor_id, m.time)),
            None => false,
        },
        StationEvent::FetchFailed(_) => false,
    }
}

/// A quiet cycle stays quiet: when no station has a new reading, every
/// station is skipped — zero sent, zero failed — and the ledger comes out
/// unchanged, so the next cycle faces the same state. In loop mode the
/// scheduler sleeps the fixed interval between two such cycles, by the
/// contract of `after_cycle_action`.
pub proof fn lemma_quiet_cycle(
    stations: Seq<StationConfig>,
    ledger: Set<(u32, i64)>,
    ids: Seq<u32>,
    evs: Seq<StationEvent>,
    dry_run: bool,
)
    requires
        ids.len() == evs.len(),
        forall|i: int| 0 <= i < evs.len() ==> quiet_event(stations, ledger, evs[i]),
    ensures
        spec_tally(spec_run_outcomes(stations, ledger, ids, evs, dry_run)) == (
        0int,
        0int,
        ids.len() as int,
        0int,
        ),
        spec_run_ledger(stations, ledger, ids, evs, dry_run) == ledger,
    decreases ids.len(),
{
    if ids.len() > 0 {
        assert(quiet_event(stations, ledger, evs[0]));
        assert(spec_station_ledger(stations, ledger, evs[0], dry_run) == ledger);
        assert(forall|i: int|
            0 <= i < evs.drop_first().len() ==> quiet_event(
                stations,
                ledger,
                #[trigger] evs.drop_first()[i],
            ));
        lemma_quiet_cycle(stations, ledger, ids.drop_first(), evs.drop_first(), dry_run);
        let o = spec_station_outcome(stations, ledger, ids[0], evs[0], dry_run);
        let rest = spec_run_outcomes(stations, ledger, ids.drop_first(), evs.drop_first(), dry_run);
        assert(o is SkippedNoData || o is SkippedDuplicate);
        assert((seq![o] + rest).drop_first() =~= rest);
        assert((seq![o] + rest)[0] == o);
    }
}

} // verus!
