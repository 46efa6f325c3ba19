use lindas_fetcher::config::{Config, GfroerliConfig, RunMode, StationConfig};
use lindas_fetcher::database::{init_database, is_measurement_sent, Ledger};
use lindas_fetcher::parsing::{
    extract_measurement, FetchError, Results, SparqlBinding, SparqlResponse,
    StationMeasurement,
};
use lindas_fetcher::processor::{
    finish_forward, process_fetched, StationError, StationOutcome, StationStep,
};
use lindas_fetcher::scheduler::{after_cycle_action, tally_outcomes, SchedulerAction};

fn test_config() -> Config {
    Config {
        stations: vec![StationConfig {
            foen_station_id: 2104,
            gfroerli_sensor_id: 1,
        }],
        gfroerli_api: GfroerliConfig {
            api_url: "http://localhost:3000/api/".to_string(),
            api_key: "test-api-key".to_string(),
        },
        logging: None,
        database: None,
        run: None,
    }
}

fn rhine_response() -> SparqlResponse {
    SparqlResponse {
        results: Results {
            bindings: vec![SparqlBinding {
                name: "Rhine - Basel".to_string(),
                time: "2024-06-01T08:00:00Z".to_string(),
                temperature: "18.25".to_string(),
            }],
        },
    }
}

fn fetch_rhine() -> Result<Option<StationMeasurement>, FetchError> {
    extract_measurement(2104, rhine_response())
}

#[test]
fn end_to_end_scenario() {
    let config = test_config();
    let mut ledger: Ledger = init_database(":memory:").unwrap();

    // First cycle: the reading is new, so a forward is planned.
    let step = process_fetched(&config, &ledger, 2104, fetch_rhine(), false);
    let plan = match step {
        StationStep::Forward(plan) => plan,
        other => panic!("expected a forward plan, got {:?}", other),
    };
    assert_eq!(plan.station_id, 2104);
    assert_eq!(plan.sensor_id, 1);
    assert_eq!(plan.url, "http://localhost:3000/api/measurements");
    assert_eq!(
        plan.body,
        "{\"sensor_id\":1,\"temperature\":18.25,\"created_at\":\"2024-06-01T08:00:00Z\"}"
    );
    assert_eq!(plan.time, 1717228800);

    // The downstream accepts: the ledger now holds (1, 1717228800).
    let outcome = finish_forward(&mut ledger, plan, 200, String::new());
    assert_eq!(
        outcome,
        StationOutcome::Sent {
            station_id: 2104,
            sensor_id: 1
        }
    );
    assert!(is_measurement_sent(&ledger, 1, 1717228800).unwrap());

    // Second cycle with the identical response: no forward, skipped as a
    // duplicate.
    let step = process_fetched(&config, &ledger, 2104, fetch_rhine(), false);
    assert_eq!(
        step,
        StationStep::Done(StationOutcome::SkippedDuplicate {
            station_id: 2104,
            sensor_id: 1
        })
    );
}

#[test]
fn failed_forward_is_retried_next_cycle() {
    let config = test_config();
    let mut ledger = init_database(":memory:").unwrap();

    let step = process_fetched(&config, &ledger, 2104, fetch_rhine(), false);
    let plan = match step {
        StationStep::Forward(plan) => plan,
        other => panic!("expected a forward plan, got {:?}", other),
    };

    // The downstream refuses: nothing is recorded.
    let outcome = finish_forward(&mut ledger, plan, 503, "unavailable".to_string());
    assert_eq!(
        outcome,
        StationOutcome::Failed {
            station_id: 2104,
            error: StationError::Forward {
                status: 503,
                body: "unavailable".to_string()
            }
        }
    );
    assert!(!is_measurement_sent(&ledger, 1, 1717228800).unwrap());

    // The next cycle attempts the same forward again, and can succeed.
    let step = process_fetched(&config, &ledger, 2104, fetch_rhine(), false);
    let plan = match step {
        StationStep::Forward(plan) => plan,
        other => panic!("expected a forward plan again, got {:?}", other),
    };
    let outcome = finish_forward(&mut ledger, plan, 201, String::new());
    assert_eq!(
        outcome,
        StationOutcome::Sent {
            station_id: 2104,
            sensor_id: 1
        }
    );
    assert!(is_measurement_sent(&ledger, 1, 1717228800).unwrap());
}

#[test]
fn dry_run_reads_but_never_writes() {
    let config = test_config();
    let ledger = init_database(":memory:").unwrap();

    for _ in 0..2 {
        let step = process_fetched(&config, &ledger, 2104, fetch_rhine(), true);
        assert_eq!(
            step,
            StationStep::Done(StationOutcome::WouldSend {
                station_id: 2104,
                sensor_id: 1
            })
        );
    }
    assert!(!is_measurement_sent(&ledger, 1, 1717228800).unwrap());
}

#[test]
fn fetch_failure_leaves_other_stations_unaffected() {
    let mut config = test_config();
    config.stations.push(StationConfig {
        foen_station_id: 2176,
        gfroerli_sensor_id: 2,
    });
    let mut ledger = init_database(":memory:").unwrap();

    // Station 2104's fetch fails; station 2176 is still processed.
    let failed = process_fetched(
        &config,
        &ledger,
        2104,
        Err(FetchError::Transport {
            message: "connection refused".to_string(),
        }),
        false,
    );
    assert_eq!(
        failed,
        StationStep::Done(StationOutcome::Failed {
            station_id: 2104,
            error: StationError::Fetch(FetchError::Transport {
                message: "connection refused".to_string()
            })
        })
    );

    let resp = SparqlResponse {
        results: Results {
            bindings: vec![SparqlBinding {
                name: "Aare".to_string(),
                time: "2024-06-01T08:00:00Z".to_string(),
                temperature: "16.5".to_string(),
            }],
        },
    };
    let step = process_fetched(&config, &ledger, 2176, extract_measurement(2176, resp), false);
    let plan = match step {
        StationStep::Forward(plan) => plan,
        other => panic!("expected a forward plan, got {:?}", other),
    };
    let outcome = finish_forward(&mut ledger, plan, 200, String::new());
    assert_eq!(
        outcome,
        StationOutcome::Sent {
            station_id: 2176,
            sensor_id: 2
        }
    );
    assert!(is_measurement_sent(&ledger, 2, 1717228800).unwrap());
    assert!(!is_measurement_sent(&ledger, 1, 1717228800).unwrap());
}

#[test]
fn missing_mapping_fails_that_station() {
    let config = test_config();
    let ledger = init_database(":memory:").unwrap();
    let resp = SparqlResponse {
        results: Results {
            bindings: vec![SparqlBinding {
                name: "Unknown".to_string(),
                time: "2024-06-01T08:00:00Z".to_string(),
                temperature: "12.0".to_string(),
            }],
        },
    };
    let step = process_fetched(&config, &ledger, 9999, extract_measurement(9999, resp), false);
    assert_eq!(
        step,
        StationStep::Done(StationOutcome::Failed {
            station_id: 9999,
            error: StationError::NoSensorMapping
        })
    );
}

#[test]
fn no_data_is_skipped_not_failed() {
    let config = test_config();
    let ledger = init_database(":memory:").unwrap();
    let step = process_fetched(&config, &ledger, 2104, Ok(None), false);
    assert_eq!(
        step,
        StationStep::Done(StationOutcome::SkippedNoData { station_id: 2104 })
    );
}

#[test]
fn quiet_loop_cycles_send_nothing_and_sleep_the_interval() {
    let config = test_config();
    let mut ledger = init_database(":memory:").unwrap();

    // Seed the ledger with the only reading there is.
    let step = process_fetched(&config, &ledger, 2104, fetch_rhine(), false);
    let plan = match step {
        StationStep::Forward(plan) => plan,
        other => panic!("expected a forward plan, got {:?}", other),
    };
    finish_forward(&mut ledger, plan, 200, String::new());

    // Two consecutive cycles with no new readings: zero sent each time.
    for _ in 0..2 {
        let mut outcomes = Vec::new();
        let step = process_fetched(&config, &ledger, 2104, fetch_rhine(), false);
        match step {
            StationStep::Done(outcome) => outcomes.push(outcome),
            other => panic!("no forward may happen, got {:?}", other),
        }
        let tally = tally_outcomes(&outcomes);
        assert_eq!(tally.sent, 0);
        assert_eq!(tally.failed, 0);
        assert_eq!(tally.skipped, 1);
        assert_eq!(
            after_cycle_action(RunMode::Loop, 1),
            SchedulerAction::Sleep { seconds: 60 }
        );
    }
}

#[test]
fn oneshot_terminates_after_the_cycle() {
    assert_eq!(
        after_cycle_action(RunMode::Oneshot, 5),
        SchedulerAction::Terminate
    );
    assert_eq!(
        after_cycle_action(RunMode::Loop, 5),
        SchedulerAction::Sleep { seconds: 300 }
    );
}

#[test]
fn tally_counts_each_class() {
    let outcomes = vec![
        StationOutcome::Sent {
            station_id: 1,
            sensor_id: 1,
        },
        StationOutcome::SkippedNoData { station_id: 2 },
        StationOutcome::SkippedDuplicate {
            station_id: 3,
            sensor_id: 3,
        },
        StationOutcome::WouldSend {
            station_id: 4,
            sensor_id: 4,
        },
        StationOutcome::Failed {
            station_id: 5,
            error: StationError::NoSensorMapping,
        },
        StationOutcome::Sent {
            station_id: 6,
            sensor_id: 6,
        },
    ];
    let tally = tally_outcomes(&outcomes);
    assert_eq!(tally.sent, 2);
    assert_eq!(tally.would_send, 1);
    assert_eq!(tally.skipped, 2);
    assert_eq!(tally.failed, 1);
}
