use lindas_fetcher::config::{
    Config, DatabaseConfig, GfroerliConfig, LoggingConfig, RunConfig, RunMode, StationConfig,
};

fn base_config() -> Config {
    Config {
        stations: vec![
            StationConfig {
                foen_station_id: 2104,
                gfroerli_sensor_id: 1,
            },
            StationConfig {
                foen_station_id: 2176,
                gfroerli_sensor_id: 2,
            },
        ],
        gfroerli_api: GfroerliConfig {
            api_url: "http://localhost:3000/api/".to_string(),
            api_key: "test-api-key".to_string(),
        },
        logging: None,
        database: None,
        run: None,
    }
}

#[test]
fn defaults_apply_when_sections_are_absent() {
    let config = base_config();
    assert_eq!(config.logging_level(), "info");
    assert_eq!(config.database_path(), "measurements.db");
    assert_eq!(config.run_interval_minutes(), 5);
    assert_eq!(config.run_mode(), RunMode::Oneshot);
}

#[test]
fn configured_values_are_returned() {
    let mut config = base_config();
    config.logging = Some(LoggingConfig {
        level: "debug".to_string(),
    });
    config.database = Some(DatabaseConfig {
        path: "test.db".to_string(),
    });
    config.run = Some(RunConfig {
        interval_minutes: 10,
        mode: Some(RunMode::Loop),
    });
    assert_eq!(config.logging_level(), "debug");
    assert_eq!(config.database_path(), "test.db");
    assert_eq!(config.run_interval_minutes(), 10);
    assert_eq!(config.run_mode(), RunMode::Loop);
}

#[test]
fn mode_defaults_to_oneshot_within_a_run_section() {
    let mut config = base_config();
    config.run = Some(RunConfig {
        interval_minutes: 10,
        mode: None,
    });
    assert_eq!(config.run_mode(), RunMode::Oneshot);
}

#[test]
fn station_ids_keep_the_configured_order() {
    let config = base_config();
    assert_eq!(config.foen_station_ids(), vec![2104, 2176]);
}

#[test]
fn sensor_lookup_finds_the_first_match() {
    let mut config = base_config();
    config.stations.push(StationConfig {
        foen_station_id: 2104,
        gfroerli_sensor_id: 99,
    });
    assert_eq!(config.find_gfroerli_sensor_id(2104), Some(1));
    assert_eq!(config.find_gfroerli_sensor_id(2176), Some(2));
    assert_eq!(config.find_gfroerli_sensor_id(9999), None);
}
