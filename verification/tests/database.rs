use chrono::TimeZone;
use lindas_fetcher::database::{init_database, is_measurement_sent, record_measurement_sent};

#[test]
fn test_duplicate_detection() {
    let mut conn = init_database(":memory:").unwrap();

    let test_time = chrono::Utc
        .with_ymd_and_hms(2025, 1, 15, 12, 30, 0)
        .unwrap()
        .timestamp();
    let sensor_id = 1;

    // Initially, measurement should not be sent
    assert!(!is_measurement_sent(&conn, sensor_id, test_time).unwrap());

    // Record the measurement as sent
    record_measurement_sent(&mut conn, sensor_id, test_time).unwrap();

    // Now it should be detected as already sent
    assert!(is_measurement_sent(&conn, sensor_id, test_time).unwrap());

    // Different sensor should not be affected
    assert!(!is_measurement_sent(&conn, 2, test_time).unwrap());

    // Different timestamp should not be affected
    let different_time = chrono::Utc
        .with_ymd_and_hms(2025, 1, 15, 13, 30, 0)
        .unwrap()
        .timestamp();
    assert!(!is_measurement_sent(&conn, sensor_id, different_time).unwrap());
}

#[test]
fn test_multiple_sensors_and_timestamps() {
    let mut conn = init_database(":memory:").unwrap();

    let time1 = chrono::Utc
        .with_ymd_and_hms(2025, 1, 15, 12, 0, 0)
        .unwrap()
        .timestamp();
    let time2 = chrono::Utc
        .with_ymd_and_hms(2025, 1, 15, 13, 0, 0)
        .unwrap()
        .timestamp();

    // Record measurements for different sensors and times
    record_measurement_sent(&mut conn, 1, time1).unwrap();
    record_measurement_sent(&mut conn, 1, time2).unwrap();
    record_measurement_sent(&mut conn, 2, time1).unwrap();

    // Verify all combinations
    assert!(is_measurement_sent(&conn, 1, time1).unwrap());
    assert!(is_measurement_sent(&conn, 1, time2).unwrap());
    assert!(is_measurement_sent(&conn, 2, time1).unwrap());
    assert!(!is_measurement_sent(&conn, 2, time2).unwrap());
}

#[test]
fn recording_twice_fails_and_changes_nothing() {
    let mut conn = init_database(":memory:").unwrap();

    record_measurement_sent(&mut conn, 7, 1000).unwrap();
    assert!(record_measurement_sent(&mut conn, 7, 1000).is_err());

    // The first record is still there, and nothing else appeared.
    assert!(is_measurement_sent(&conn, 7, 1000).unwrap());
    assert!(!is_measurement_sent(&conn, 7, 1001).unwrap());
    assert!(!is_measurement_sent(&conn, 8, 1000).unwrap());
}
