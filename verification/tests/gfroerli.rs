use chrono::TimeZone;
use lindas_fetcher::gfroerli::{build_api_url, measurement_json};

#[test]
fn test_build_api_url_with_trailing_slash() {
    let url = build_api_url("http://localhost:3000/api/", "measurements");
    assert_eq!(url, "http://localhost:3000/api/measurements");
}

#[test]
fn test_build_api_url_without_trailing_slash() {
    let url = build_api_url("http://localhost:3000/api", "measurements");
    assert_eq!(url, "http://localhost:3000/api/measurements");
}

#[test]
fn test_measurement_request_serialization() {
    let timestamp = chrono::Utc
        .with_ymd_and_hms(2023, 1, 1, 12, 30, 45)
        .unwrap()
        .timestamp();
    let json = measurement_json(1, "20.7", timestamp);
    assert!(json.contains("\"sensor_id\":1"));
    assert!(json.contains("\"temperature\":20.7"));
    assert!(json.contains("\"created_at\":\"2023-01-01T12:30:45Z\""));
}

#[test]
fn measurement_json_is_exact() {
    let timestamp = chrono::Utc
        .with_ymd_and_hms(2024, 6, 1, 8, 0, 0)
        .unwrap()
        .timestamp();
    let json = measurement_json(1, "18.25", timestamp);
    assert_eq!(
        json,
        "{\"sensor_id\":1,\"temperature\":18.25,\"created_at\":\"2024-06-01T08:00:00Z\"}"
    );
}

#[test]
fn build_api_url_trims_repeated_slashes() {
    let url = build_api_url("http://localhost:3000/api///", "measurements");
    assert_eq!(url, "http://localhost:3000/api/measurements");
}
