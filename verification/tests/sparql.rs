use lindas_fetcher::parsing::FetchError;
use lindas_fetcher::sparql::{build_station_query, check_query_status, sparql_endpoint};

const QUERY_TEMPLATE: &str = r#"
PREFIX rdf: <http://www.w3.org/1999/02/22-rdf-syntax-ns#>
PREFIX rdfs: <http://www.w3.org/2000/01/rdf-schema#>
PREFIX station: <https://environment.ld.admin.ch/foen/hydro/station/>
PREFIX riverOberservation: <https://environment.ld.admin.ch/foen/hydro/river/observation/>
PREFIX dimension: <https://environment.ld.admin.ch/foen/hydro/dimension/>

SELECT ?name ?time ?temperature WHERE {
    station:{STATION_ID} <http://schema.org/name> ?name .
    riverOberservation:{STATION_ID}
        dimension:waterTemperature ?temperature ;
        dimension:measurementTime ?time .
}
ORDER BY DESC(?time)
LIMIT 1
"#;

#[test]
fn endpoint_is_the_lindas_query_service() {
    assert_eq!(sparql_endpoint(), "https://lindas.admin.ch/query");
}

#[test]
fn query_asks_for_the_latest_reading_of_the_station() {
    let query = build_station_query(2104);
    assert_eq!(query, QUERY_TEMPLATE.replace("{STATION_ID}", "2104"));
    assert!(query.contains("station:2104"));
    assert!(query.contains("riverOberservation:2104"));
    assert!(query.contains("ORDER BY DESC(?time)"));
    assert!(query.contains("LIMIT 1"));
}

#[test]
fn success_statuses_pass_and_others_carry_the_body() {
    assert!(check_query_status(200, String::new()).is_ok());
    assert!(check_query_status(204, String::new()).is_ok());
    assert!(check_query_status(299, String::new()).is_ok());
    match check_query_status(404, "not found".to_string()) {
        Err(FetchError::Status { status, body }) => {
            assert_eq!(status, 404);
            assert_eq!(body, "not found");
        }
        other => panic!("expected a status error, got {:?}", other),
    }
    assert!(check_query_status(199, String::new()).is_err());
    assert!(check_query_status(300, String::new()).is_err());
}
