//! The per-station query against the semantic-data endpoint: the query text
//! asking for the single latest reading, and the interpretation of the
//! response status.
//!
//! Sending the query over HTTP is the surrounding program's part; it hands
//! the status and the decoded rows back to the library.

use vstd::prelude::*;

use crate::parsing::FetchError;
use crate::text::dec_digits;
use crate::text::u64_to_string;

verus! {

/// The SPARQL endpoint of the LINDAS platform.
pub fn sparql_endpoint() -> (r: &'static str)
    ensures
        r@ == "https://lindas.admin.ch/query"@,
{
    "https://lindas.admin.ch/query"
}

/// The query text for one station: its display name, its latest water
/// temperature and the associated measurement instant, ordered by instant
/// descending and limited to one row.
pub open spec fn spec_station_query(station_id: u32) -> Seq<char> {
    "\nPREFIX rdf: <http://www.w3.org/1999/02/22-rdf-syntax-ns#>\nPREFIX rdfs: <http://www.w3.org/2000/01/rdf-schema#>\nPREFIX station: <https://environment.ld.admin.ch/foen/hydro/station/>\nPREFIX riverOberservation: <https://environment.ld.admin.ch/foen/hydro/river/observation/>\nPREFIX dimension: <https://environment.ld.admin.ch/foen/hydro/dimension/>\n\nSELECT ?name ?time ?temperature WHERE {\n    station:"@
        + dec_digits(station_id as nat)
        + " <http://schema.org/name> ?name .\n    riverOberservation:"@ + dec_digits(
        station_id as nat,
    )
        + "\n        dimension:waterTemperature ?temperature ;\n        dimension:measurementTime ?time .\n}\nORDER BY DESC(?time)\nLIMIT 1\n"@
}

/// Builds the query text for one station.
pub fn build_station_query(station_id: u32) -> (r: String)
    ensures
        r@ == spec_station_query(station_id),
{
    let id = u64_to_string(station_id as u64);
    let mut q =
        "\nPREFIX rdf: <http://www.w3.org/1999/02/22-rdf-syntax-ns#>\nPREFIX rdfs: <http://www.w3.org/2000/01/rdf-schema#>\nPREFIX station: <https://environment.ld.admin.ch/foen/hydro/station/>\nPREFIX riverOberservation: <https://environment.ld.admin.ch/foen/hydro/river/observation/>\nPREFIX dimension: <https://environment.ld.admin.ch/foen/hydro/dimension/>\n\nSELECT ?name ?time ?temperature WHERE {\n    station:".to_owned();
    q.append(id.as_str());
    q.append(" <http://schema.org/name> ?name .\n    riverOberservation:");
    q.append(id.as_str());
    q.append(
        "\n        dimension:waterTemperature ?temperature ;\n        dimension:measurementTime ?time .\n}\nORDER BY DESC(?time)\nLIMIT 1\n",
    );
    proof {
        assert(q@ =~= spec_station_query(station_id));
    }
    q
}

/// Whether an HTTP status reports success.
pub open spec fn is_success_status(status: int) -> bool {
    200 <= status < 300
}

/// Maps a query response status to the fetch outcome: a non-success status
/// is a fetch failure carrying the status and the body verbatim.
pub fn check_query_status(status: u16, body: String) -> (r: Result<(), FetchError>)
    ensures
        is_success_status(status as int) ==> r is Ok,
        !is_success_status(status as int) ==> (r matches Err(e) && e == (FetchError::Status {
            status,
            body,
        })),
{
    if 200 <= status && status < 300 {
        Ok(())
    } else {
        Err(FetchError::Status { status, body })
    }
}

} // verus!
