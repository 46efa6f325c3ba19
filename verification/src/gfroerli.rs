//! The forwarder's side of the downstream ingestion API: the endpoint URL,
//! the exact payload for one measurement, and the reading of the response
//! status.
//!
//! The HTTP POST itself is the surrounding program's part; it hands the
//! response status and body back to the library.

use vstd::prelude::*;

use crate::text::{dec_digits, is_decimal_text, u64_to_string};
use crate::timestamp::{format_rfc3339_utc, rfc3339_utc_text, MAX_EPOCH};

verus! {

/// A base URL with its trailing slashes removed.
pub open spec fn trim_end_slashes(s: Seq<char>) -> Seq<char>
    decreases s.len(),
{
    if s.len() > 0 && s[s.len() - 1] == '/' {
        trim_end_slashes(s.drop_last())
    } else {
        s
    }
}

/// The URL of an endpoint under the API base: the base without trailing
/// slashes, one slash, the endpoint path.
pub open spec fn spec_api_url(base: Seq<char>, endpoint: Seq<char>) -> Seq<char> {
    trim_end_slashes(base) + seq!['/'] + endpoint
}

/// Builds the URL of an API endpoint under the configured base URL.
pub fn build_api_url(base_url: &str, endpoint: &str) -> (r: String)
    ensures
        r@ == spec_api_url(base_url@, endpoint@),
{
    let len = base_url.unicode_len();
    let mut cut = len;
    proof {
        assert(base_url@.subrange(0, len as int) =~= base_url@);
    }
    while cut > 0 && base_url.get_char(cut - 1) == '/'
        invariant
            cut <= len,
            len == base_url@.len(),
            trim_end_slashes(base_url@) == trim_end_slashes(base_url@.subrange(0, cut as int)),
        decreases cut,
    {
        proof {
            assert(base_url@.subrange(0, cut as int).drop_last() =~= base_url@.subrange(
                0,
                cut - 1,
            ));
        }
        cut = cut - 1;
    }
    let base = base_url.substring_char(0, cut);
    let mut r = base.to_owned();
    r.append("/");
    r.append(endpoint);
    proof {
        reveal_strlit("/");
        assert(r@ =~= spec_api_url(base_url@, endpoint@));
    }
    r
}

/// The payload for the ingestion endpoint, exactly three fields: the
/// sensor, the temperature as the decimal text it arrived in, and the
/// instant in RFC 3339 form.
pub open spec fn spec_measurement_json(
    sensor_id: u32,
    temperature: Seq<char>,
    created_at: int,
) -> Seq<char> {
    "{\"sensor_id\":"@ + dec_digits(sensor_id as nat) + ",\"temperature\":"@ + temperature
        + ",\"created_at\":\""@ + rfc3339_utc_text(created_at) + "\"}"@
}

/// Builds the payload for one measurement, addressed to the given sensor.
pub fn measurement_json(sensor_id: u32, temperature: &str, created_at: i64) -> (r: String)
    requires
        is_decimal_text(temperature@),
        0 <= created_at <= MAX_EPOCH,
    ensures
        r@ == spec_measurement_json(sensor_id, temperature@, created_at as int),
{
    let mut r = "{\"sensor_id\":".to_owned();
    let id = u64_to_string(sensor_id as u64);
    r.append(id.as_str());
    r.append(",\"temperature\":");
    r.append(temperature);
    r.append(",\"created_at\":\"");
    let ts = format_rfc3339_utc(created_at);
    r.append(ts.as_str());
    r.append("\"}");
    proof {
        assert(r@ =~= spec_measurement_json(sensor_id, temperature@, created_at as int));
    }
    r
}

} // verus!
