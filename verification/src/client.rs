//! The client entry points that need no network.
//!
//! The surrounding application performs the one GET and hands the body
//! here; parsing, serialization and the summary are all verified.  See
//! [`crate::url::build_request_url`] for the request line.

use crate::jtext::parse_json_text;
use crate::jtext::json_to_text;
use crate::jtext::ser_json;
use crate::jtext::sp_json;
use crate::model::DarkskyResult;
use crate::model::DarkskyResultV;
use crate::model::ForecastError;
use crate::schema::darksky_of_json;
use crate::schema::darksky_to_json;
use crate::schema::json_of_darksky;
use crate::schema::lemma_darksky_round_trip;
use crate::schema::parse_darksky;
use vstd::prelude::*;

verus! {

/// What a response body means: the text read as a JSON document, the
/// document read against the schema.
pub open spec fn spec_parse_forecast(s: Seq<char>) -> Option<DarkskyResultV> {
    match sp_json(s) {
        None => None,
        Some(j) => darksky_of_json(j),
    }
}

/// Parses one response body.  Fails with `SchemaMismatch`, and with no
/// partial model, exactly when the body is not a well-formed document
/// or a required field is absent or of the wrong shape.
pub fn parse_forecast(body: &str) -> (r: Result<DarkskyResult, ForecastError>)
    ensures
        match r {
            Ok(m) => spec_parse_forecast(body@) == Some(m@),
            Err(e) => spec_parse_forecast(body@) is None && e == ForecastError::SchemaMismatch,
        },
{
    match parse_json_text(body) {
        None => Err(ForecastError::SchemaMismatch),
        Some(j) => match parse_darksky(&j) {
            Ok(m) => Ok(m),
            Err(e) => Err(e),
        },
    }
}

/// Serializes a result back to wire text.
pub fn to_json_string(m: &DarkskyResult) -> (r: String)
    ensures
        r@ == ser_json(darksky_to_json(m@)),
{
    let j = json_of_darksky(m);
    json_to_text(&j)
}

/// A parsed payload, re-serialized, reads back as the very same model:
/// every required field, and every optional field that was present,
/// keeps its value, and absent optional fields stay absent.
pub proof fn lemma_parse_reserialize_stable(s: Seq<char>, m: DarkskyResultV)
    requires
        spec_parse_forecast(s) == Some(m),
    ensures
        darksky_of_json(darksky_to_json(m)) == Some(m),
{
    lemma_darksky_round_trip(m);
}

} // verus!
