use vstd::prelude::*;

use crate::json::{json_object, json_str, member, member_values, JsonValue};
use crate::response::{json_response, HttpResponse, HttpResponseView};

verus! {

/// The body of the health check.
pub struct HealthResponse {
    pub status: &'static str,
    pub version: &'static str,
}

impl HealthResponse {
    /// The service is up, at `version`.
    pub fn ok(version: &'static str) -> (r: HealthResponse)
        ensures
            r.status@ == "ok"@,
            r.version@ == version@,
    {
        HealthResponse { status: "ok", version }
    }
}

/// The answer of the health check: 200 with `{"status": "ok", "version": <version>}`.
pub fn check_health(version: &'static str) -> (r: HttpResponse)
    ensures
        r@ == (HttpResponseView {
            status: 200,
            body: Some(JsonValue::Object(seq![("status"@, JsonValue::Str("ok"@)), ("version"@, JsonValue::Str(version@))])),
        }),
{
    let health = HealthResponse::ok(version);
    let fields = vec![member("status", json_str(health.status)), member("version", json_str(health.version))];
    let ghost fv = fields@;
    let body = json_object(fields);
    assert(member_values(fv) =~= seq![("status"@, JsonValue::Str("ok"@)), ("version"@, JsonValue::Str(version@))]);
    json_response(200, body)
}

} // verus!
