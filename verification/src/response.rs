use vstd::prelude::*;
use vstd::string::*;

use crate::json::{json_object1, json_str, Json, JsonValue};
use crate::text::concat2;

verus! {

/// The answer of a handler: an HTTP status and, for most answers, a JSON body.
pub struct HttpResponse {
    pub status: u16,
    pub body: Option<Json>,
}

/// The value of an [`HttpResponse`].
pub struct HttpResponseView {
    pub status: u16,
    pub body: Option<JsonValue>,
}

impl View for HttpResponse {
    type V = HttpResponseView;

    open spec fn view(&self) -> HttpResponseView {
        HttpResponseView {
            status: self.status,
            body: match self.body {
                Some(b) => Some(b@),
                None => None,
            },
        }
    }
}

/// The body of an error answer: `{"error": <message>}`.
pub open spec fn error_body(message: Seq<char>) -> JsonValue {
    JsonValue::Object(seq![("error"@, JsonValue::Str(message))])
}

/// The outcome of a Proxmox call: the JSON answer, or the text of the error.
pub open spec fn outcome_view(r: Result<Json, String>) -> Result<JsonValue, Seq<char>> {
    match r {
        Ok(j) => Ok(j@),
        Err(e) => Err(e@),
    }
}

/// An answer with a JSON body.
pub fn json_response(status: u16, body: Json) -> (r: HttpResponse)
    ensures
        r@ == (HttpResponseView { status, body: Some(body@) }),
{
    HttpResponse { status, body: Some(body) }
}

/// An error answer whose message is `context` followed by `detail`.
pub fn error_response(status: u16, context: &str, detail: &str) -> (r: HttpResponse)
    ensures
        r@ == (HttpResponseView { status, body: Some(error_body(context@ + detail@)) }),
{
    let message = concat2(context, detail);
    json_response(status, json_object1("error", json_str(message.as_str())))
}

} // verus!
