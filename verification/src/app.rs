//! The answer of the demonstration service.

use vstd::prelude::*;

use crate::axum_middleware::WelogContext;
use crate::json::{json, new_fields, object_value, set_field, text_value, Json};

verus! {

/// The answer to a request for the root: a greeting, and the request's identifier.
pub fn root_payload(ctx: &WelogContext) -> (r: serde_json::Value)
    ensures
        json(r) == Json::Object(
            map![
                "message"@ => Json::Text("hello from welog_rs"@),
                "request_id"@ => Json::Text(ctx.request_id@),
            ],
        ),
{
    let mut payload = new_fields();
    set_field(&mut payload, "message", text_value("hello from welog_rs"));
    set_field(&mut payload, "request_id", text_value(ctx.request_id()));
    object_value(payload)
}

} // verus!
