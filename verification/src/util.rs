//! The log fields of a call to another service.

use vstd::prelude::*;

use crate::clock::{
    debug_latency, duration_text, is_response_offset, law_elapsed_is_latency, response_instant,
    response_offset, response_text, response_to_rfc3339, rfc3339_text, times_ok, times_ok_at,
    times_read_back, timestamp_text, NANOS_PER_SEC,
};
use crate::json::{
    clone_fields, is_object_held, member, members, new_fields, number_value, object_in_bytes,
    object_or_empty, object_value, set_field, string_value, text_value, Json, Members, Num,
};
use crate::model::{TargetRequest, TargetResponse};
use crate::text::{lossy_text, utf8_lossy};

pub use crate::headers::header_to_map;
pub use crate::json::LogFields;

verus! {

/// The log fields of a call, where the clock has this UTC offset when the response comes.
pub open spec fn target_members(req: TargetRequest, res: TargetResponse, offset: i32) -> Members {
    map![
        "targetRequestBody"@ => Json::Object(object_in_bytes(req.body@)),
        "targetRequestBodyString"@ => Json::Text(lossy_text(req.body@)),
        "targetRequestContentType"@ => Json::Text(req.content_type@),
        "targetRequestHeader"@ => Json::Object(members(req.header)),
        "targetRequestMethod"@ => Json::Text(req.method@),
        "targetRequestTimestamp"@ => Json::Text(timestamp_text(req.timestamp)),
        "targetRequestURL"@ => Json::Text(req.url@),
        "targetResponseBody"@ => Json::Object(object_in_bytes(res.body@)),
        "targetResponseBodyString"@ => Json::Text(lossy_text(res.body@)),
        "targetResponseHeader"@ => Json::Object(members(res.header)),
        "targetResponseLatency"@ => Json::Text(duration_text(res.latency.secs, res.latency.nanos)),
        "targetResponseStatus"@ => Json::Number(Num::Unsigned(res.status as u64)),
        "targetResponseTimestamp"@ => Json::Text(
            response_text(req.timestamp.instant, res.latency, offset),
        ),
    ]
}

/// The log fields of a call, where the clock has the UTC offset `offset` when the response comes.
/// The two times in them are read back, and lie the latency apart.
pub fn build_target_log_fields_at(req: &TargetRequest, res: &TargetResponse, offset: i32) -> (r:
    LogFields)
    requires
        times_ok_at(req.timestamp, res.latency, offset),
    ensures
        members(r) == target_members(*req, *res, offset),
        times_read_back(req.timestamp, res.latency, offset),
{
    let request_field = object_or_empty(req.body.as_slice());
    let response_field = object_or_empty(res.body.as_slice());
    let req_ts = req.timestamp.to_rfc3339();
    let resp_ts = response_to_rfc3339(req.timestamp, res.latency, offset);
    let mut fields = new_fields();
    set_field(&mut fields, "targetRequestBody", object_value(request_field));
    set_field(
        &mut fields,
        "targetRequestBodyString",
        string_value(utf8_lossy(req.body.as_slice())),
    );
    set_field(&mut fields, "targetRequestContentType", text_value(req.content_type.as_str()));
    set_field(&mut fields, "targetRequestHeader", object_value(clone_fields(&req.header)));
    set_field(&mut fields, "targetRequestMethod", text_value(req.method.as_str()));
    set_field(&mut fields, "targetRequestTimestamp", string_value(req_ts));
    set_field(&mut fields, "targetRequestURL", text_value(req.url.as_str()));
    set_field(&mut fields, "targetResponseBody", object_value(response_field));
    set_field(
        &mut fields,
        "targetResponseBodyString",
        string_value(utf8_lossy(res.body.as_slice())),
    );
    set_field(&mut fields, "targetResponseHeader", object_value(clone_fields(&res.header)));
    set_field(&mut fields, "targetResponseLatency", string_value(debug_latency(res.latency)));
    set_field(&mut fields, "targetResponseStatus", number_value(res.status as u64));
    set_field(&mut fields, "targetResponseTimestamp", string_value(resp_ts));
    proof {
        if res.latency.fits() && req.timestamp.instant.nanos < NANOS_PER_SEC {
            law_elapsed_is_latency(req.timestamp.instant, res.latency);
        }
    }
    fields
}

/// The fields for the two times of a call show them; where chrono cannot represent the latency,
/// they show one and the same time.
pub proof fn law_target_times(req: TargetRequest, res: TargetResponse, offset: i32)
    ensures
        ({
            let m = target_members(req, res, offset);
            &&& m["targetRequestTimestamp"@] == Json::Text(timestamp_text(req.timestamp))
            &&& m["targetResponseTimestamp"@] == Json::Text(
                response_text(req.timestamp.instant, res.latency, offset),
            )
            &&& !res.latency.fits() && is_response_offset(req.timestamp, res.latency, offset)
                ==> m["targetResponseTimestamp"@] == m["targetRequestTimestamp"@]
        }),
{
    reveal_strlit("targetRequestTimestamp");
    assert("targetRequestTimestamp"@.len() == 22);
    reveal_strlit("targetRequestURL");
    assert("targetRequestURL"@.len() == 16);
    reveal_strlit("targetResponseBody");
    assert("targetResponseBody"@.len() == 18);
    reveal_strlit("targetResponseBodyString");
    assert("targetResponseBodyString"@.len() == 24);
    reveal_strlit("targetResponseHeader");
    assert("targetResponseHeader"@.len() == 20);
    reveal_strlit("targetResponseLatency");
    assert("targetResponseLatency"@.len() == 21);
    reveal_strlit("targetResponseStatus");
    assert("targetResponseStatus"@.len() == 20);
    reveal_strlit("targetResponseTimestamp");
    assert("targetResponseTimestamp"@.len() == 23);
}

/// The log fields of a call. The response's time is shown as the machine's clock shows it. The two
/// times are read back, and lie the latency apart; where chrono cannot represent the latency, they
/// are the same.
pub fn build_target_log_fields(req: &TargetRequest, res: &TargetResponse) -> (r: LogFields)
    requires
        times_ok(req.timestamp, res.latency),
    ensures
        exists|offset: i32|
            is_response_offset(req.timestamp, res.latency, offset) && times_read_back(
                req.timestamp,
                res.latency,
                offset,
            ) && members(r) == #[trigger] target_members(*req, *res, offset),
        !res.latency.fits() ==> members(r)["targetResponseTimestamp"@]
            == members(r)["targetRequestTimestamp"@],
{
    let offset = response_offset(req.timestamp, res.latency);
    proof {
        law_target_times(*req, *res, offset);
    }
    build_target_log_fields_at(req, res, offset)
}

proof fn lemma_target_names()
    ensures
        "targetRequestBody"@.len() == 17,
        "targetRequestBodyString"@.len() == 23,
        "targetRequestBodyString"@[8] == 'q',
        "targetRequestContentType"@.len() == 24,
        "targetRequestContentType"@[8] == 'q',
        "targetRequestHeader"@.len() == 19,
        "targetRequestHeader"@[13] == 'H',
        "targetRequestMethod"@.len() == 19,
        "targetRequestMethod"@[13] == 'M',
        "targetRequestTimestamp"@.len() == 22,
        "targetRequestURL"@.len() == 16,
        "targetResponseBody"@.len() == 18,
        "targetResponseBodyString"@.len() == 24,
        "targetResponseBodyString"@[8] == 's',
        "targetResponseHeader"@.len() == 20,
        "targetResponseHeader"@[14] == 'H',
        "targetResponseLatency"@.len() == 21,
        "targetResponseStatus"@.len() == 20,
        "targetResponseStatus"@[14] == 'S',
        "targetResponseTimestamp"@.len() == 23,
        "targetResponseTimestamp"@[8] == 's',
{
    reveal_strlit("targetRequestBody");
    reveal_strlit("targetRequestBodyString");
    reveal_strlit("targetRequestContentType");
    reveal_strlit("targetRequestHeader");
    reveal_strlit("targetRequestMethod");
    reveal_strlit("targetRequestTimestamp");
    reveal_strlit("targetRequestURL");
    reveal_strlit("targetResponseBody");
    reveal_strlit("targetResponseBodyString");
    reveal_strlit("targetResponseHeader");
    reveal_strlit("targetResponseLatency");
    reveal_strlit("targetResponseStatus");
    reveal_strlit("targetResponseTimestamp");
}

/// What the fields of a call say of the request comes from the request alone: its address, its
/// method, its type, its headers, its time, its bytes as text, and the JSON object that they hold,
/// or the empty object where they hold none.
pub proof fn law_fields_tell_the_request(req: TargetRequest, res: TargetResponse, offset: i32)
    ensures
        ({
            let m = target_members(req, res, offset);
            &&& m.contains_key("targetRequestBody"@)
            &&& is_object_held(m["targetRequestBody"@], req.body@)
            &&& member(m, "targetRequestBodyString"@) == Some(Json::Text(lossy_text(req.body@)))
            &&& member(m, "targetRequestContentType"@) == Some(Json::Text(req.content_type@))
            &&& member(m, "targetRequestHeader"@) == Some(Json::Object(members(req.header)))
            &&& member(m, "targetRequestMethod"@) == Some(Json::Text(req.method@))
            &&& member(m, "targetRequestTimestamp"@) == Some(
                Json::Text(
                    rfc3339_text(
                        req.timestamp.instant.secs,
                        req.timestamp.instant.nanos,
                        req.timestamp.offset,
                    ),
                ),
            )
            &&& member(m, "targetRequestURL"@) == Some(Json::Text(req.url@))
        }),
{
    lemma_target_names();
}

/// What the fields of a call say of the response comes from the response alone: its headers, its
/// status, its latency, its bytes as text, and the JSON object that they hold, or the empty object
/// where they hold none. Only its time comes from the request's time too: it is the latency later.
pub proof fn law_fields_tell_the_response(req: TargetRequest, res: TargetResponse, offset: i32)
    ensures
        ({
            let m = target_members(req, res, offset);
            let at = response_instant(req.timestamp.instant, res.latency);
            &&& m.contains_key("targetResponseBody"@)
            &&& is_object_held(m["targetResponseBody"@], res.body@)
            &&& member(m, "targetResponseBodyString"@) == Some(Json::Text(lossy_text(res.body@)))
            &&& member(m, "targetResponseHeader"@) == Some(Json::Object(members(res.header)))
            &&& member(m, "targetResponseLatency"@) == Some(
                Json::Text(duration_text(res.latency.secs, res.latency.nanos)),
            )
            &&& member(m, "targetResponseStatus"@) == Some(
                Json::Number(Num::Unsigned(res.status as u64)),
            )
            &&& member(m, "targetResponseTimestamp"@) == Some(
                Json::Text(rfc3339_text(at.secs, at.nanos, offset)),
            )
        }),
{
    lemma_target_names();
}

/// Two calls with the same response have the same fields for it, whatever their requests were, but
/// for the time; two calls with the same request have the same fields for it, whatever came back.
pub proof fn law_fields_do_not_mix_request_and_response(
    a: TargetRequest,
    b: TargetRequest,
    res: TargetResponse,
    other: TargetResponse,
    first: i32,
    second: i32,
)
    ensures
        ({
            let m = target_members(a, res, first);
            let n = target_members(b, res, second);
            &&& member(m, "targetResponseBody"@) == member(n, "targetResponseBody"@)
            &&& member(m, "targetResponseBodyString"@) == member(n, "targetResponseBodyString"@)
            &&& member(m, "targetResponseHeader"@) == member(n, "targetResponseHeader"@)
            &&& member(m, "targetResponseLatency"@) == member(n, "targetResponseLatency"@)
            &&& member(m, "targetResponseStatus"@) == member(n, "targetResponseStatus"@)
        }),
        ({
            let m = target_members(a, res, first);
            let n = target_members(a, other, second);
            &&& member(m, "targetRequestBody"@) == member(n, "targetRequestBody"@)
            &&& member(m, "targetRequestBodyString"@) == member(n, "targetRequestBodyString"@)
            &&& member(m, "targetRequestContentType"@) == member(n, "targetRequestContentType"@)
            &&& member(m, "targetRequestHeader"@) == member(n, "targetRequestHeader"@)
            &&& member(m, "targetRequestMethod"@) == member(n, "targetRequestMethod"@)
            &&& member(m, "targetRequestTimestamp"@) == member(n, "targetRequestTimestamp"@)
            &&& member(m, "targetRequestURL"@) == member(n, "targetRequestURL"@)
        }),
{
    lemma_target_names();
}

/// The fields of a call are thirteen, and no more.
pub proof fn law_fields_of_a_call_are_these(
    req: TargetRequest,
    res: TargetResponse,
    offset: i32,
    key: Seq<char>,
)
    ensures
        target_members(req, res, offset).contains_key(key) <==> {
            ||| key == "targetRequestBody"@
            ||| key == "targetRequestBodyString"@
            ||| key == "targetRequestContentType"@
            ||| key == "targetRequestHeader"@
            ||| key == "targetRequestMethod"@
            ||| key == "targetRequestTimestamp"@
            ||| key == "targetRequestURL"@
            ||| key == "targetResponseBody"@
            ||| key == "targetResponseBodyString"@
            ||| key == "targetResponseHeader"@
            ||| key == "targetResponseLatency"@
            ||| key == "targetResponseStatus"@
            ||| key == "targetResponseTimestamp"@
        },
{
}

} // verus!
