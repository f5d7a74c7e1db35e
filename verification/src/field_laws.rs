//! What the operations do that read and make log fields: each law speaks of a call, its arguments
//! and what it gave back.

use vstd::prelude::*;

use crate::app::root_payload;
use crate::axum_middleware::WelogContext;
use crate::client_log::{
    append_target, entries, law_array_holds_each_call, law_call_is_kept_behind_the_others,
    read_client_log,
};
use crate::clock::{
    clock_gave, duration_nanos, duration_text, elapsed, in_range, is_response_offset,
    law_duration_is_the_elapsed_time, law_duration_is_the_time_between,
    law_only_text_holds_a_time, law_ordinary_times_can_be_logged,
    law_response_comes_after_the_latency, law_response_leaves_a_leap_second, parse_timestamp,
    respond_after, response_secs, response_to_rfc3339, rfc3339_instant, rfc3339_text, times_fit,
    Latency, Timestamp, UtcInstant,
};
use crate::ecs::{
    enrich_with_ecs, enrich_with_ecs_at, enriched, field_as_string, field_instant,
    insert_nested_if_absent, lookup, request_instant, texts,
};
use crate::ecs_laws::{
    describes_end, describes_event, describes_request, describes_response, gets,
    law_only_text_is_read_from_a_field, law_put_is_found, law_put_is_local,
    law_put_keeps_what_is_there, law_record_describes_the_end, law_record_describes_the_event,
    law_record_describes_the_request, law_record_describes_the_response,
    law_record_has_no_other_fields, law_record_labels_the_request, parts, text_field, time_field,
};
use crate::headers::{
    header_lines, header_to_map, law_header_map_keeps_the_last_value,
    law_value_is_read_byte_by_byte, reads_as, values_of, visible_text,
};
use crate::json::{
    json, law_bytes_give_the_object_they_hold, member, members, object_or_empty, parsed_json, says,
    Json, LogFields, Members, Num,
};
use crate::metadata::{
    ends_in_bin, law_member_has_the_texts_of_the_key, metadata_lines, metadata_to_map,
};
use crate::model::{TargetRequest, TargetResponse};
use crate::text::{base64_text, lossy_text};
use crate::util::{
    build_target_log_fields, build_target_log_fields_at, law_fields_tell_the_request,
    law_fields_tell_the_response, target_members,
};

verus! {

/// Whether a record is what fields become with their schema fields, for an event that starts at
/// `now` where the fields state no start: the event, the request and the response are described in
/// their places, and every name that the schema does not use keeps its value.
pub open spec fn is_enriched(m: Members, record: Members, now: UtcInstant) -> bool {
    &&& describes_event(m, record, now)
    &&& describes_end(m, record)
    &&& describes_request(m, record)
    &&& describes_response(m, record)
    &&& m.contains_key("labels"@) && !(m["labels"@] is Object) ==> says(
        record,
        "labels"@,
        m["labels"@],
    )
    &&& !(m.contains_key("labels"@) && !(m["labels"@] is Object)) ==> gets(
        m,
        record,
        seq!["labels"@, "request_id"@],
        text_field(m, "requestId"@),
    )
    &&& forall|key: Seq<char>|
        key != "@timestamp"@ && key != "ecs"@ && key != "log"@ && key != "event"@ && key != "http"@
            && key != "url"@ && key != "client"@ && key != "user_agent"@ && key != "labels"@ && key
            != "user"@ ==> #[trigger] member(record, key) == member(m, key)
}

proof fn lemma_is_enriched(m: Members, now: UtcInstant)
    ensures
        is_enriched(m, enriched(m, now), now),
{
    law_record_describes_the_event(m, now);
    law_record_describes_the_end(m, now);
    law_record_describes_the_request(m, now);
    law_record_describes_the_response(m, now);
    law_record_labels_the_request(m, now);
    assert forall|key: Seq<char>|
        key != "@timestamp"@ && key != "ecs"@ && key != "log"@ && key != "event"@ && key != "http"@
            && key != "url"@ && key != "client"@ && key != "user_agent"@ && key != "labels"@ && key
            != "user"@ implies #[trigger] member(enriched(m, now), key) == member(m, key) by {
        law_record_has_no_other_fields(m, now, key);
    }
}

/// Fields are enriched with their schema fields, for an event that starts at the given time where
/// they state no start.
pub proof fn law_fields_are_enriched_at_a_time(fields: LogFields, now: UtcInstant, r: LogFields)
    requires
        call_ensures(enrich_with_ecs_at, (fields, now), r),
    ensures
        is_enriched(members(fields), members(r), now),
{
    lemma_is_enriched(members(fields), now);
}

/// Fields are enriched with their schema fields. Where they state no start, it is a time that the
/// clock gave.
pub proof fn law_fields_are_enriched_with_the_time_of_the_clock(fields: LogFields, r: LogFields)
    requires
        call_ensures(enrich_with_ecs, (fields,), r),
    ensures
        exists|now: UtcInstant| #[trigger]
            is_enriched(members(fields), members(r), now) && (time_field(
                members(fields),
                "requestTimestamp"@,
            ) is None ==> clock_gave(now)),
{
    let now = choose|now: UtcInstant|
        now.ok() && (field_instant(members(fields), "requestTimestamp"@) is None ==> clock_gave(
            now,
        )) && members(r) == #[trigger] enriched(members(fields), now);
    lemma_is_enriched(members(fields), now);
    assert(is_enriched(members(fields), members(r), now));
}

/// A value that is put at the end of a path is found there, unless one was there before, which
/// stays; paths that part from it lead where they led. An empty path changes nothing.
pub proof fn law_value_is_put_where_none_is(
    map: &mut LogFields,
    path: &[&str],
    value: serde_json::Value,
)
    requires
        call_ensures(insert_nested_if_absent, (map, path, value), ()),
    ensures
        path@.len() == 0 ==> members(*final(map)) == members(*old(map)),
        path@.len() > 0 && lookup(members(*old(map)), texts(path@)) is None ==> lookup(
            members(*final(map)),
            texts(path@),
        ) == Some(json(value)),
        path@.len() > 0 && lookup(members(*old(map)), texts(path@)) is Some ==> members(*final(map))
            == members(*old(map)),
        forall|other: Seq<Seq<char>>| #[trigger]
            parts(texts(path@), other) ==> lookup(members(*final(map)), other) == lookup(
                members(*old(map)),
                other,
            ),
{
    let m = members(*old(map));
    if path@.len() > 0 {
        law_put_is_found(m, texts(path@), json(value));
        if lookup(m, texts(path@)) is Some {
            law_put_keeps_what_is_there(m, texts(path@), json(value));
        }
    }
    assert forall|other: Seq<Seq<char>>| #[trigger] parts(texts(path@), other) implies lookup(
        members(*final(map)),
        other,
    ) == lookup(m, other) by {
        law_put_is_local(m, texts(path@), json(value), other);
    }
}

/// A text is read from a field only where the field is a text.
pub proof fn law_text_is_read_from_a_field(fields: LogFields, key: &str, r: Option<String>)
    requires
        call_ensures(field_as_string, (&fields, key), r),
    ensures
        members(fields).contains_key(key@) && members(fields)[key@] is Text ==> r is Some && r->0@
            == members(fields)[key@]->Text_0,
        !(members(fields).contains_key(key@) && members(fields)[key@] is Text) ==> r is None,
{
    law_only_text_is_read_from_a_field(members(fields), key@);
}

/// The start of an event is read from its request's time, and from nothing else.
pub proof fn law_start_is_read_from_the_request_time(fields: LogFields, r: Option<UtcInstant>)
    requires
        call_ensures(request_instant, (&fields,), r),
    ensures
        (match time_field(members(fields), "requestTimestamp"@) {
            Some((secs, nanos)) => r == Some(UtcInstant { secs, nanos }),
            None => r is None,
        }),
{
}

/// A time is read from a text that reads as one, and from nothing else.
pub proof fn law_time_is_read_from_text(value: Option<&serde_json::Value>, r: Option<UtcInstant>)
    requires
        call_ensures(parse_timestamp, (value,), r),
    ensures
        value is None ==> r is None,
        value is Some && !(json(*value->0) is Text) ==> r is None,
        value is Some && json(*value->0) is Text ==> (match rfc3339_instant(
            json(*value->0)->Text_0,
        ) {
            Some((secs, nanos)) => r == Some(UtcInstant { secs, nanos }),
            None => r is None,
        }),
{
    if value is Some {
        law_only_text_holds_a_time(json(*value->0));
    }
}

/// The duration from one instant to a later one is the time that elapsed, which is the nanoseconds
/// between them outside leap seconds; there is none where the second one is earlier, or where it is
/// too long for a log.
pub proof fn law_duration_counts_the_nanoseconds(
    start: UtcInstant,
    end: UtcInstant,
    r: Option<u64>,
)
    requires
        call_ensures(duration_nanos, (start, end), r),
    ensures
        0 <= elapsed(start, end) <= 0x7fff_ffff_ffff_ffff ==> r == Some(elapsed(start, end) as u64),
        elapsed(start, end) < 0 || elapsed(start, end) > 0x7fff_ffff_ffff_ffff ==> r is None,
        start.nanos < 1_000_000_000 && end.nanos < 1_000_000_000 ==> ({
            let between = (end.secs * 1_000_000_000 + end.nanos) - (start.secs * 1_000_000_000
                + start.nanos);
            r == (if 0 <= between <= 0x7fff_ffff_ffff_ffff {
                Some(between as u64)
            } else {
                None
            })
        }),
{
    law_duration_is_the_elapsed_time(start, end);
    if start.nanos < 1_000_000_000 && end.nanos < 1_000_000_000 {
        law_duration_is_the_time_between(start, end);
    }
}

/// A response comes the latency after its request, for every request outside a leap second and
/// every latency up to the longest that chrono represents, and at once for a longer one.
pub proof fn law_response_comes_later(start: UtcInstant, latency: Latency, r: UtcInstant)
    requires
        call_ensures(respond_after, (start, latency), r),
        start.ok(),
        start.nanos < 1_000_000_000,
        latency.nanos < 1_000_000_000,
        in_range(response_secs(start, latency)),
    ensures
        latency.secs < 9_223_372_036_854_775 ==> r.secs * 1_000_000_000 + r.nanos == start.secs
            * 1_000_000_000 + start.nanos + latency.secs * 1_000_000_000 + latency.nanos && r.nanos
            < 1_000_000_000,
        latency.secs > 9_223_372_036_854_775 ==> r == start,
{
    if latency.secs < 9_223_372_036_854_775 {
        law_response_comes_after_the_latency(start, latency);
    }
}

/// A response to a request within a leap second comes the latency after it, less the leap second
/// where it is over by then.
pub proof fn law_response_comes_later_than_a_leap_second(
    start: UtcInstant,
    latency: Latency,
    r: UtcInstant,
)
    requires
        call_ensures(respond_after, (start, latency), r),
        start.ok(),
        start.nanos >= 1_000_000_000,
        latency.nanos < 1_000_000_000,
        latency.secs < 9_223_372_036_854_775,
        in_range(response_secs(start, latency)),
    ensures
        latency.secs == 0 && start.nanos + latency.nanos < 2_000_000_000 ==> r.secs == start.secs
            && r.nanos == start.nanos + latency.nanos,
        !(latency.secs == 0 && start.nanos + latency.nanos < 2_000_000_000) ==> r.nanos
            < 1_000_000_000 && r.secs * 1_000_000_000 + r.nanos == start.secs * 1_000_000_000
            + start.nanos + latency.secs * 1_000_000_000 + latency.nanos - 1_000_000_000,
{
    law_response_leaves_a_leap_second(start, latency);
}

/// A timestamp is written as its instant on its own clock.
pub proof fn law_timestamp_is_written_on_its_clock(at: Timestamp, r: String)
    requires
        call_ensures(Timestamp::to_rfc3339, (&at,), r),
    ensures
        r@ == rfc3339_text(at.instant.secs, at.instant.nanos, at.offset),
{
}

/// The time of a response is written as the instant the latency after the request's, on the given
/// clock.
pub proof fn law_response_time_is_written_on_the_clock(
    request: Timestamp,
    latency: Latency,
    offset: i32,
    r: String,
)
    requires
        call_ensures(response_to_rfc3339, (request, latency, offset), r),
        request.instant.ok(),
        request.instant.nanos < 1_000_000_000,
        latency.nanos < 1_000_000_000,
        latency.secs < 9_223_372_036_854_775,
        in_range(response_secs(request.instant, latency)),
    ensures
        exists|secs: i64, nanos: u32| #[trigger]
            rfc3339_text(secs, nanos, offset) == r@ && nanos < 1_000_000_000 && secs * 1_000_000_000
                + nanos == request.instant.secs * 1_000_000_000 + request.instant.nanos
                + latency.secs * 1_000_000_000 + latency.nanos,
{
    law_response_comes_after_the_latency(request.instant, latency);
    let at = crate::clock::response_instant(request.instant, latency);
    assert(rfc3339_text(at.secs, at.nanos, offset) == r@);
}

/// Times that are at least a day away from the ends of what chrono represents are accepted.
pub proof fn law_ordinary_times_fit(request: Timestamp, latency: Latency, r: bool)
    requires
        call_ensures(times_fit, (request, latency), r),
        -8_334_601_228_800 + 86_400 <= request.instant.secs,
        request.instant.secs + latency.secs + 1 <= 8_210_266_876_799 - 86_400,
        request.instant.nanos < 1_000_000_000 || (request.instant.nanos < 2_000_000_000
            && request.instant.secs % 60 == 59),
        -86_400 < request.offset < 86_400,
        latency.nanos < 1_000_000_000,
    ensures
        r,
{
    law_ordinary_times_can_be_logged(request, latency);
}

/// Bytes that hold a JSON object give its members, and other bytes give none.
pub proof fn law_object_is_read_from_bytes(bytes: &[u8], r: LogFields)
    requires
        call_ensures(object_or_empty, (bytes,), r),
    ensures
        (match parsed_json(bytes@) {
            Some(Json::Object(m)) => members(r) == m,
            _ => members(r) == Map::<Seq<char>, Json>::empty(),
        }),
{
    if let Some(Json::Object(m)) = parsed_json(bytes@) {
        law_bytes_give_the_object_they_hold(bytes@, m);
    } else {
        law_bytes_give_the_object_they_hold(bytes@, Map::empty());
    }
}

/// Headers become an object with a member for each name that has a value, and for no other: the
/// text of the last value, and empty where that is not readable.
pub proof fn law_headers_become_an_object(
    headers: http::HeaderMap<http::HeaderValue>,
    r: LogFields,
    name: Seq<char>,
)
    requires
        call_ensures(header_to_map, (&headers,), r),
    ensures
        ({
            let values = values_of(header_lines(headers), name);
            &&& members(r).contains_key(name) <==> values.len() > 0
            &&& values.len() > 0 ==> members(r)[name] is Text
            &&& forall|text: Seq<char>|
                values.len() > 0 && #[trigger] reads_as(values.last(), text) ==> members(r)[name]
                    == Json::Text(text)
            &&& values.len() > 0 && (forall|text: Seq<char>|
                !#[trigger] reads_as(values.last(), text)) ==> members(r)[name] == Json::Text(
                Seq::empty(),
            )
        }),
{
    let lines = header_lines(headers);
    law_header_map_keeps_the_last_value(lines, name);
    let values = values_of(lines, name);
    if values.len() > 0 {
        assert forall|text: Seq<char>| #[trigger]
            reads_as(values.last(), text) <==> visible_text(values.last()) == Some(text) by {
            law_value_is_read_byte_by_byte(values.last(), text);
        }
        if visible_text(values.last()) is Some {
            assert(reads_as(values.last(), visible_text(values.last())->0));
        }
    }
}

/// Whether a JSON text is that of a metadata value: the base64 text of a binary one; the text of
/// another one, empty where it is not readable or where none is to be read.
pub open spec fn shows_value(
    shown: Json,
    key: Seq<char>,
    value: Seq<u8>,
    unreadable: bool,
) -> bool {
    &&& shown is Text
    &&& ends_in_bin(key) ==> shown->Text_0 == base64_text(value)
    &&& !ends_in_bin(key) && unreadable ==> shown->Text_0.len() == 0
    &&& !ends_in_bin(key) && !unreadable ==> forall|text: Seq<char>| #[trigger]
        reads_as(value, text) ==> shown->Text_0 == text
    &&& !ends_in_bin(key) && (forall|text: Seq<char>| !#[trigger] reads_as(value, text))
        ==> shown->Text_0.len() == 0
}

proof fn lemma_shows_value(text: Seq<char>, key: Seq<char>, value: Seq<u8>, unreadable: bool)
    requires
        crate::metadata::is_text_of(text, key, value, unreadable),
    ensures
        shows_value(Json::Text(text), key, value, unreadable),
{
    assert forall|read: Seq<char>| #[trigger]
        reads_as(value, read) <==> visible_text(value) == Some(read) by {
        law_value_is_read_byte_by_byte(value, read);
    }
    if visible_text(value) is Some {
        assert(reads_as(value, visible_text(value)->0));
    }
}

/// Metadata become an object with a member for each key that has a value, and for no other: the
/// text of one value, and an array of the texts of several, in order.
pub proof fn law_metadata_become_an_object(
    md: tonic::metadata::MetadataMap,
    unreadable: bool,
    r: LogFields,
    key: Seq<char>,
)
    requires
        call_ensures(metadata_to_map, (&md, unreadable), r),
    ensures
        ({
            let values = values_of(metadata_lines(md), key);
            &&& members(r).contains_key(key) <==> values.len() > 0
            &&& values.len() == 1 ==> shows_value(members(r)[key], key, values[0], unreadable)
            &&& values.len() > 1 ==> members(r)[key] is Array && members(r)[key]->Array_0.len()
                == values.len()
            &&& values.len() > 1 ==> forall|i: int|
                0 <= i < values.len() ==> shows_value(
                    #[trigger] members(r)[key]->Array_0[i],
                    key,
                    values[i],
                    unreadable,
                )
        }),
{
    let lines = metadata_lines(md);
    law_member_has_the_texts_of_the_key(lines, key, unreadable);
    let values = values_of(lines, key);
    if values.len() == 1 {
        lemma_shows_value(members(r)[key]->Text_0, key, values[0], unreadable);
    }
    if values.len() > 1 {
        assert forall|i: int| 0 <= i < values.len() implies shows_value(
            #[trigger] members(r)[key]->Array_0[i],
            key,
            values[i],
            unreadable,
        ) by {
            lemma_shows_value(members(r)[key]->Array_0[i]->Text_0, key, values[i], unreadable);
        }
    }
}

/// Whether fields are those of a call: thirteen, each from the request or from the response alone,
/// but for the time of the response, which is the latency after that of the request.
pub open spec fn tells_target(
    m: Members,
    req: TargetRequest,
    res: TargetResponse,
    offset: i32,
) -> bool {
    let at = crate::clock::response_instant(req.timestamp.instant, res.latency);
    &&& m.contains_key("targetRequestBody"@) && m.contains_key("targetResponseBody"@)
    &&& (match parsed_json(req.body@) {
        Some(Json::Object(held)) => m["targetRequestBody"@] == Json::Object(held),
        _ => m["targetRequestBody"@] == Json::Object(Map::empty()),
    })
    &&& (match parsed_json(res.body@) {
        Some(Json::Object(held)) => m["targetResponseBody"@] == Json::Object(held),
        _ => m["targetResponseBody"@] == Json::Object(Map::empty()),
    })
    &&& says(m, "targetRequestBodyString"@, Json::Text(lossy_text(req.body@)))
    &&& says(m, "targetRequestContentType"@, Json::Text(req.content_type@))
    &&& says(m, "targetRequestHeader"@, Json::Object(members(req.header)))
    &&& says(m, "targetRequestMethod"@, Json::Text(req.method@))
    &&& says(
        m,
        "targetRequestTimestamp"@,
        Json::Text(
            rfc3339_text(
                req.timestamp.instant.secs,
                req.timestamp.instant.nanos,
                req.timestamp.offset,
            ),
        ),
    )
    &&& says(m, "targetRequestURL"@, Json::Text(req.url@))
    &&& says(m, "targetResponseBodyString"@, Json::Text(lossy_text(res.body@)))
    &&& says(m, "targetResponseHeader"@, Json::Object(members(res.header)))
    &&& says(
        m,
        "targetResponseLatency"@,
        Json::Text(duration_text(res.latency.secs, res.latency.nanos)),
    )
    &&& says(m, "targetResponseStatus"@, Json::Number(Num::Unsigned(res.status as u64)))
    &&& says(m, "targetResponseTimestamp"@, Json::Text(rfc3339_text(at.secs, at.nanos, offset)))
}

pub(crate) proof fn lemma_tells_target(req: TargetRequest, res: TargetResponse, offset: i32)
    ensures
        tells_target(target_members(req, res, offset), req, res, offset),
{
    law_fields_tell_the_request(req, res, offset);
    law_fields_tell_the_response(req, res, offset);
}

/// The fields of a call tell the call, on the given clock.
pub proof fn law_target_fields_tell_the_call_at(
    req: TargetRequest,
    res: TargetResponse,
    offset: i32,
    r: LogFields,
)
    requires
        call_ensures(build_target_log_fields_at, (&req, &res, offset), r),
    ensures
        tells_target(members(r), req, res, offset),
{
    lemma_tells_target(req, res, offset);
}

/// The fields of a call tell the call, on the machine's clock, and on the request's where chrono
/// cannot represent the latency.
pub proof fn law_target_fields_tell_the_call(req: TargetRequest, res: TargetResponse, r: LogFields)
    requires
        call_ensures(build_target_log_fields, (&req, &res), r),
    ensures
        exists|offset: i32| #[trigger]
            tells_target(members(r), req, res, offset) && is_response_offset(
                req.timestamp,
                res.latency,
                offset,
            ),
{
    let offset = choose|offset: i32|
        is_response_offset(req.timestamp, res.latency, offset) && members(r)
            == #[trigger] target_members(req, res, offset);
    lemma_tells_target(req, res, offset);
    assert(tells_target(members(r), req, res, offset));
}

/// A call is kept behind those that came before, up to a thousand, and further ones change nothing.
pub proof fn law_call_is_appended(log: &mut Vec<LogFields>, entry: LogFields)
    requires
        call_ensures(append_target, (log, entry), ()),
    ensures
        old(log)@.len() >= 1000 ==> entries(final(log)@) == entries(old(log)@),
        old(log)@.len() < 1000 ==> final(log)@.len() == old(log)@.len() + 1 && members(
            final(log)@.last(),
        ) == members(entry),
        old(log)@.len() < 1000 ==> forall|i: int|
            0 <= i < old(log)@.len() ==> members(#[trigger] final(log)@[i]) == members(
                old(log)@[i],
            ),
{
    let before = entries(old(log)@);
    law_call_is_kept_behind_the_others(before, members(entry));
    assert(entries(final(log)@).len() == final(log)@.len());
    if old(log)@.len() < 1000 {
        let after = entries(final(log)@);
        assert(after.last() == members(final(log)@.last()));
        assert forall|i: int| 0 <= i < old(log)@.len() implies members(#[trigger] final(log)@[i])
            == members(old(log)@[i]) by {
            assert(after.drop_last()[i] == before[i]);
            assert(after[i] == members(final(log)@[i]));
        }
    }
}

/// All calls are taken out, in order, each as an object with the members of the call.
pub proof fn law_calls_are_taken_out(log: &mut Vec<LogFields>, r: Vec<serde_json::Value>)
    requires
        call_ensures(read_client_log, (log,), r),
    ensures
        final(log)@.len() == 0,
        r@.len() == old(log)@.len(),
        forall|i: int|
            0 <= i < r@.len() ==> json(#[trigger] r@[i]) == Json::Object(members(old(log)@[i])),
{
    law_array_holds_each_call(old(log)@);
    let items = crate::json::jsons(r@);
    assert(items.len() == r@.len());
    assert forall|i: int| 0 <= i < r@.len() implies json(#[trigger] r@[i]) == Json::Object(
        members(old(log)@[i]),
    ) by {
        assert(items[i] == json(r@[i]));
    }
}

/// The answer to a request for the root greets and names the request.
pub proof fn law_answer_names_the_request(ctx: WelogContext, r: serde_json::Value)
    requires
        call_ensures(root_payload, (&ctx,), r),
    ensures
        json(r) is Object,
        says(json(r)->Object_0, "message"@, Json::Text("hello from welog_rs"@)),
        says(json(r)->Object_0, "request_id"@, Json::Text(ctx.request_id@)),
{
    reveal_strlit("message");
    reveal_strlit("request_id");
    assert("message"@.len() == 7);
    assert("request_id"@.len() == 10);
}

/// Copies of a request and of a response say what the request and the response said.
pub proof fn law_copies_say_the_same(
    req: TargetRequest,
    res: TargetResponse,
    req_copy: TargetRequest,
    res_copy: TargetResponse,
)
    requires
        call_ensures(TargetRequest::clone, (&req,), req_copy),
        call_ensures(TargetResponse::clone, (&res,), res_copy),
    ensures
        req_copy.url@ == req.url@,
        req_copy.method@ == req.method@,
        req_copy.content_type@ == req.content_type@,
        members(req_copy.header) == members(req.header),
        req_copy.body@ == req.body@,
        req_copy.timestamp == req.timestamp,
        members(res_copy.header) == members(res.header),
        res_copy.body@ == res.body@,
        res_copy.status == res.status,
        res_copy.latency == res.latency,
{
}

} // verus!
