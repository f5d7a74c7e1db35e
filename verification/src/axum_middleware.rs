//! Logging of HTTP requests and responses.

use std::sync::Arc;

use vstd::prelude::*;
use vstd::utf8::encode_utf8;

use crate::client_log::{
    append_target, appended, appended_all, entries, law_first_thousand_calls_are_kept,
    read_client_log, target_array, MAX_TARGET_LOGS,
};
use crate::clock::{
    clock_gave, debug_latency, duration_text, instant_in, is_response_offset, latency_shown,
    reads_back, response_instant, response_secs, response_text, response_to_rfc3339, rfc3339_text,
    times_ok, times_ok_at, times_read_back, timestamp_text, Latency, Timestamp, UtcInstant,
};
use crate::ecs::{enriched, lookup};
use crate::ecs_laws::{
    law_enrichment_keeps_logged_fields, law_event_duration_is_the_latency,
    law_logged_fields_are_found_again, law_nothing_under_an_absent_name,
    law_record_describes_the_request, law_record_describes_the_response,
    law_record_labels_the_request, law_request_is_named, logged_part,
};
use crate::headers::{
    find_text, first_value, header_get, header_insert, header_lines, header_members,
    header_to_map, holds_only, is_header_text, is_header_value, is_silent, is_visible_text,
    law_first_line_of_a_name_counts, law_text_that_is_read_is_visible,
    law_value_is_read_byte_by_byte, law_visible_text_is_read_back, line_text, names_in, reads_as,
    tells, values_of, visible_text, HeaderLine, MAX_HEADER_NAMES,
};
use crate::identity::{
    fresh_request_id, is_fresh, is_told_user, is_uuid_text, law_uuid_text_is_visible,
};
use crate::json::{
    array_value, is_object_held, member, members, new_fields, number_value, object_in_bytes,
    object_or_empty, object_value, says, set_field, string_value, text_value, Json, LogFields,
    Members, Num,
};
use crate::logger::{is_entry, shows_one_time, surroundings, LogEntry, Logger, Surroundings};
use crate::model::{TargetRequest, TargetResponse};
use crate::request_id::{
    carried_id, law_first_readable_value_is_the_id, lemma_request_id_name, REQUEST_ID_NAME,
};
use crate::text::{lossy_text, or_empty, text_or_empty, utf8_lossy};
use crate::util::{build_target_log_fields, target_members};

verus! {

/// The layer that puts the middleware around a service.
#[derive(Clone)]
pub struct WelogLayer;

/// A service with the middleware around it.
#[derive(Clone)]
pub struct WelogMiddleware<S> {
    pub inner: S,
}

impl WelogLayer {
    /// The service with the middleware around it.
    pub fn layer<S>(&self, inner: S) -> (r: WelogMiddleware<S>)
        ensures
            r.inner == inner,
    {
        WelogMiddleware { inner }
    }
}

/// What is known of a request while it is handled.
pub struct WelogContext {
    pub request_id: String,
    pub logger: Arc<Logger>,
    pub client_log: Vec<LogFields>,
}

impl WelogContext {
    /// A context without calls.
    pub fn new(request_id: String, logger: Arc<Logger>) -> (r: Self)
        ensures
            r.request_id == request_id,
            r.logger == logger,
            r.client_log@.len() == 0,
    {
        WelogContext { request_id, logger, client_log: Vec::new() }
    }

    /// The request's identifier.
    pub fn request_id(&self) -> (r: &str)
        ensures
            r@ == self.request_id@,
    {
        self.request_id.as_str()
    }

    /// The logger.
    pub fn logger(&self) -> (r: Arc<Logger>)
        ensures
            r == self.logger,
    {
        self.logger.clone()
    }
}

/// Switches that make rare events happen.
#[derive(Clone, Copy, Debug, PartialEq, Eq, Structural)]
pub struct AxumOverrides {
    pub invalid_request_id: bool,
    pub latency_overflow: bool,
}

impl AxumOverrides {
    /// No switch is on.
    pub fn new() -> (r: Self)
        ensures
            !r.invalid_request_id,
            !r.latency_overflow,
    {
        AxumOverrides { invalid_request_id: false, latency_overflow: false }
    }
}

/// Makes every request get an identifier that no header can carry.
pub fn coverage_force_invalid_request_id(overrides: &mut AxumOverrides, enabled: bool)
    ensures
        *final(overrides) == (AxumOverrides { invalid_request_id: enabled, ..*old(overrides) }),
{
    overrides.invalid_request_id = enabled;
}

/// Makes every latency too large for chrono.
pub fn coverage_force_latency_overflow(overrides: &mut AxumOverrides, enabled: bool)
    ensures
        *final(overrides) == (AxumOverrides { latency_overflow: enabled, ..*old(overrides) }),
{
    overrides.latency_overflow = enabled;
}

/// The identifier that no header can carry.
pub const UNSENDABLE_REQUEST_ID: &'static str = "invalid\nrequest-id";

/// What the header says in place of an identifier that it cannot carry.
pub const INVALID_REQUEST_ID: &'static str = "invalid-request-id";

/// What the header says for an identifier.
pub open spec fn header_id(request_id: Seq<char>) -> Seq<char> {
    if is_header_text(request_id) {
        request_id
    } else {
        INVALID_REQUEST_ID@
    }
}

proof fn lemma_invalid_request_id_is_visible()
    ensures
        is_visible_text(INVALID_REQUEST_ID@),
{
    reveal_strlit("invalid-request-id");
}

/// Whether a text is the identifier of a request with these headers: the one that they carry, some
/// fresh one where they carry none, and the one that no header can carry where that is switched
/// on.
pub open spec fn is_chosen(
    id: Seq<char>,
    lines: Seq<HeaderLine>,
    overrides: AxumOverrides,
) -> bool {
    if overrides.invalid_request_id {
        id == UNSENDABLE_REQUEST_ID@
    } else {
        match carried_id(lines) {
            Some(carried) => id == carried,
            None => is_fresh(id) && is_uuid_text(id),
        }
    }
}

/// An identifier that is chosen with no switch on can be read back from a header.
pub proof fn law_chosen_id_is_visible(
    id: Seq<char>,
    lines: Seq<HeaderLine>,
    overrides: AxumOverrides,
)
    requires
        is_chosen(id, lines, overrides),
        !overrides.invalid_request_id,
    ensures
        is_visible_text(id),
{
    if carried_id(lines) is Some {
        law_text_that_is_read_is_visible(first_value(lines, REQUEST_ID_NAME@)->0);
    } else {
        law_uuid_text_is_visible(id);
    }
}

/// An identifier that can be read back from a header is read back from the headers into which it
/// was put.
pub proof fn law_assigned_id_is_carried(
    before: Seq<HeaderLine>,
    after: Seq<HeaderLine>,
    request_id: Seq<char>,
)
    requires
        is_visible_text(request_id),
        holds_only(after, before, REQUEST_ID_NAME@, encode_utf8(header_id(request_id))),
    ensures
        carried_id(after) == Some(request_id),
{
    law_visible_text_is_read_back(request_id);
}

/// The response to a request carries the request's identifier, and the one that the request
/// carried where it carried one.
pub proof fn law_response_carries_the_id(
    id: Seq<char>,
    request: Seq<HeaderLine>,
    overrides: AxumOverrides,
    before: Seq<HeaderLine>,
    response: Seq<HeaderLine>,
)
    requires
        is_chosen(id, request, overrides),
        !overrides.invalid_request_id,
        holds_only(response, before, REQUEST_ID_NAME@, encode_utf8(header_id(id))),
    ensures
        carried_id(response) == Some(id),
        carried_id(request) is Some ==> carried_id(response) == carried_id(request),
{
    law_chosen_id_is_visible(id, request, overrides);
    law_assigned_id_is_carried(before, response, id);
}

/// The identifier of a request: the one that its headers carry, a fresh one where they carry none,
/// and one that no header can carry where that is switched on.
pub fn choose_request_id(
    headers: &http::HeaderMap<http::HeaderValue>,
    overrides: &AxumOverrides,
) -> (r: String)
    ensures
        is_chosen(r@, header_lines(*headers), *overrides),
{
    if overrides.invalid_request_id {
        return UNSENDABLE_REQUEST_ID.to_owned();
    }
    proof {
        lemma_request_id_name();
    }
    match header_get(headers, REQUEST_ID_NAME) {
        Some(Some(id)) => id,
        _ => fresh_request_id(),
    }
}

/// Puts an identifier into headers, in place of any that they carry. Headers that have no room for
/// another name stay as they are; those with few names have room.
pub fn assign_request_id(
    headers: &mut http::HeaderMap<http::HeaderValue>,
    request_id: &str,
) -> (r: bool)
    ensures
        names_in(header_lines(*old(headers))).len() <= MAX_HEADER_NAMES ==> r,
        r ==> holds_only(
            header_lines(*final(headers)),
            header_lines(*old(headers)),
            REQUEST_ID_NAME@,
            encode_utf8(header_id(request_id@)),
        ),
        !r ==> header_lines(*final(headers)) == header_lines(*old(headers)),
{
    proof {
        lemma_request_id_name();
        lemma_invalid_request_id_is_visible();
        law_visible_text_is_read_back(INVALID_REQUEST_ID@);
    }
    if is_header_value(request_id) {
        header_insert(headers, REQUEST_ID_NAME, request_id)
    } else {
        header_insert(headers, REQUEST_ID_NAME, INVALID_REQUEST_ID)
    }
}

/// Takes a request in: its headers carry its identifier from then on, and the context knows it.
/// Nothing is done where the headers have no room for the identifier.
pub fn accept_request(
    headers: &mut http::HeaderMap<http::HeaderValue>,
    overrides: &AxumOverrides,
    logger: Arc<Logger>,
) -> (r: Option<WelogContext>)
    ensures
        names_in(header_lines(*old(headers))).len() <= MAX_HEADER_NAMES ==> r is Some,
        r is None ==> header_lines(*final(headers)) == header_lines(*old(headers)),
        r matches Some(ctx) ==> {
            &&& ctx.logger == logger
            &&& ctx.client_log@.len() == 0
            &&& is_chosen(ctx.request_id@, header_lines(*old(headers)), *overrides)
            &&& holds_only(
                header_lines(*final(headers)),
                header_lines(*old(headers)),
                REQUEST_ID_NAME@,
                encode_utf8(header_id(ctx.request_id@)),
            )
            &&& !overrides.invalid_request_id ==> carried_id(header_lines(*final(headers)))
                == Some(ctx.request_id@)
        },
{
    let request_id = choose_request_id(headers, overrides);
    let ghost before = header_lines(*headers);
    if !assign_request_id(headers, request_id.as_str()) {
        return None;
    }
    proof {
        if !overrides.invalid_request_id {
            law_chosen_id_is_visible(request_id@, before, *overrides);
            law_assigned_id_is_carried(before, header_lines(*headers), request_id@);
        }
    }
    Some(WelogContext::new(request_id, logger))
}

/// Puts the request's identifier into the headers of its response. Nothing is done where they have
/// no room for it.
pub fn answer_request(
    headers: &mut http::HeaderMap<http::HeaderValue>,
    ctx: &WelogContext,
) -> (r: bool)
    ensures
        names_in(header_lines(*old(headers))).len() <= MAX_HEADER_NAMES ==> r,
        r ==> holds_only(
            header_lines(*final(headers)),
            header_lines(*old(headers)),
            REQUEST_ID_NAME@,
            encode_utf8(header_id(ctx.request_id@)),
        ),
        r && is_visible_text(ctx.request_id@) ==> carried_id(header_lines(*final(headers))) == Some(
            ctx.request_id@,
        ),
        !r ==> header_lines(*final(headers)) == header_lines(*old(headers)),
{
    let ghost before = header_lines(*headers);
    let done = assign_request_id(headers, ctx.request_id.as_str());
    proof {
        if done && is_visible_text(ctx.request_id@) {
            law_assigned_id_is_carried(before, header_lines(*headers), ctx.request_id@);
        }
    }
    done
}

/// The version of HTTP that a request uses.
#[derive(Clone, Copy, Debug, PartialEq, Eq, Structural)]
pub enum HttpVersion {
    Http09,
    Http10,
    Http11,
    Http2,
    Http3,
    Other,
}

/// The name of a version.
pub open spec fn version_text(version: HttpVersion) -> Seq<char> {
    match version {
        HttpVersion::Http09 => "HTTP/0.9"@,
        HttpVersion::Http10 => "HTTP/1.0"@,
        HttpVersion::Http11 => "HTTP/1.1"@,
        HttpVersion::Http2 => "HTTP/2.0"@,
        HttpVersion::Http3 => "HTTP/3.0"@,
        HttpVersion::Other => "HTTP"@,
    }
}

/// The name of a version.
pub fn version_to_string(version: HttpVersion) -> (r: String)
    ensures
        r@ == version_text(version),
{
    let name = match version {
        HttpVersion::Http09 => "HTTP/0.9",
        HttpVersion::Http10 => "HTTP/1.0",
        HttpVersion::Http11 => "HTTP/1.1",
        HttpVersion::Http2 => "HTTP/2.0",
        HttpVersion::Http3 => "HTTP/3.0",
        HttpVersion::Other => "HTTP",
    };
    name.to_owned()
}

/// The text of the first header called `name`, in whatever case; empty where there is none, or
/// where its value is not visible ASCII.
pub fn header_to_string(headers: &http::HeaderMap<http::HeaderValue>, name: &str) -> (r: String)
    ensures
        r@ == text_or_empty(line_text(header_lines(*headers), name@)),
{
    or_empty(find_text(headers, name))
}

/// The client's address, as headers tell it: the first of three that has a text.
pub open spec fn client_ip(lines: Seq<HeaderLine>) -> Seq<char> {
    match line_text(lines, "x-real-ip"@) {
        Some(ip) => ip,
        None => match line_text(lines, "x-forwarded-for"@) {
            Some(ip) => ip,
            None => text_or_empty(line_text(lines, "x-client-ip"@)),
        },
    }
}

/// The client's address, as far as headers tell it; empty where they do not.
pub fn extract_client_ip(headers: &http::HeaderMap<http::HeaderValue>) -> (r: String)
    ensures
        r@ == client_ip(header_lines(*headers)),
{
    match find_text(headers, "x-real-ip") {
        Some(ip) => ip,
        None => match find_text(headers, "x-forwarded-for") {
            Some(ip) => ip,
            None => header_to_string(headers, "x-client-ip"),
        },
    }
}

/// A request and its response.
#[derive(Clone, Copy)]
pub struct AxumExchange<'a> {
    pub request_time: Timestamp,
    pub latency: Latency,
    pub method: &'a str,
    pub url: &'a str,
    pub version: HttpVersion,
    pub request_headers: &'a http::HeaderMap<http::HeaderValue>,
    pub request_body: &'a [u8],
    pub response_headers: &'a http::HeaderMap<http::HeaderValue>,
    pub response_body: &'a [u8],
    pub status: u16,
    pub client_ip: &'a str,
}

/// The latency that is logged: too large for chrono where that is switched on.
pub open spec fn logged_latency(overrides: AxumOverrides, latency: Latency) -> Latency {
    if overrides.latency_overflow {
        Latency { secs: u64::MAX, nanos: 0 }
    } else {
        latency
    }
}

/// The latency that is logged.
fn observed_latency(overrides: &AxumOverrides, latency: Latency) -> (r: Latency)
    ensures
        r == logged_latency(*overrides, latency),
{
    if overrides.latency_overflow {
        Latency { secs: u64::MAX, nanos: 0 }
    } else {
        latency
    }
}

/// While the switch for the latency is on, every request is logged with a latency that chrono
/// cannot represent, whatever the other switch says, so that its response is shown at the request's
/// time; while it is off, with the latency that it had.
pub proof fn law_latency_switch(
    overrides: AxumOverrides,
    request: Timestamp,
    latency: Latency,
    offset: i32,
)
    ensures
        !overrides.latency_overflow ==> logged_latency(overrides, latency) == latency,
        overrides.latency_overflow ==> {
            let logged = logged_latency(overrides, latency);
            &&& logged.secs == u64::MAX && logged.nanos == 0
            &&& !logged.fits()
            &&& is_response_offset(request, logged, offset) ==> response_text(
                request.instant,
                logged,
                offset,
            ) == timestamp_text(request)
        },
{
}

/// The log fields of a request and its response, for the calls `targets`, where `user` runs the
/// process and the clock has the UTC offset `offset` when the response comes.
pub open spec fn axum_members(
    request_id: Seq<char>,
    e: AxumExchange<'_>,
    latency: Latency,
    targets: Seq<Members>,
    user: Seq<char>,
    offset: i32,
) -> Members {
    let lines = header_lines(*e.request_headers);
    map![
        "requestAgent"@ => Json::Text(text_or_empty(line_text(lines, "user-agent"@))),
        "requestBody"@ => Json::Object(object_in_bytes(e.request_body@)),
        "requestBodyString"@ => Json::Text(lossy_text(e.request_body@)),
        "requestContentType"@ => Json::Text(text_or_empty(line_text(lines, "content-type"@))),
        "requestHeader"@ => Json::Object(header_members(lines)),
        "requestHostName"@ => Json::Text(text_or_empty(line_text(lines, "host"@))),
        "requestId"@ => Json::Text(request_id),
        "requestIp"@ => Json::Text(e.client_ip@),
        "requestMethod"@ => Json::Text(e.method@),
        "requestProtocol"@ => Json::Text(version_text(e.version)),
        "requestTimestamp"@ => Json::Text(timestamp_text(e.request_time)),
        "requestUrl"@ => Json::Text(e.url@),
        "responseBody"@ => Json::Object(object_in_bytes(e.response_body@)),
        "responseBodyString"@ => Json::Text(lossy_text(e.response_body@)),
        "responseHeader"@ => Json::Object(header_members(header_lines(*e.response_headers))),
        "responseLatency"@ => Json::Text(duration_text(latency.secs, latency.nanos)),
        "responseStatus"@ => Json::Number(Num::Unsigned(e.status as u64)),
        "responseTimestamp"@ => Json::Text(
            response_text(e.request_time.instant, latency, offset),
        ),
        "responseUser"@ => Json::Text(user),
        "target"@ => target_array(targets),
    ]
}

/// The log fields of a request and its response, where `user` runs the process and the clock has
/// the UTC offset `offset` when the response comes. The context's calls are taken out.
pub fn axum_fields_at(
    ctx: &mut WelogContext,
    e: &AxumExchange<'_>,
    latency: Latency,
    user: String,
    offset: i32,
) -> (r: LogFields)
    requires
        times_ok_at(e.request_time, latency, offset),
    ensures
        members(r) == axum_members(
            old(ctx).request_id@,
            *e,
            latency,
            entries(old(ctx).client_log@),
            user@,
            offset,
        ),
        final(ctx).request_id == old(ctx).request_id,
        final(ctx).logger == old(ctx).logger,
        final(ctx).client_log@.len() == 0,
        reads_back(e.request_time.instant.secs as int, e.request_time.offset as int) ==> instant_in(
            timestamp_text(e.request_time),
        ) == Some(e.request_time.instant),
        reads_back(response_secs(e.request_time.instant, latency), offset as int) ==> instant_in(
            response_text(e.request_time.instant, latency, offset),
        ) == Some(response_instant(e.request_time.instant, latency)),
{
    let request_body = object_or_empty(e.request_body);
    let response_body = object_or_empty(e.response_body);
    let user_agent = header_to_string(e.request_headers, "user-agent");
    let content_type = header_to_string(e.request_headers, "content-type");
    let host = header_to_string(e.request_headers, "host");
    let request_timestamp = e.request_time.to_rfc3339();
    let response_timestamp = response_to_rfc3339(e.request_time, latency, offset);
    let targets = read_client_log(&mut ctx.client_log);
    let mut fields = new_fields();
    set_field(&mut fields, "requestAgent", string_value(user_agent));
    set_field(&mut fields, "requestBody", object_value(request_body));
    set_field(&mut fields, "requestBodyString", string_value(utf8_lossy(e.request_body)));
    set_field(&mut fields, "requestContentType", string_value(content_type));
    set_field(&mut fields, "requestHeader", object_value(header_to_map(e.request_headers)));
    set_field(&mut fields, "requestHostName", string_value(host));
    set_field(&mut fields, "requestId", text_value(ctx.request_id.as_str()));
    set_field(&mut fields, "requestIp", text_value(e.client_ip));
    set_field(&mut fields, "requestMethod", text_value(e.method));
    set_field(&mut fields, "requestProtocol", string_value(version_to_string(e.version)));
    set_field(&mut fields, "requestTimestamp", string_value(request_timestamp));
    set_field(&mut fields, "requestUrl", text_value(e.url));
    set_field(&mut fields, "responseBody", object_value(response_body));
    set_field(&mut fields, "responseBodyString", string_value(utf8_lossy(e.response_body)));
    set_field(&mut fields, "responseHeader", object_value(header_to_map(e.response_headers)));
    set_field(&mut fields, "responseLatency", string_value(debug_latency(latency)));
    set_field(&mut fields, "responseStatus", number_value(e.status as u64));
    set_field(&mut fields, "responseTimestamp", string_value(response_timestamp));
    set_field(&mut fields, "responseUser", string_value(user));
    set_field(&mut fields, "target", array_value(targets));
    fields
}

proof fn lemma_axum_keys(
    request_id: Seq<char>,
    e: AxumExchange<'_>,
    latency: Latency,
    targets: Seq<Members>,
    user: Seq<char>,
    offset: i32,
)
    ensures
        forall|key: Seq<char>| #[trigger]
            axum_members(request_id, e, latency, targets, user, offset).contains_key(key)
                ==> key.len() > 0 && (key[0] == 'r' || key[0] == 't'),
{
    reveal_strlit("requestAgent");
    reveal_strlit("requestBody");
    reveal_strlit("requestBodyString");
    reveal_strlit("requestContentType");
    reveal_strlit("requestHeader");
    reveal_strlit("requestHostName");
    reveal_strlit("requestId");
    reveal_strlit("requestIp");
    reveal_strlit("requestMethod");
    reveal_strlit("requestProtocol");
    reveal_strlit("requestTimestamp");
    reveal_strlit("requestUrl");
    reveal_strlit("responseBody");
    reveal_strlit("responseBodyString");
    reveal_strlit("responseHeader");
    reveal_strlit("responseLatency");
    reveal_strlit("responseStatus");
    reveal_strlit("responseTimestamp");
    reveal_strlit("responseUser");
    reveal_strlit("target");
}

proof fn lemma_axum_members(
    request_id: Seq<char>,
    e: AxumExchange<'_>,
    latency: Latency,
    targets: Seq<Members>,
    user: Seq<char>,
    offset: i32,
)
    ensures
        ({
            let m = axum_members(request_id, e, latency, targets, user, offset);
            &&& !m.contains_key("event"@)
            &&& !m.contains_key("http"@)
            &&& !m.contains_key("labels"@)
            &&& member(m, "requestId"@) == Some(Json::Text(request_id))
            &&& member(m, "requestTimestamp"@) == Some(Json::Text(timestamp_text(e.request_time)))
            &&& member(m, "responseTimestamp"@) == Some(
                Json::Text(response_text(e.request_time.instant, latency, offset)),
            )
            &&& member(m, "target"@) == Some(target_array(targets))
        }),
{
    let m = axum_members(request_id, e, latency, targets, user, offset);
    assert(!m.contains_key("event"@) && !m.contains_key("http"@) && !m.contains_key("labels"@)) by {
        lemma_axum_keys(request_id, e, latency, targets, user, offset);
        reveal_strlit("event");
        assert("event"@[0] == 'e');
        reveal_strlit("http");
        assert("http"@[0] == 'h');
        reveal_strlit("labels");
        assert("labels"@[0] == 'l');
    }
    reveal_strlit("requestId");
    assert("requestId"@.len() == 9 && "requestId"@[8] == 'd');
    reveal_strlit("requestIp");
    assert("requestIp"@.len() == 9 && "requestIp"@[8] == 'p');
    reveal_strlit("requestMethod");
    assert("requestMethod"@.len() == 13);
    reveal_strlit("requestProtocol");
    assert("requestProtocol"@.len() == 15);
    reveal_strlit("requestTimestamp");
    assert("requestTimestamp"@.len() == 16);
    reveal_strlit("requestUrl");
    assert("requestUrl"@.len() == 10);
    reveal_strlit("responseBody");
    assert("responseBody"@.len() == 12);
    reveal_strlit("responseBodyString");
    assert("responseBodyString"@.len() == 18);
    reveal_strlit("responseHeader");
    assert("responseHeader"@.len() == 14);
    reveal_strlit("responseLatency");
    assert("responseLatency"@.len() == 15);
    reveal_strlit("responseStatus");
    assert("responseStatus"@.len() == 14);
    reveal_strlit("responseTimestamp");
    assert("responseTimestamp"@.len() == 17);
    reveal_strlit("responseUser");
    assert("responseUser"@.len() == 12);
    reveal_strlit("target");
    assert("target"@.len() == 6);
}

/// The record of a request and its response names the request, in the log's own field and in each
/// place where the schema wants it.
pub proof fn law_record_names_the_request(
    request_id: Seq<char>,
    e: AxumExchange<'_>,
    latency: Latency,
    targets: Seq<Members>,
    user: Seq<char>,
    offset: i32,
    now: UtcInstant,
)
    ensures
        ({
            let m = axum_members(request_id, e, latency, targets, user, offset);
            let record = enriched(m, now);
            &&& member(record, "requestId"@) == Some(Json::Text(request_id))
            &&& lookup(record, seq!["http"@, "request"@, "id"@]) == Some(Json::Text(request_id))
            &&& lookup(record, seq!["labels"@, "request_id"@]) == Some(Json::Text(request_id))
        }),
{
    let m = axum_members(request_id, e, latency, targets, user, offset);
    lemma_axum_members(request_id, e, latency, targets, user, offset);
    law_request_is_named(m, now, request_id);
    reveal_strlit("requestId");
    law_enrichment_keeps_logged_fields(m, now, "requestId"@);
}

/// The calls that a request made, as far as they were kept, are in the record of the request, in
/// order: the first thousand of them.
pub proof fn law_record_holds_the_calls(
    request_id: Seq<char>,
    e: AxumExchange<'_>,
    latency: Latency,
    calls: Seq<Members>,
    user: Seq<char>,
    offset: i32,
    now: UtcInstant,
)
    ensures
        member(
            enriched(
                axum_members(
                    request_id,
                    e,
                    latency,
                    appended_all(Seq::empty(), calls),
                    user,
                    offset,
                ),
                now,
            ),
            "target"@,
        ) == Some(
            target_array(
                if calls.len() <= MAX_TARGET_LOGS {
                    calls
                } else {
                    calls.take(MAX_TARGET_LOGS as int)
                },
            ),
        ),
{
    let kept = appended_all(Seq::empty(), calls);
    law_first_thousand_calls_are_kept(Seq::empty(), calls);
    assert(Seq::<Members>::empty() + calls =~= calls);
    lemma_axum_members(request_id, e, latency, kept, user, offset);
    reveal_strlit("target");
    law_enrichment_keeps_logged_fields(
        axum_members(request_id, e, latency, kept, user, offset),
        now,
        "target"@,
    );
}

/// Whether an entry is the log of a request and its response, where `user` runs the process, the
/// clock has the UTC offset `offset` when the response comes, and `now` is the time. The duration
/// of the event is the latency.
pub open spec fn logs_exchange(
    entry: LogEntry,
    request_id: Seq<char>,
    e: AxumExchange<'_>,
    latency: Latency,
    targets: Seq<Members>,
    user: Seq<char>,
    offset: i32,
    now: UtcInstant,
) -> bool {
    &&& is_entry(entry, axum_members(request_id, e, latency, targets, user, offset), now)
    &&& latency_shown(e.request_time, latency, offset) ==> lookup(
        members(entry.record),
        seq!["event"@, "duration"@],
    ) == Some(Json::Number(Num::Unsigned(latency.total_nanos() as u64)))
}

/// The log of a request and its response, in given surroundings. The context's calls are taken
/// out.
pub fn log_axum_at(
    ctx: &mut WelogContext,
    overrides: &AxumOverrides,
    e: &AxumExchange<'_>,
    at: Surroundings,
) -> (r: LogEntry)
    requires
        times_ok_at(e.request_time, logged_latency(*overrides, e.latency), at.offset),
        at.now.ok(),
    ensures
        logs_exchange(
            r,
            old(ctx).request_id@,
            *e,
            logged_latency(*overrides, e.latency),
            entries(old(ctx).client_log@),
            at.user@,
            at.offset,
            at.now,
        ),
        !logged_latency(*overrides, e.latency).fits() && at.offset == e.request_time.offset
            ==> shows_one_time(members(r.record)),
        final(ctx).request_id == old(ctx).request_id,
        final(ctx).logger == old(ctx).logger,
        final(ctx).client_log@.len() == 0,
{
    let latency = observed_latency(overrides, e.latency);
    let ghost targets = entries(ctx.client_log@);
    let ghost user = at.user@;
    let fields = axum_fields_at(ctx, e, latency, at.user, at.offset);
    proof {
        lemma_axum_members(ctx.request_id@, *e, latency, targets, user, at.offset);
        law_nothing_under_an_absent_name(members(fields), seq!["event"@, "duration"@]);
        if latency_shown(e.request_time, latency, at.offset) {
            law_event_duration_is_the_latency(
                members(fields),
                at.now,
                e.request_time.instant,
                latency,
            );
        }
        reveal_strlit("requestTimestamp");
        law_enrichment_keeps_logged_fields(members(fields), at.now, "requestTimestamp"@);
        reveal_strlit("responseTimestamp");
        law_enrichment_keeps_logged_fields(members(fields), at.now, "responseTimestamp"@);
    }
    ctx.logger.log_at(fields, at.now)
}

/// The log of a request and its response. The context's calls are taken out.
pub fn log_axum(ctx: &mut WelogContext, overrides: &AxumOverrides, e: &AxumExchange<'_>) -> (r:
    LogEntry)
    requires
        times_ok(e.request_time, logged_latency(*overrides, e.latency)),
    ensures
        exists|user: Seq<char>, offset: i32, now: UtcInstant|
            is_response_offset(
                e.request_time,
                logged_latency(*overrides, e.latency),
                offset,
            ) && is_told_user(user) && clock_gave(now) && now.ok() && #[trigger] logs_exchange(
                r,
                old(ctx).request_id@,
                *e,
                logged_latency(*overrides, e.latency),
                entries(old(ctx).client_log@),
                user,
                offset,
                now,
            ),
        !logged_latency(*overrides, e.latency).fits() ==> shows_one_time(members(r.record)),
        final(ctx).request_id == old(ctx).request_id,
        final(ctx).logger == old(ctx).logger,
        final(ctx).client_log@.len() == 0,
{
    let at = surroundings(e.request_time, observed_latency(overrides, e.latency));
    log_axum_at(ctx, overrides, e, at)
}

/// Keeps a call to another service for the log of the request, where there is room for it.
pub fn log_axum_client(ctx: &mut WelogContext, req: TargetRequest, res: TargetResponse)
    requires
        times_ok(req.timestamp, res.latency),
    ensures
        exists|offset: i32|
            is_response_offset(req.timestamp, res.latency, offset) && times_read_back(
                req.timestamp,
                res.latency,
                offset,
            ) && entries(final(ctx).client_log@) == appended(
                entries(old(ctx).client_log@),
                #[trigger] target_members(req, res, offset),
            ),
        final(ctx).request_id == old(ctx).request_id,
        final(ctx).logger == old(ctx).logger,
{
    let entry = build_target_log_fields(&req, &res);
    append_target(&mut ctx.client_log, entry);
}

proof fn lemma_exchange_names()
    ensures
        "requestAgent"@.len() == 12 && "requestAgent"@[2] == 'q'
            && "requestAgent"@[0] == 'r' && "requestAgent"@[2] == 'q',
        "requestBody"@.len() == 11 && "requestBody"@[2] == 'q'
            && "requestBody"@[0] == 'r' && "requestBody"@[2] == 'q',
        "requestBodyString"@.len() == 17 && "requestBodyString"@[2] == 'q'
            && "requestBodyString"@[0] == 'r' && "requestBodyString"@[2] == 'q',
        "requestContentType"@.len() == 18 && "requestContentType"@[2] == 'q'
            && "requestContentType"@[0] == 'r' && "requestContentType"@[2] == 'q',
        "requestHeader"@.len() == 13 && "requestHeader"@[7] == 'H'
            && "requestHeader"@[0] == 'r' && "requestHeader"@[2] == 'q',
        "requestHostName"@.len() == 15 && "requestHostName"@[7] == 'H'
            && "requestHostName"@[0] == 'r' && "requestHostName"@[2] == 'q',
        "requestId"@.len() == 9 && "requestId"@[8] == 'd'
            && "requestId"@[0] == 'r' && "requestId"@[2] == 'q',
        "requestIp"@.len() == 9 && "requestIp"@[8] == 'p'
            && "requestIp"@[0] == 'r' && "requestIp"@[2] == 'q',
        "requestMethod"@.len() == 13 && "requestMethod"@[7] == 'M'
            && "requestMethod"@[0] == 'r' && "requestMethod"@[2] == 'q',
        "requestProtocol"@.len() == 15 && "requestProtocol"@[7] == 'P'
            && "requestProtocol"@[0] == 'r' && "requestProtocol"@[2] == 'q',
        "requestTimestamp"@.len() == 16 && "requestTimestamp"@[2] == 'q'
            && "requestTimestamp"@[0] == 'r' && "requestTimestamp"@[2] == 'q',
        "requestUrl"@.len() == 10 && "requestUrl"@[2] == 'q'
            && "requestUrl"@[0] == 'r' && "requestUrl"@[2] == 'q',
        "responseBody"@.len() == 12 && "responseBody"@[8] == 'B'
            && "responseBody"@[0] == 'r' && "responseBody"@[2] == 's',
        "responseBodyString"@.len() == 18 && "responseBodyString"@[2] == 's'
            && "responseBodyString"@[0] == 'r' && "responseBodyString"@[2] == 's',
        "responseHeader"@.len() == 14 && "responseHeader"@[8] == 'H'
            && "responseHeader"@[0] == 'r' && "responseHeader"@[2] == 's',
        "responseLatency"@.len() == 15 && "responseLatency"@[2] == 's'
            && "responseLatency"@[0] == 'r' && "responseLatency"@[2] == 's',
        "responseStatus"@.len() == 14 && "responseStatus"@[8] == 'S'
            && "responseStatus"@[0] == 'r' && "responseStatus"@[2] == 's',
        "responseTimestamp"@.len() == 17 && "responseTimestamp"@[2] == 's'
            && "responseTimestamp"@[0] == 'r' && "responseTimestamp"@[2] == 's',
        "responseUser"@.len() == 12 && "responseUser"@[8] == 'U'
            && "responseUser"@[0] == 'r' && "responseUser"@[2] == 's',
        "target"@.len() == 6 && "target"@[0] == 't'
            && "target"@[0] == 't' && "target"@[2] == 'r',
{
    reveal_strlit("requestAgent");
    reveal_strlit("requestBody");
    reveal_strlit("requestBodyString");
    reveal_strlit("requestContentType");
    reveal_strlit("requestHeader");
    reveal_strlit("requestHostName");
    reveal_strlit("requestId");
    reveal_strlit("requestIp");
    reveal_strlit("requestMethod");
    reveal_strlit("requestProtocol");
    reveal_strlit("requestTimestamp");
    reveal_strlit("requestUrl");
    reveal_strlit("responseBody");
    reveal_strlit("responseBodyString");
    reveal_strlit("responseHeader");
    reveal_strlit("responseLatency");
    reveal_strlit("responseStatus");
    reveal_strlit("responseTimestamp");
    reveal_strlit("responseUser");
    reveal_strlit("target");
}

/// Whether a record says of a request what the request was.
pub open spec fn tells_request(
    record: Members,
    request_id: Seq<char>,
    e: AxumExchange<'_>,
) -> bool {
    let lines = header_lines(*e.request_headers);
    &&& record.contains_key("requestBody"@)
    &&& is_object_held(record["requestBody"@], e.request_body@)
    &&& says(record, "requestBodyString"@, Json::Text(lossy_text(e.request_body@)))
    &&& says(record, "requestHeader"@, Json::Object(header_members(lines)))
    &&& says_header(record, "requestAgent"@, lines, "user-agent"@)
    &&& says_header(record, "requestContentType"@, lines, "content-type"@)
    &&& says_header(record, "requestHostName"@, lines, "host"@)
    &&& says(record, "requestId"@, Json::Text(request_id))
    &&& says(record, "requestIp"@, Json::Text(e.client_ip@))
    &&& says(record, "requestMethod"@, Json::Text(e.method@))
    &&& says(record, "requestProtocol"@, Json::Text(version_text(e.version)))
    &&& says(
        record,
        "requestTimestamp"@,
        Json::Text(
            rfc3339_text(
                e.request_time.instant.secs,
                e.request_time.instant.nanos,
                e.request_time.offset,
            ),
        ),
    )
    &&& says(record, "requestUrl"@, Json::Text(e.url@))
}

/// The record of an exchange says of the request what the request was: its bytes as text and the
/// JSON object that they hold, its headers, its method, its address, its version, its time, its
/// identifier and its client's address.
pub proof fn law_record_tells_the_request(
    entry: LogEntry,
    request_id: Seq<char>,
    e: AxumExchange<'_>,
    latency: Latency,
    targets: Seq<Members>,
    user: Seq<char>,
    offset: i32,
    now: UtcInstant,
)
    requires
        logs_exchange(entry, request_id, e, latency, targets, user, offset, now),
    ensures
        tells_request(members(entry.record), request_id, e),
{
    let m = axum_members(request_id, e, latency, targets, user, offset);
    lemma_exchange_names();
    lemma_kept_in_record(m, now);
    let lines = header_lines(*e.request_headers);
    lemma_header_told(lines, "user-agent"@);
    lemma_header_told(lines, "content-type"@);
    lemma_header_told(lines, "host"@);
    assert(member(enriched(m, now), "requestAgent"@) == member(m, "requestAgent"@));
    assert(member(enriched(m, now), "requestBody"@) == member(m, "requestBody"@));
    assert(member(enriched(m, now), "requestBodyString"@) == member(m, "requestBodyString"@));
    assert(member(enriched(m, now), "requestContentType"@) == member(m, "requestContentType"@));
    assert(member(enriched(m, now), "requestHeader"@) == member(m, "requestHeader"@));
    assert(member(enriched(m, now), "requestHostName"@) == member(m, "requestHostName"@));
    assert(member(enriched(m, now), "requestId"@) == member(m, "requestId"@));
    assert(member(enriched(m, now), "requestIp"@) == member(m, "requestIp"@));
    assert(member(enriched(m, now), "requestMethod"@) == member(m, "requestMethod"@));
    assert(member(enriched(m, now), "requestProtocol"@) == member(m, "requestProtocol"@));
    assert(member(enriched(m, now), "requestTimestamp"@) == member(m, "requestTimestamp"@));
    assert(member(enriched(m, now), "requestUrl"@) == member(m, "requestUrl"@));
}

/// Whether a record says under a name what a header tells, and the empty text where it tells
/// nothing.
pub open spec fn says_header(
    record: Members,
    key: Seq<char>,
    lines: Seq<HeaderLine>,
    name: Seq<char>,
) -> bool {
    &&& record.contains_key(key) && record[key] is Text
    &&& forall|text: Seq<char>| #[trigger]
        tells(lines, name, text) ==> record[key] == Json::Text(text)
    &&& is_silent(lines, name) ==> record[key] == Json::Text(Seq::empty())
}

proof fn lemma_header_told(lines: Seq<HeaderLine>, name: Seq<char>)
    ensures
        forall|text: Seq<char>| #[trigger]
            tells(lines, name, text) ==> text_or_empty(line_text(lines, name)) == text,
        is_silent(lines, name) ==> text_or_empty(line_text(lines, name)) == Seq::<char>::empty(),
{
    assert forall|text: Seq<char>| #[trigger] tells(lines, name, text) implies text_or_empty(
        line_text(lines, name),
    ) == text by {
        law_first_line_of_a_name_counts(lines, name, text);
    }
    if line_text(lines, name) is Some {
        law_first_line_of_a_name_counts(lines, name, line_text(lines, name)->0);
    }
}

proof fn lemma_kept_in_record(m: Members, now: UtcInstant)
    ensures
        forall|key: Seq<char>|
            key.len() > 0 && (key[0] == 'r' || key[0] == 't') ==> #[trigger] member(
                enriched(m, now),
                key,
            ) == member(m, key),
{
    assert forall|key: Seq<char>| key.len() > 0 && (key[0] == 'r' || key[0] == 't') implies
        #[trigger] member(enriched(m, now), key) == member(m, key) by {
        law_enrichment_keeps_logged_fields(m, now, key);
    }
}

/// Whether a record says of a response what the response was.
pub open spec fn tells_response(
    record: Members,
    e: AxumExchange<'_>,
    latency: Latency,
    targets: Seq<Members>,
    user: Seq<char>,
    offset: i32,
) -> bool {
    let at = response_instant(e.request_time.instant, latency);
    &&& record.contains_key("responseBody"@)
    &&& is_object_held(record["responseBody"@], e.response_body@)
    &&& says(record, "responseBodyString"@, Json::Text(lossy_text(e.response_body@)))
    &&& says(
        record,
        "responseHeader"@,
        Json::Object(header_members(header_lines(*e.response_headers))),
    )
    &&& says(
        record,
        "responseLatency"@,
        Json::Text(duration_text(latency.secs, latency.nanos)),
    )
    &&& says(record, "responseStatus"@, Json::Number(Num::Unsigned(e.status as u64)))
    &&& says(
        record,
        "responseTimestamp"@,
        Json::Text(rfc3339_text(at.secs, at.nanos, offset)),
    )
    &&& says(record, "responseUser"@, Json::Text(user))
    &&& record.contains_key("target"@) && record["target"@] is Array
    &&& record["target"@]->Array_0.len() == targets.len()
    &&& forall|i: int|
        0 <= i < targets.len() ==> #[trigger] record["target"@]->Array_0[i]
            == Json::Object(targets[i])
}

/// The record of an exchange says of the response what the response was: its bytes as text and the
/// JSON object that they hold, its headers, its status, its latency and its time, which is the
/// latency after the request's; it names the user, and it holds the calls to other services.
pub proof fn law_record_tells_the_response(
    entry: LogEntry,
    request_id: Seq<char>,
    e: AxumExchange<'_>,
    latency: Latency,
    targets: Seq<Members>,
    user: Seq<char>,
    offset: i32,
    now: UtcInstant,
)
    requires
        logs_exchange(entry, request_id, e, latency, targets, user, offset, now),
    ensures
        tells_response(members(entry.record), e, latency, targets, user, offset),
{
    let m = axum_members(request_id, e, latency, targets, user, offset);
    lemma_exchange_names();
    lemma_kept_in_record(m, now);
    assert(member(enriched(m, now), "responseBody"@) == member(m, "responseBody"@));
    assert(member(enriched(m, now), "responseBodyString"@) == member(m, "responseBodyString"@));
    assert(member(enriched(m, now), "responseHeader"@) == member(m, "responseHeader"@));
    assert(member(enriched(m, now), "responseLatency"@) == member(m, "responseLatency"@));
    assert(member(enriched(m, now), "responseStatus"@) == member(m, "responseStatus"@));
    assert(member(enriched(m, now), "responseTimestamp"@) == member(m, "responseTimestamp"@));
    assert(member(enriched(m, now), "responseUser"@) == member(m, "responseUser"@));
    assert(member(enriched(m, now), "target"@) == member(m, "target"@));
}

/// The client's address is what `x-real-ip` tells, whatever other headers there are; where that
/// tells nothing, what `x-forwarded-for` tells; where that tells nothing either, what `x-client-ip`
/// tells; and it is empty only where none of the three tells anything.
pub proof fn law_client_ip_is_what_the_headers_tell(lines: Seq<HeaderLine>)
    ensures
        forall|ip: Seq<char>| #[trigger] tells(lines, "x-real-ip"@, ip) ==> client_ip(lines) == ip,
        forall|ip: Seq<char>|
            is_silent(lines, "x-real-ip"@) && #[trigger] tells(lines, "x-forwarded-for"@, ip)
                ==> client_ip(lines) == ip,
        forall|ip: Seq<char>|
            is_silent(lines, "x-real-ip"@) && is_silent(lines, "x-forwarded-for"@)
                && #[trigger] tells(lines, "x-client-ip"@, ip) ==> client_ip(lines) == ip,
        is_silent(lines, "x-real-ip"@) && is_silent(lines, "x-forwarded-for"@) && is_silent(
            lines,
            "x-client-ip"@,
        ) ==> client_ip(lines).len() == 0,
{
    assert forall|name: Seq<char>, text: Seq<char>| #[trigger]
        tells(lines, name, text) <==> line_text(lines, name) == Some(text) by {
        law_first_line_of_a_name_counts(lines, name, text);
    }
    let nearest = line_text(lines, "x-real-ip"@);
    let forwarded = line_text(lines, "x-forwarded-for"@);
    let client = line_text(lines, "x-client-ip"@);
    if nearest is Some {
        assert(tells(lines, "x-real-ip"@, nearest->0));
    }
    if forwarded is Some {
        assert(tells(lines, "x-forwarded-for"@, forwarded->0));
    }
    if client is Some {
        assert(tells(lines, "x-client-ip"@, client->0));
    }
}

/// The identifier of a request is the one that its headers carry, and where they carry none a fresh
/// one, with no switch on. With the switch on, it is one that no header can carry.
pub proof fn law_request_keeps_its_identifier(
    id: Seq<char>,
    lines: Seq<HeaderLine>,
    overrides: AxumOverrides,
)
    requires
        is_chosen(id, lines, overrides),
    ensures
        !overrides.invalid_request_id && values_of(lines, "x-request-id"@).len() > 0 ==> forall|
            text: Seq<char>,
        | #[trigger]
            reads_as(values_of(lines, "x-request-id"@)[0], text) ==> id == text,
        !overrides.invalid_request_id && (values_of(lines, "x-request-id"@).len() == 0 || forall|
            text: Seq<char>,
        | !#[trigger]
            reads_as(values_of(lines, "x-request-id"@)[0], text)) ==> is_fresh(id) && is_uuid_text(
            id,
        ),
        overrides.invalid_request_id ==> !is_header_text(id),
{
    law_first_readable_value_is_the_id(lines);
    if values_of(lines, "x-request-id"@).len() > 0 {
        let value = values_of(lines, "x-request-id"@)[0];
        assert forall|text: Seq<char>| #[trigger]
            reads_as(value, text) <==> visible_text(value) == Some(text) by {
            law_value_is_read_byte_by_byte(value, text);
        }
        if visible_text(value) is Some {
            assert(reads_as(value, visible_text(value)->0));
        }
    }
    if overrides.invalid_request_id {
        lemma_unsendable();
    }
}

proof fn lemma_unsendable()
    ensures
        !is_header_text(UNSENDABLE_REQUEST_ID@),
{
    reveal_strlit("invalid\nrequest-id");
    let id = UNSENDABLE_REQUEST_ID@;
    assert(vstd::utf8::is_ascii_chars(id)) by {
        assert forall|i: int| 0 <= i < id.len() implies '\0' <= #[trigger] id[i] && id[i]
            <= '\u{7f}' by {}
    }
    vstd::utf8::is_ascii_chars_encode_utf8(id);
    assert(id[7] == '\n');
    assert(encode_utf8(id)[7] == 10);
}

/// A header says an identifier as it is where it can carry it, and says that it is invalid where it
/// cannot.
pub proof fn law_header_says_the_identifier(id: Seq<char>)
    ensures
        is_header_text(id) ==> header_id(id) == id,
        !is_header_text(id) ==> header_id(id) == "invalid-request-id"@,
        is_header_text(header_id(id)),
{
    lemma_invalid_request_id_is_visible();
    law_visible_text_is_read_back(INVALID_REQUEST_ID@);
}

/// A version is logged with the protocol and its number.
pub proof fn law_version_is_named(version: HttpVersion)
    ensures
        version == HttpVersion::Http09 ==> version_text(version) == "HTTP/0.9"@,
        version == HttpVersion::Http10 ==> version_text(version) == "HTTP/1.0"@,
        version == HttpVersion::Http11 ==> version_text(version) == "HTTP/1.1"@,
        version == HttpVersion::Http2 ==> version_text(version) == "HTTP/2.0"@,
        version == HttpVersion::Http3 ==> version_text(version) == "HTTP/3.0"@,
        version == HttpVersion::Other ==> version_text(version) == "HTTP"@,
{
}

/// Different versions have different names.
pub proof fn law_versions_are_told_apart(a: HttpVersion, b: HttpVersion)
    requires
        version_text(a) == version_text(b),
    ensures
        a == b,
{
    reveal_strlit("HTTP/0.9");
    reveal_strlit("HTTP/1.0");
    reveal_strlit("HTTP/1.1");
    reveal_strlit("HTTP/2.0");
    reveal_strlit("HTTP/3.0");
    reveal_strlit("HTTP");
    assert("HTTP/0.9"@.len() == 8 && "HTTP/0.9"@[5] == '0');
    assert("HTTP/1.0"@.len() == 8 && "HTTP/1.0"@[5] == '1' && "HTTP/1.0"@[7] == '0');
    assert("HTTP/1.1"@.len() == 8 && "HTTP/1.1"@[5] == '1' && "HTTP/1.1"@[7] == '1');
    assert("HTTP/2.0"@.len() == 8 && "HTTP/2.0"@[5] == '2');
    assert("HTTP/3.0"@.len() == 8 && "HTTP/3.0"@[5] == '3');
    assert("HTTP"@.len() == 4);
}

/// Whether a record says of an exchange, in the places where the schema wants it, what the exchange
/// was.
pub open spec fn tells_schema(
    record: Members,
    request_id: Seq<char>,
    e: AxumExchange<'_>,
    user: Seq<char>,
) -> bool {
    &&& lookup(record, seq!["http"@, "request"@, "method"@]) == Some(Json::Text(e.method@))
    &&& lookup(record, seq!["http"@, "request"@, "body"@, "content"@]) == Some(
        Json::Text(lossy_text(e.request_body@)),
    )
    &&& lookup(record, seq!["http"@, "request"@, "headers"@]) == Some(
        Json::Object(header_members(header_lines(*e.request_headers))),
    )
    &&& lookup(record, seq!["http"@, "version"@]) == Some(Json::Text(version_text(e.version)))
    &&& lookup(record, seq!["url"@, "full"@]) == Some(Json::Text(e.url@))
    &&& lookup(record, seq!["http"@, "request"@, "id"@]) == Some(Json::Text(request_id))
    &&& lookup(record, seq!["labels"@, "request_id"@]) == Some(Json::Text(request_id))
    &&& lookup(record, seq!["http"@, "response"@, "status_code"@]) == Some(
        Json::Number(Num::Unsigned(e.status as u64)),
    )
    &&& lookup(record, seq!["http"@, "response"@, "body"@, "content"@]) == Some(
        Json::Text(lossy_text(e.response_body@)),
    )
    &&& lookup(record, seq!["http"@, "response"@, "headers"@]) == Some(
        Json::Object(header_members(header_lines(*e.response_headers))),
    )
    &&& lookup(record, seq!["user"@, "name"@]) == Some(Json::Text(user))
    &&& lookup(record, seq!["client"@, "ip"@]) == (if e.client_ip@.len() > 0 {
        Some(Json::Text(e.client_ip@))
    } else {
        None
    })
}

/// The record of an exchange says what the exchange was in the places where the schema wants it
/// too.
pub proof fn law_schema_fields_tell_the_exchange(
    entry: LogEntry,
    request_id: Seq<char>,
    e: AxumExchange<'_>,
    latency: Latency,
    targets: Seq<Members>,
    user: Seq<char>,
    offset: i32,
    now: UtcInstant,
)
    requires
        logs_exchange(entry, request_id, e, latency, targets, user, offset, now),
    ensures
        tells_schema(members(entry.record), request_id, e, user),
{
    let m = axum_members(request_id, e, latency, targets, user, offset);
    lemma_axum_keys(request_id, e, latency, targets, user, offset);
    lemma_exchange_names();
    reveal_strlit("http");
    reveal_strlit("url");
    reveal_strlit("labels");
    reveal_strlit("user");
    reveal_strlit("client");
    assert("http"@[0] == 'h' && "url"@[0] == 'u' && "labels"@[0] == 'l' && "user"@[0] == 'u'
        && "client"@[0] == 'c');
    law_nothing_under_an_absent_name(m, seq!["http"@, "request"@, "method"@]);
    law_nothing_under_an_absent_name(m, seq!["http"@, "request"@, "body"@, "content"@]);
    law_nothing_under_an_absent_name(m, seq!["http"@, "request"@, "headers"@]);
    law_nothing_under_an_absent_name(m, seq!["http"@, "version"@]);
    law_nothing_under_an_absent_name(m, seq!["url"@, "full"@]);
    law_nothing_under_an_absent_name(m, seq!["http"@, "request"@, "id"@]);
    law_nothing_under_an_absent_name(m, seq!["labels"@, "request_id"@]);
    law_nothing_under_an_absent_name(m, seq!["http"@, "response"@, "status_code"@]);
    law_nothing_under_an_absent_name(m, seq!["http"@, "response"@, "body"@, "content"@]);
    law_nothing_under_an_absent_name(m, seq!["http"@, "response"@, "headers"@]);
    law_nothing_under_an_absent_name(m, seq!["user"@, "name"@]);
    law_nothing_under_an_absent_name(m, seq!["client"@, "ip"@]);
    law_record_describes_the_request(m, now);
    law_record_describes_the_response(m, now);
    law_record_labels_the_request(m, now);
}

/// The fields of an exchange are found again in its record.
pub(crate) proof fn lemma_exchange_fields_found(
    entry: LogEntry,
    request_id: Seq<char>,
    e: AxumExchange<'_>,
    latency: Latency,
    targets: Seq<Members>,
    user: Seq<char>,
    offset: i32,
    now: UtcInstant,
)
    requires
        logs_exchange(entry, request_id, e, latency, targets, user, offset, now),
    ensures
        is_entry(entry, logged_part(members(entry.record)), now),
{
    let m = axum_members(request_id, e, latency, targets, user, offset);
    lemma_axum_keys(request_id, e, latency, targets, user, offset);
    law_logged_fields_are_found_again(m, now);
}

/// The fields of an exchange tell the exchange before they are enriched.
pub proof fn law_fields_tell_the_exchange(
    request_id: Seq<char>,
    e: AxumExchange<'_>,
    latency: Latency,
    targets: Seq<Members>,
    user: Seq<char>,
    offset: i32,
)
    ensures
        tells_request(
            axum_members(request_id, e, latency, targets, user, offset),
            request_id,
            e,
        ),
        tells_response(
            axum_members(request_id, e, latency, targets, user, offset),
            e,
            latency,
            targets,
            user,
            offset,
        ),
{
    lemma_exchange_names();
    let lines = header_lines(*e.request_headers);
    lemma_header_told(lines, "user-agent"@);
    lemma_header_told(lines, "content-type"@);
    lemma_header_told(lines, "host"@);
}

} // verus!
