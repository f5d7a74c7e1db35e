//! Logging of gRPC calls.

use std::sync::Arc;

use vstd::prelude::*;
use vstd::utf8::encode_utf8;

use crate::client_log::{
    append_target, appended, appended_all, entries, law_first_thousand_calls_are_kept,
    read_client_log, target_array, MAX_TARGET_LOGS,
};
use crate::clock::{
    clock_gave, debug_latency, duration_text, instant_in, is_response_offset, latency_shown,
    reads_back, response_instant, response_secs, response_text, response_to_rfc3339, rfc3339_text,
    times_ok, times_ok_at, times_read_back, timestamp_text, Latency, Timestamp, UtcInstant,
};
use crate::ecs::{enriched, lookup};
use crate::ecs_laws::{
    law_enrichment_keeps_logged_fields, law_event_duration_is_the_latency,
    law_logged_fields_are_found_again, law_nothing_under_an_absent_name, law_request_is_named,
    logged_part,
};
use crate::generalkey::REQUEST_ID_HEADER;
use crate::headers::{
    first_value, holds_only, is_header_text, is_visible_text, law_text_that_is_read_is_visible,
    law_value_is_read_byte_by_byte, law_visible_text_is_read_back, names_in, reads_as, values_of,
    visible_text, HeaderLine, MAX_HEADER_NAMES,
};
use crate::identity::{
    fresh_request_id, is_fresh, is_told_user, is_uuid_text, law_uuid_text_is_visible,
};
use crate::json::{
    array_value, bool_value, clone_fields, debug_error, describes_error, display_value, into_object,
    json, json_display, json_string, max_depth, member, members, new_fields, object_value, opt_str,
    opt_string, parsed_json, portable, says, set_field, string_value, text_value, to_json_string,
    Json, LogFields, Members, Num,
};
use crate::logger::{is_entry, shows_one_time, surroundings, LogEntry, Logger, Surroundings};
use crate::metadata::{
    chars_of, is_metadata_value, is_name_char, law_plain_name_is_a_key, metadata_get, metadata_key,
    metadata_key_of, metadata_lines, metadata_members, metadata_to_map, metadata_try_insert,
};
use crate::model::{TargetRequest, TargetResponse};
use crate::request_id::{
    carried_id, law_first_readable_value_is_the_id, lemma_request_id_name, REQUEST_ID_NAME,
};
use crate::text::{concat2, concat3, lowercase, or_empty, text_or_empty};
use crate::util::{build_target_log_fields, target_members};

verus! {

/// What is known of a call while it is handled.
pub struct GrpcContext {
    pub request_id: String,
    pub logger: Arc<Logger>,
    pub client_log: Vec<LogFields>,
}

impl GrpcContext {
    /// A context without calls to other services.
    pub fn new(request_id: String, logger: Arc<Logger>) -> (r: Self)
        ensures
            r.request_id == request_id,
            r.logger == logger,
            r.client_log@.len() == 0,
    {
        GrpcContext { request_id, logger, client_log: Vec::new() }
    }

    /// The call's identifier.
    pub fn request_id(&self) -> (r: &str)
        ensures
            r@ == self.request_id@,
    {
        self.request_id.as_str()
    }

    /// The logger.
    pub fn logger(&self) -> (r: Arc<Logger>)
        ensures
            r == self.logger,
    {
        self.logger.clone()
    }
}

/// Switches that make rare events happen.
#[derive(Clone, Copy, Debug, PartialEq, Eq, Structural)]
pub struct GrpcOverrides {
    pub latency_overflow: bool,
    pub invalid_request_id_key: bool,
    pub invalid_header_key: bool,
    pub metadata_to_str_error: bool,
}

impl GrpcOverrides {
    /// No switch is on.
    pub fn new() -> (r: Self)
        ensures
            r == (GrpcOverrides {
                latency_overflow: false,
                invalid_request_id_key: false,
                invalid_header_key: false,
                metadata_to_str_error: false,
            }),
    {
        GrpcOverrides {
            latency_overflow: false,
            invalid_request_id_key: false,
            invalid_header_key: false,
            metadata_to_str_error: false,
        }
    }
}

/// Makes every latency too large for chrono.
pub fn coverage_force_grpc_latency_overflow(overrides: &mut GrpcOverrides, enabled: bool)
    ensures
        *final(overrides) == (GrpcOverrides { latency_overflow: enabled, ..*old(overrides) }),
{
    overrides.latency_overflow = enabled;
}

/// Makes the bytes of the identifier's key invalid.
pub fn coverage_force_invalid_request_id_key(overrides: &mut GrpcOverrides, enabled: bool)
    ensures
        *final(overrides) == (GrpcOverrides { invalid_request_id_key: enabled, ..*old(overrides) }),
{
    overrides.invalid_request_id_key = enabled;
}

/// Makes the bytes of the identifier's header invalid.
pub fn coverage_force_invalid_header_key(overrides: &mut GrpcOverrides, enabled: bool)
    ensures
        *final(overrides) == (GrpcOverrides { invalid_header_key: enabled, ..*old(overrides) }),
{
    overrides.invalid_header_key = enabled;
}

/// Makes every text of metadata unreadable.
pub fn coverage_force_metadata_to_str_error(overrides: &mut GrpcOverrides, enabled: bool)
    ensures
        *final(overrides) == (GrpcOverrides { metadata_to_str_error: enabled, ..*old(overrides) }),
{
    overrides.metadata_to_str_error = enabled;
}

/// Bytes that are no metadata key: `invalid`, and a byte beyond ASCII.
pub const INVALID_KEY: [u8; 8] = [105, 110, 118, 97, 108, 105, 100, 255];

proof fn lemma_name_bytes()
    ensures
        metadata_key_of(encode_utf8(REQUEST_ID_NAME@)) == Some(REQUEST_ID_NAME@),
{
    lemma_request_id_name();
    let name = REQUEST_ID_NAME@;
    assert(vstd::utf8::is_ascii_chars(name));
    vstd::utf8::is_ascii_chars_encode_utf8(name);
    assert(chars_of(encode_utf8(name)) =~= name);
    law_plain_name_is_a_key(encode_utf8(name));
}

proof fn lemma_invalid_key()
    ensures
        metadata_key_of(INVALID_KEY@) is None,
{
    assert(INVALID_KEY@[7] == 255);
    assert(!is_name_char(INVALID_KEY@[7] as char));
}

/// The metadata key of the identifier. Where the bytes for it are invalid, the name stands in.
pub fn request_id_metadata_key(overrides: &GrpcOverrides) -> (r: String)
    ensures
        r@ == REQUEST_ID_NAME@,
{
    proof {
        lemma_request_id_name();
        lemma_name_bytes();
        lemma_invalid_key();
    }
    let made = if overrides.invalid_request_id_key {
        metadata_key(&INVALID_KEY)
    } else {
        metadata_key(REQUEST_ID_NAME.as_bytes())
    };
    match made {
        Some(key) => key,
        None => REQUEST_ID_NAME.to_owned(),
    }
}

/// The identifier that metadata carry; empty where they carry none that is visible ASCII.
pub fn fetch_request_id(md: &tonic::metadata::MetadataMap, overrides: &GrpcOverrides) -> (r: String)
    ensures
        r@ == text_or_empty(carried_id(metadata_lines(*md))),
{
    proof {
        lemma_request_id_name();
    }
    let key = request_id_metadata_key(overrides);
    match metadata_get(md, key.as_str()) {
        Some(text) => or_empty(text),
        None => String::new(),
    }
}

/// Puts an identifier into metadata, in place of any that they carry, and says whether they had
/// room. Metadata that have no room for another key stay as they are; those with few keys have
/// room. An identifier that metadata cannot carry changes nothing.
pub fn set_request_id(
    md: &mut tonic::metadata::MetadataMap,
    request_id: &str,
    overrides: &GrpcOverrides,
) -> (r: bool)
    ensures
        names_in(metadata_lines(*old(md))).len() <= MAX_HEADER_NAMES ==> r,
        !is_header_text(request_id@) ==> r && *final(md) == *old(md),
        r && is_header_text(request_id@) ==> holds_only(
            metadata_lines(*final(md)),
            metadata_lines(*old(md)),
            REQUEST_ID_NAME@,
            encode_utf8(request_id@),
        ),
        r && is_visible_text(request_id@) ==> carried_id(metadata_lines(*final(md))) == Some(
            request_id@,
        ),
        !r ==> metadata_lines(*final(md)) == metadata_lines(*old(md)),
{
    proof {
        lemma_request_id_name();
        lemma_name_bytes();
        if is_visible_text(request_id@) {
            law_visible_text_is_read_back(request_id@);
        }
    }
    if !is_metadata_value(request_id) {
        return true;
    }
    let ghost before = metadata_lines(*md);
    let key = request_id_metadata_key(overrides);
    if !metadata_try_insert(md, key.as_str(), request_id) {
        return false;
    }
    let header = lowercase(REQUEST_ID_HEADER);
    let made = if overrides.invalid_header_key {
        metadata_key(&INVALID_KEY)
    } else {
        metadata_key(header.as_str().as_bytes())
    };
    proof {
        lemma_invalid_key();
    }
    if let Some(header_key) = made {
        // The same key with the same value: metadata without room for it already hold it.
        let _ = metadata_try_insert(md, header_key.as_str(), request_id);
    }
    proof {
        if is_visible_text(request_id@) {
            law_set_id_is_carried(before, metadata_lines(*md), request_id@);
        }
    }
    true
}

/// An identifier that can be read back is read back from the metadata into which it was put.
pub proof fn law_set_id_is_carried(
    before: Seq<HeaderLine>,
    after: Seq<HeaderLine>,
    request_id: Seq<char>,
)
    requires
        is_visible_text(request_id),
        holds_only(after, before, REQUEST_ID_NAME@, encode_utf8(request_id)),
    ensures
        carried_id(after) == Some(request_id),
{
    law_visible_text_is_read_back(request_id);
}

/// The response to a call carries the call's identifier, and the one that the call carried where
/// it carried one that is not empty.
pub proof fn law_response_carries_the_call_id(
    id: Seq<char>,
    request: Seq<HeaderLine>,
    before: Seq<HeaderLine>,
    response: Seq<HeaderLine>,
)
    requires
        is_call_id(id, request),
        holds_only(response, before, REQUEST_ID_NAME@, encode_utf8(id)),
    ensures
        carried_id(response) == Some(id),
        carried_id(request) is Some && carried_id(request)->0.len() > 0 ==> carried_id(response)
            == carried_id(request),
{
    law_call_id_is_visible(id, request);
    law_set_id_is_carried(before, response, id);
}

/// The interceptor that gives every call an identifier and a context.
pub struct WelogGrpcInterceptor;

/// Whether a text is the identifier of a call with this metadata: the one that they carry, and
/// some fresh one where they carry none or an empty one.
pub open spec fn is_call_id(id: Seq<char>, lines: Seq<HeaderLine>) -> bool {
    match carried_id(lines) {
        Some(carried) => if carried.len() > 0 {
            id == carried
        } else {
            is_fresh(id) && is_uuid_text(id)
        },
        None => is_fresh(id) && is_uuid_text(id),
    }
}

/// The identifier of a call can be read back from metadata, and is not empty.
pub proof fn law_call_id_is_visible(id: Seq<char>, lines: Seq<HeaderLine>)
    requires
        is_call_id(id, lines),
    ensures
        is_visible_text(id),
        is_header_text(id),
        id.len() > 0,
{
    if carried_id(lines) is Some && carried_id(lines)->0.len() > 0 {
        law_text_that_is_read_is_visible(first_value(lines, REQUEST_ID_NAME@)->0);
    } else {
        law_uuid_text_is_visible(id);
    }
    law_visible_text_is_read_back(id);
}

impl WelogGrpcInterceptor {
    /// Takes a call in: its metadata carry its identifier from then on, and the context knows it.
    /// Nothing is done where the metadata have no room for the identifier.
    pub fn intercept(
        &self,
        md: &mut tonic::metadata::MetadataMap,
        overrides: &GrpcOverrides,
        logger: Arc<Logger>,
    ) -> (r: Option<GrpcContext>)
        ensures
            names_in(metadata_lines(*old(md))).len() <= MAX_HEADER_NAMES ==> r is Some,
            r is None ==> metadata_lines(*final(md)) == metadata_lines(*old(md)),
            r matches Some(ctx) ==> {
                &&& ctx.logger == logger
                &&& ctx.client_log@.len() == 0
                &&& is_call_id(ctx.request_id@, metadata_lines(*old(md)))
                &&& holds_only(
                    metadata_lines(*final(md)),
                    metadata_lines(*old(md)),
                    REQUEST_ID_NAME@,
                    encode_utf8(ctx.request_id@),
                )
                &&& carried_id(metadata_lines(*final(md))) == Some(ctx.request_id@)
            },
    {
        let existing = fetch_request_id(md, overrides);
        let request_id = if existing.as_str().is_empty() {
            fresh_request_id()
        } else {
            existing
        };
        proof {
            law_call_id_is_visible(request_id@, metadata_lines(*md));
        }
        if !set_request_id(md, request_id.as_str(), overrides) {
            return None;
        }
        Some(GrpcContext::new(request_id, logger))
    }
}

/// The context of a call that is to be logged.
pub enum ContextChoice<T> {
    /// The one that an interceptor made.
    Existing(T),
    /// A new one.
    Fresh(GrpcContext),
}

/// The context that a call has, and a new one with the identifier that its metadata carry where it
/// has none.
pub fn ensure_context<T>(
    existing: Option<T>,
    md: &tonic::metadata::MetadataMap,
    overrides: &GrpcOverrides,
    logger: Arc<Logger>,
) -> (r: ContextChoice<T>)
    ensures
        match existing {
            Some(ctx) => r == ContextChoice::Existing(ctx),
            None => r matches ContextChoice::Fresh(ctx) && ctx.request_id@ == text_or_empty(
                carried_id(metadata_lines(*md)),
            ) && ctx.logger == logger && ctx.client_log@.len() == 0,
        },
{
    match existing {
        Some(ctx) => ContextChoice::Existing(ctx),
        None => ContextChoice::Fresh(GrpcContext::new(fetch_request_id(md, overrides), logger)),
    }
}

/// Puts the call's identifier into the metadata of its response, in place of any that they carry,
/// and says whether they had room. Nothing is done where they had none.
pub fn answer_call(
    md: &mut tonic::metadata::MetadataMap,
    ctx: &GrpcContext,
    overrides: &GrpcOverrides,
) -> (r: bool)
    ensures
        names_in(metadata_lines(*old(md))).len() <= MAX_HEADER_NAMES ==> r,
        !is_header_text(ctx.request_id@) ==> r && *final(md) == *old(md),
        r && is_header_text(ctx.request_id@) ==> holds_only(
            metadata_lines(*final(md)),
            metadata_lines(*old(md)),
            REQUEST_ID_NAME@,
            encode_utf8(ctx.request_id@),
        ),
        r && is_visible_text(ctx.request_id@) ==> carried_id(metadata_lines(*final(md))) == Some(
            ctx.request_id@,
        ),
        !r ==> metadata_lines(*final(md)) == metadata_lines(*old(md)),
{
    set_request_id(md, ctx.request_id.as_str(), overrides)
}

/// What is logged of a message: its fields, and its text.
pub open spec fn is_payload(r: (LogFields, String), value: Json) -> bool {
    match value {
        Json::Object(m) => members(r.0) == m && r.1@ == text_or_empty(json_string(value)),
        _ => members(r.0) == Members::empty() && r.1@ == json_display(value),
    }
}

/// What is logged of a message: the members of an object and its JSON text, no members and the
/// JSON text of any other value, and no members and the error's text where the message could not
/// be turned into a value.
pub fn describe_payload(result: Result<serde_json::Value, String>) -> (r: (LogFields, String))
    ensures
        match result {
            Ok(value) => is_payload(r, json(value)),
            Err(text) => members(r.0) == Members::empty() && r.1@ == text@,
        },
        result matches Ok(value) ==> (json(value) is Object && portable(json(value), max_depth())
            ==> parsed_json(encode_utf8(r.1@)) == Some(json(value))),
{
    match result {
        Ok(value) => match into_object(value) {
            Ok(obj) => {
                let text = or_empty(to_json_string(&obj));
                (obj, text)
            },
            Err(other) => {
                let text = display_value(&other);
                (new_fields(), text)
            },
        },
        Err(text) => (new_fields(), text),
    }
}

/// What is logged of a message that serde_json was asked to turn into a value. The text for an
/// error is how serde_json describes it, and is not empty.
pub fn serialize_value_result(result: Result<serde_json::Value, serde_json::Error>) -> (r: (
    LogFields,
    String,
))
    ensures
        match result {
            Ok(value) => is_payload(r, json(value)),
            Err(err) => members(r.0) == Members::empty() && r.1@.len() > 0 && describes_error(
                r.1@,
                err,
            ),
        },
{
    match result {
        Ok(value) => describe_payload(Ok(value)),
        Err(err) => describe_payload(Err(debug_error(&err))),
    }
}

/// How a call ended.
#[derive(Clone, Copy, Debug, PartialEq, Eq, Structural)]
pub enum GrpcCode {
    Success,
    Cancelled,
    Unknown,
    InvalidArgument,
    DeadlineExceeded,
    NotFound,
    AlreadyExists,
    PermissionDenied,
    ResourceExhausted,
    FailedPrecondition,
    Aborted,
    OutOfRange,
    Unimplemented,
    Internal,
    Unavailable,
    DataLoss,
    Unauthenticated,
}

/// The name of a code in logs.
pub open spec fn code_text(code: GrpcCode) -> Seq<char> {
    match code {
        GrpcCode::Success => "OK"@,
        GrpcCode::Cancelled => "CANCELLED"@,
        GrpcCode::Unknown => "UNKNOWN"@,
        GrpcCode::InvalidArgument => "INVALIDARGUMENT"@,
        GrpcCode::DeadlineExceeded => "DEADLINEEXCEEDED"@,
        GrpcCode::NotFound => "NOTFOUND"@,
        GrpcCode::AlreadyExists => "ALREADYEXISTS"@,
        GrpcCode::PermissionDenied => "PERMISSIONDENIED"@,
        GrpcCode::ResourceExhausted => "RESOURCEEXHAUSTED"@,
        GrpcCode::FailedPrecondition => "FAILEDPRECONDITION"@,
        GrpcCode::Aborted => "ABORTED"@,
        GrpcCode::OutOfRange => "OUTOFRANGE"@,
        GrpcCode::Unimplemented => "UNIMPLEMENTED"@,
        GrpcCode::Internal => "INTERNAL"@,
        GrpcCode::Unavailable => "UNAVAILABLE"@,
        GrpcCode::DataLoss => "DATALOSS"@,
        GrpcCode::Unauthenticated => "UNAUTHENTICATED"@,
    }
}

/// The name of a code in logs.
pub fn code_to_string(code: GrpcCode) -> (r: String)
    ensures
        r@ == code_text(code),
{
    let name = match code {
        GrpcCode::Success => "OK",
        GrpcCode::Cancelled => "CANCELLED",
        GrpcCode::Unknown => "UNKNOWN",
        GrpcCode::InvalidArgument => "INVALIDARGUMENT",
        GrpcCode::DeadlineExceeded => "DEADLINEEXCEEDED",
        GrpcCode::NotFound => "NOTFOUND",
        GrpcCode::AlreadyExists => "ALREADYEXISTS",
        GrpcCode::PermissionDenied => "PERMISSIONDENIED",
        GrpcCode::ResourceExhausted => "RESOURCEEXHAUSTED",
        GrpcCode::FailedPrecondition => "FAILEDPRECONDITION",
        GrpcCode::Aborted => "ABORTED",
        GrpcCode::OutOfRange => "OUTOFRANGE",
        GrpcCode::Unimplemented => "UNIMPLEMENTED",
        GrpcCode::Internal => "INTERNAL",
        GrpcCode::Unavailable => "UNAVAILABLE",
        GrpcCode::DataLoss => "DATALOSS",
        GrpcCode::Unauthenticated => "UNAUTHENTICATED",
    };
    name.to_owned()
}

/// The name of the method that is called.
pub open spec fn method_text(method: Option<(Seq<char>, Seq<char>)>) -> Seq<char> {
    match method {
        Some((service, name)) => "/"@ + service + "/"@ + name,
        None => "unknown"@,
    }
}

/// The name of the method that is called, from its service and its own name; `unknown` where they
/// are not known.
pub fn grpc_method(method: Option<(&str, &str)>) -> (r: String)
    ensures
        r@ == method_text(
            (match method {
                Some((service, name)) => Some((service@, name@)),
                None => None,
            }),
        ),
{
    match method {
        Some((service, name)) => {
            let front = concat3("/", service, "/");
            concat2(front.as_str(), name)
        },
        None => "unknown".to_owned(),
    }
}

/// The address of the caller; empty where it is not known.
pub fn peer_address(remote: Option<String>) -> (r: String)
    ensures
        r@ == text_or_empty(opt_string(remote)),
{
    or_empty(remote)
}

/// A call and how it ended.
pub struct GrpcCall<'a> {
    pub method: &'a str,
    pub metadata: &'a tonic::metadata::MetadataMap,
    pub peer: &'a str,
    pub code: GrpcCode,
    pub error: Option<&'a str>,
    pub request_time: Timestamp,
    pub latency: Latency,
    pub request_body: &'a LogFields,
    pub request_body_string: &'a str,
}

/// The latency that is logged: too large for chrono where that is switched on.
pub open spec fn logged_latency(overrides: GrpcOverrides, latency: Latency) -> Latency {
    if overrides.latency_overflow {
        Latency { secs: u64::MAX, nanos: 0 }
    } else {
        latency
    }
}

/// The latency that is logged.
fn observed_latency(overrides: &GrpcOverrides, latency: Latency) -> (r: Latency)
    ensures
        r == logged_latency(*overrides, latency),
{
    if overrides.latency_overflow {
        Latency { secs: u64::MAX, nanos: 0 }
    } else {
        latency
    }
}

/// While the switch for the latency is on, every call is logged with a latency that chrono cannot
/// represent, whatever the other switches say, so that its response is shown at the request's time;
/// while it is off, with the latency that it had.
pub proof fn law_grpc_latency_switch(
    overrides: GrpcOverrides,
    request: Timestamp,
    latency: Latency,
    offset: i32,
)
    ensures
        !overrides.latency_overflow ==> logged_latency(overrides, latency) == latency,
        overrides.latency_overflow ==> {
            let logged = logged_latency(overrides, latency);
            &&& logged.secs == u64::MAX && logged.nanos == 0
            &&& !logged.fits()
            &&& is_response_offset(request, logged, offset) ==> response_text(
                request.instant,
                logged,
                offset,
            ) == timestamp_text(request)
        },
{
}

/// The log fields that unary and streaming calls share.
pub open spec fn call_members(
    overrides: GrpcOverrides,
    request_id: Seq<char>,
    call: GrpcCall<'_>,
    targets: Seq<Members>,
    user: Seq<char>,
    offset: i32,
) -> Members {
    let latency = logged_latency(overrides, call.latency);
    map![
        "grpcMethod"@ => Json::Text(call.method@),
        "grpcRequest"@ => Json::Object(members(*call.request_body)),
        "grpcRequestString"@ => Json::Text(call.request_body_string@),
        "grpcRequestMeta"@ => Json::Object(
            metadata_members(metadata_lines(*call.metadata), overrides.metadata_to_str_error),
        ),
        "grpcPeer"@ => Json::Text(call.peer@),
        "grpcStatusCode"@ => Json::Text(code_text(call.code)),
        "grpcError"@ => Json::Text(text_or_empty(opt_str(call.error))),
        "requestId"@ => Json::Text(request_id),
        "requestTimestamp"@ => Json::Text(timestamp_text(call.request_time)),
        "responseTimestamp"@ => Json::Text(
            response_text(call.request_time.instant, latency, offset),
        ),
        "responseLatency"@ => Json::Text(duration_text(latency.secs, latency.nanos)),
        "responseUser"@ => Json::Text(user),
        "target"@ => target_array(targets),
    ]
}

/// The log fields of a unary call: those that all calls have, and those of its response.
pub open spec fn unary_members(
    m: Members,
    response_body: Members,
    response_string: Seq<char>,
) -> Members {
    m.insert("grpcResponse"@, Json::Object(response_body)).insert(
        "grpcResponseString"@,
        Json::Text(response_string),
    )
}

/// The log fields of a streaming call: those that all calls have, and which sides stream.
pub open spec fn stream_members(
    m: Members,
    is_client_stream: bool,
    is_server_stream: bool,
) -> Members {
    m.insert("grpcIsClientStream"@, Json::Bool(is_client_stream)).insert(
        "grpcIsServerStream"@,
        Json::Bool(is_server_stream),
    )
}

/// The log fields that unary and streaming calls share. The context's calls to other services are
/// taken out.
fn call_fields_at(
    ctx: &mut GrpcContext,
    overrides: &GrpcOverrides,
    call: &GrpcCall<'_>,
    user: String,
    offset: i32,
) -> (r: LogFields)
    requires
        times_ok_at(call.request_time, logged_latency(*overrides, call.latency), offset),
    ensures
        members(r) == call_members(
            *overrides,
            old(ctx).request_id@,
            *call,
            entries(old(ctx).client_log@),
            user@,
            offset,
        ),
        final(ctx).request_id == old(ctx).request_id,
        final(ctx).logger == old(ctx).logger,
        final(ctx).client_log@.len() == 0,
        reads_back(
            call.request_time.instant.secs as int,
            call.request_time.offset as int,
        ) ==> instant_in(timestamp_text(call.request_time)) == Some(call.request_time.instant),
        reads_back(
            response_secs(call.request_time.instant, logged_latency(*overrides, call.latency)),
            offset as int,
        ) ==> instant_in(
            response_text(
                call.request_time.instant,
                logged_latency(*overrides, call.latency),
                offset,
            ),
        ) == Some(
            response_instant(call.request_time.instant, logged_latency(*overrides, call.latency)),
        ),
{
    let latency = observed_latency(overrides, call.latency);
    let request_timestamp = call.request_time.to_rfc3339();
    let response_timestamp = response_to_rfc3339(call.request_time, latency, offset);
    let targets = read_client_log(&mut ctx.client_log);
    let error = match call.error {
        Some(text) => text_value(text),
        None => string_value(String::new()),
    };
    let metadata = metadata_to_map(call.metadata, overrides.metadata_to_str_error);
    let mut fields = new_fields();
    set_field(&mut fields, "grpcMethod", text_value(call.method));
    set_field(&mut fields, "grpcRequest", object_value(clone_fields(call.request_body)));
    set_field(&mut fields, "grpcRequestString", text_value(call.request_body_string));
    set_field(&mut fields, "grpcRequestMeta", object_value(metadata));
    set_field(&mut fields, "grpcPeer", text_value(call.peer));
    set_field(&mut fields, "grpcStatusCode", string_value(code_to_string(call.code)));
    set_field(&mut fields, "grpcError", error);
    set_field(&mut fields, "requestId", text_value(ctx.request_id.as_str()));
    set_field(&mut fields, "requestTimestamp", string_value(request_timestamp));
    set_field(&mut fields, "responseTimestamp", string_value(response_timestamp));
    set_field(&mut fields, "responseLatency", string_value(debug_latency(latency)));
    set_field(&mut fields, "responseUser", string_value(user));
    set_field(&mut fields, "target", array_value(targets));
    fields
}

proof fn lemma_call_keys(
    overrides: GrpcOverrides,
    request_id: Seq<char>,
    call: GrpcCall<'_>,
    targets: Seq<Members>,
    user: Seq<char>,
    offset: i32,
)
    ensures
        forall|key: Seq<char>| #[trigger]
            call_members(overrides, request_id, call, targets, user, offset).contains_key(key)
                ==> key.len() > 0 && (key[0] == 'g' || key[0] == 'r' || key[0] == 't'),
{
    reveal_strlit("grpcMethod");
    reveal_strlit("grpcRequest");
    reveal_strlit("grpcRequestString");
    reveal_strlit("grpcRequestMeta");
    reveal_strlit("grpcPeer");
    reveal_strlit("grpcStatusCode");
    reveal_strlit("grpcError");
    reveal_strlit("requestId");
    reveal_strlit("requestTimestamp");
    reveal_strlit("responseTimestamp");
    reveal_strlit("responseLatency");
    reveal_strlit("responseUser");
    reveal_strlit("target");
}

/// Whether log fields have what every log of a call has, and nothing in the places where the
/// schema wants the duration and the identifier.
spec fn is_call_log(
    m: Members,
    overrides: GrpcOverrides,
    request_id: Seq<char>,
    call: GrpcCall<'_>,
    targets: Seq<Members>,
    offset: i32,
) -> bool {
    &&& !m.contains_key("event"@)
    &&& !m.contains_key("http"@)
    &&& !m.contains_key("labels"@)
    &&& member(m, "requestId"@) == Some(Json::Text(request_id))
    &&& member(m, "requestTimestamp"@) == Some(Json::Text(timestamp_text(call.request_time)))
    &&& member(m, "responseTimestamp"@) == Some(
        Json::Text(
            response_text(
                call.request_time.instant,
                logged_latency(overrides, call.latency),
                offset,
            ),
        ),
    )
    &&& member(m, "target"@) == Some(target_array(targets))
}

proof fn lemma_call_members(
    overrides: GrpcOverrides,
    request_id: Seq<char>,
    call: GrpcCall<'_>,
    targets: Seq<Members>,
    user: Seq<char>,
    offset: i32,
)
    ensures
        is_call_log(
            call_members(overrides, request_id, call, targets, user, offset),
            overrides,
            request_id,
            call,
            targets,
            offset,
        ),
{
    let m = call_members(overrides, request_id, call, targets, user, offset);
    assert(!m.contains_key("event"@) && !m.contains_key("http"@) && !m.contains_key("labels"@)) by {
        lemma_call_keys(overrides, request_id, call, targets, user, offset);
        reveal_strlit("event");
        assert("event"@[0] == 'e');
        reveal_strlit("http");
        assert("http"@[0] == 'h');
        reveal_strlit("labels");
        assert("labels"@[0] == 'l');
    }
    reveal_strlit("requestId");
    assert("requestId"@.len() == 9);
    reveal_strlit("requestTimestamp");
    assert("requestTimestamp"@.len() == 16);
    reveal_strlit("responseTimestamp");
    assert("responseTimestamp"@.len() == 17);
    reveal_strlit("responseLatency");
    assert("responseLatency"@.len() == 15);
    reveal_strlit("responseUser");
    assert("responseUser"@.len() == 12);
    reveal_strlit("target");
    assert("target"@.len() == 6);
}

proof fn lemma_extra_field(
    m: Members,
    overrides: GrpcOverrides,
    request_id: Seq<char>,
    call: GrpcCall<'_>,
    targets: Seq<Members>,
    offset: i32,
    key: Seq<char>,
    value: Json,
)
    requires
        is_call_log(m, overrides, request_id, call, targets, offset),
        key.len() > 0,
        key[0] == 'g',
    ensures
        is_call_log(m.insert(key, value), overrides, request_id, call, targets, offset),
{
    reveal_strlit("event");
    assert("event"@[0] == 'e');
    reveal_strlit("http");
    assert("http"@[0] == 'h');
    reveal_strlit("labels");
    assert("labels"@[0] == 'l');
    reveal_strlit("requestId");
    assert("requestId"@[0] == 'r');
    reveal_strlit("requestTimestamp");
    assert("requestTimestamp"@[0] == 'r');
    reveal_strlit("responseTimestamp");
    assert("responseTimestamp"@[0] == 'r');
    reveal_strlit("target");
    assert("target"@[0] == 't');
}

proof fn lemma_unary_log(
    overrides: GrpcOverrides,
    request_id: Seq<char>,
    call: GrpcCall<'_>,
    response_body: Members,
    response_string: Seq<char>,
    targets: Seq<Members>,
    user: Seq<char>,
    offset: i32,
)
    ensures
        is_call_log(
            unary_members(
                call_members(overrides, request_id, call, targets, user, offset),
                response_body,
                response_string,
            ),
            overrides,
            request_id,
            call,
            targets,
            offset,
        ),
{
    let m = call_members(overrides, request_id, call, targets, user, offset);
    let body = Json::Object(response_body);
    lemma_call_members(overrides, request_id, call, targets, user, offset);
    reveal_strlit("grpcResponse");
    lemma_extra_field(
        m,
        overrides,
        request_id,
        call,
        targets,
        offset,
        "grpcResponse"@,
        body,
    );
    reveal_strlit("grpcResponseString");
    lemma_extra_field(
        m.insert("grpcResponse"@, body),
        overrides,
        request_id,
        call,
        targets,
        offset,
        "grpcResponseString"@,
        Json::Text(response_string),
    );
}

proof fn lemma_stream_log(
    overrides: GrpcOverrides,
    request_id: Seq<char>,
    call: GrpcCall<'_>,
    is_client_stream: bool,
    is_server_stream: bool,
    targets: Seq<Members>,
    user: Seq<char>,
    offset: i32,
)
    ensures
        is_call_log(
            stream_members(
                call_members(overrides, request_id, call, targets, user, offset),
                is_client_stream,
                is_server_stream,
            ),
            overrides,
            request_id,
            call,
            targets,
            offset,
        ),
{
    let m = call_members(overrides, request_id, call, targets, user, offset);
    lemma_call_members(overrides, request_id, call, targets, user, offset);
    reveal_strlit("grpcIsClientStream");
    lemma_extra_field(
        m,
        overrides,
        request_id,
        call,
        targets,
        offset,
        "grpcIsClientStream"@,
        Json::Bool(is_client_stream),
    );
    reveal_strlit("grpcIsServerStream");
    lemma_extra_field(
        m.insert("grpcIsClientStream"@, Json::Bool(is_client_stream)),
        overrides,
        request_id,
        call,
        targets,
        offset,
        "grpcIsServerStream"@,
        Json::Bool(is_server_stream),
    );
}

/// Whether a record names a call, in the log's own field and in each place where the schema wants
/// it, and holds the first thousand of the calls to other services that were made, in order.
pub open spec fn names_and_holds(
    record: Members,
    request_id: Seq<char>,
    calls: Seq<Members>,
) -> bool {
    &&& member(record, "requestId"@) == Some(Json::Text(request_id))
    &&& lookup(record, seq!["http"@, "request"@, "id"@]) == Some(Json::Text(request_id))
    &&& lookup(record, seq!["labels"@, "request_id"@]) == Some(Json::Text(request_id))
    &&& member(record, "target"@) == Some(
        target_array(
            if calls.len() <= MAX_TARGET_LOGS {
                calls
            } else {
                calls.take(MAX_TARGET_LOGS as int)
            },
        ),
    )
}

proof fn lemma_call_record(
    m: Members,
    overrides: GrpcOverrides,
    request_id: Seq<char>,
    call: GrpcCall<'_>,
    calls: Seq<Members>,
    offset: i32,
    now: UtcInstant,
)
    requires
        is_call_log(
            m,
            overrides,
            request_id,
            call,
            appended_all(Seq::empty(), calls),
            offset,
        ),
    ensures
        names_and_holds(enriched(m, now), request_id, calls),
{
    law_first_thousand_calls_are_kept(Seq::empty(), calls);
    assert(Seq::<Members>::empty() + calls =~= calls);
    law_request_is_named(m, now, request_id);
    reveal_strlit("requestId");
    law_enrichment_keeps_logged_fields(m, now, "requestId"@);
    reveal_strlit("target");
    law_enrichment_keeps_logged_fields(m, now, "target"@);
}

/// The record of a unary call names it in each place, and holds the calls to other services that
/// were kept for it.
pub proof fn law_unary_record(
    overrides: GrpcOverrides,
    request_id: Seq<char>,
    call: GrpcCall<'_>,
    response_body: Members,
    response_string: Seq<char>,
    calls: Seq<Members>,
    user: Seq<char>,
    offset: i32,
    now: UtcInstant,
)
    ensures
        names_and_holds(
            enriched(
                unary_members(
                    call_members(
                        overrides,
                        request_id,
                        call,
                        appended_all(Seq::empty(), calls),
                        user,
                        offset,
                    ),
                    response_body,
                    response_string,
                ),
                now,
            ),
            request_id,
            calls,
        ),
{
    let kept = appended_all(Seq::empty(), calls);
    let base = call_members(overrides, request_id, call, kept, user, offset);
    lemma_unary_log(
        overrides,
        request_id,
        call,
        response_body,
        response_string,
        kept,
        user,
        offset,
    );
    lemma_call_record(
        unary_members(base, response_body, response_string),
        overrides,
        request_id,
        call,
        calls,
        offset,
        now,
    );
}

/// The record of a streaming call names it in each place, and holds the calls to other services
/// that were kept for it.
pub proof fn law_stream_record(
    overrides: GrpcOverrides,
    request_id: Seq<char>,
    call: GrpcCall<'_>,
    is_client_stream: bool,
    is_server_stream: bool,
    calls: Seq<Members>,
    user: Seq<char>,
    offset: i32,
    now: UtcInstant,
)
    ensures
        names_and_holds(
            enriched(
                stream_members(
                    call_members(
                        overrides,
                        request_id,
                        call,
                        appended_all(Seq::empty(), calls),
                        user,
                        offset,
                    ),
                    is_client_stream,
                    is_server_stream,
                ),
                now,
            ),
            request_id,
            calls,
        ),
{
    let kept = appended_all(Seq::empty(), calls);
    let base = call_members(overrides, request_id, call, kept, user, offset);
    lemma_stream_log(
        overrides,
        request_id,
        call,
        is_client_stream,
        is_server_stream,
        kept,
        user,
        offset,
    );
    lemma_call_record(
        stream_members(base, is_client_stream, is_server_stream),
        overrides,
        request_id,
        call,
        calls,
        offset,
        now,
    );
}

proof fn lemma_logged_times(m: Members, now: UtcInstant)
    ensures
        member(enriched(m, now), "requestTimestamp"@) == member(m, "requestTimestamp"@),
        member(enriched(m, now), "responseTimestamp"@) == member(m, "responseTimestamp"@),
{
    reveal_strlit("requestTimestamp");
    law_enrichment_keeps_logged_fields(m, now, "requestTimestamp"@);
    reveal_strlit("responseTimestamp");
    law_enrichment_keeps_logged_fields(m, now, "responseTimestamp"@);
}

/// Whether a record states the latency of a call as the duration of the event, where it can.
pub open spec fn states_latency(
    record: Members,
    request: Timestamp,
    latency: Latency,
    offset: i32,
) -> bool {
    latency_shown(request, latency, offset) ==> lookup(record, seq!["event"@, "duration"@]) == Some(
        Json::Number(Num::Unsigned(latency.total_nanos() as u64)),
    )
}

/// Whether an entry is the log of a unary call, in these surroundings.
pub open spec fn logs_unary(
    entry: LogEntry,
    overrides: GrpcOverrides,
    request_id: Seq<char>,
    call: GrpcCall<'_>,
    response_body: Members,
    response_string: Seq<char>,
    targets: Seq<Members>,
    user: Seq<char>,
    offset: i32,
    now: UtcInstant,
) -> bool {
    &&& is_entry(
        entry,
        unary_members(
            call_members(overrides, request_id, call, targets, user, offset),
            response_body,
            response_string,
        ),
        now,
    )
    &&& states_latency(
        members(entry.record),
        call.request_time,
        logged_latency(overrides, call.latency),
        offset,
    )
}

/// Whether an entry is the log of a streaming call, in these surroundings.
pub open spec fn logs_stream(
    entry: LogEntry,
    overrides: GrpcOverrides,
    request_id: Seq<char>,
    call: GrpcCall<'_>,
    is_client_stream: bool,
    is_server_stream: bool,
    targets: Seq<Members>,
    user: Seq<char>,
    offset: i32,
    now: UtcInstant,
) -> bool {
    &&& is_entry(
        entry,
        stream_members(
            call_members(overrides, request_id, call, targets, user, offset),
            is_client_stream,
            is_server_stream,
        ),
        now,
    )
    &&& states_latency(
        members(entry.record),
        call.request_time,
        logged_latency(overrides, call.latency),
        offset,
    )
}

/// The log of a unary call, in given surroundings. The context's calls to other services are taken
/// out.
pub fn log_grpc_unary_at(
    ctx: &mut GrpcContext,
    overrides: &GrpcOverrides,
    call: &GrpcCall<'_>,
    response_body: LogFields,
    response_body_string: String,
    at: Surroundings,
) -> (r: LogEntry)
    requires
        times_ok_at(call.request_time, logged_latency(*overrides, call.latency), at.offset),
        at.now.ok(),
    ensures
        logs_unary(
            r,
            *overrides,
            old(ctx).request_id@,
            *call,
            members(response_body),
            response_body_string@,
            entries(old(ctx).client_log@),
            at.user@,
            at.offset,
            at.now,
        ),
        !logged_latency(*overrides, call.latency).fits() && at.offset == call.request_time.offset
            ==> shows_one_time(members(r.record)),
        final(ctx).request_id == old(ctx).request_id,
        final(ctx).logger == old(ctx).logger,
        final(ctx).client_log@.len() == 0,
{
    let ghost targets = entries(ctx.client_log@);
    let ghost user = at.user@;
    let mut fields = call_fields_at(ctx, overrides, call, at.user, at.offset);
    let ghost response = members(response_body);
    set_field(&mut fields, "grpcResponse", object_value(response_body));
    set_field(&mut fields, "grpcResponseString", text_value(response_body_string.as_str()));
    proof {
        let latency = logged_latency(*overrides, call.latency);
        lemma_unary_log(
            *overrides,
            ctx.request_id@,
            *call,
            response,
            response_body_string@,
            targets,
            user,
            at.offset,
        );
        law_nothing_under_an_absent_name(members(fields), seq!["event"@, "duration"@]);
        if latency_shown(call.request_time, latency, at.offset) {
            law_event_duration_is_the_latency(
                members(fields),
                at.now,
                call.request_time.instant,
                latency,
            );
        }
        lemma_logged_times(members(fields), at.now);
    }
    ctx.logger.log_at(fields, at.now)
}

/// The log of a streaming call, in given surroundings. The context's calls to other services are
/// taken out.
pub fn log_grpc_stream_at(
    ctx: &mut GrpcContext,
    overrides: &GrpcOverrides,
    call: &GrpcCall<'_>,
    is_client_stream: bool,
    is_server_stream: bool,
    at: Surroundings,
) -> (r: LogEntry)
    requires
        times_ok_at(call.request_time, logged_latency(*overrides, call.latency), at.offset),
        at.now.ok(),
    ensures
        logs_stream(
            r,
            *overrides,
            old(ctx).request_id@,
            *call,
            is_client_stream,
            is_server_stream,
            entries(old(ctx).client_log@),
            at.user@,
            at.offset,
            at.now,
        ),
        !logged_latency(*overrides, call.latency).fits() && at.offset == call.request_time.offset
            ==> shows_one_time(members(r.record)),
        final(ctx).request_id == old(ctx).request_id,
        final(ctx).logger == old(ctx).logger,
        final(ctx).client_log@.len() == 0,
{
    let ghost targets = entries(ctx.client_log@);
    let ghost user = at.user@;
    let mut fields = call_fields_at(ctx, overrides, call, at.user, at.offset);
    set_field(&mut fields, "grpcIsClientStream", bool_value(is_client_stream));
    set_field(&mut fields, "grpcIsServerStream", bool_value(is_server_stream));
    proof {
        let latency = logged_latency(*overrides, call.latency);
        lemma_stream_log(
            *overrides,
            ctx.request_id@,
            *call,
            is_client_stream,
            is_server_stream,
            targets,
            user,
            at.offset,
        );
        law_nothing_under_an_absent_name(members(fields), seq!["event"@, "duration"@]);
        if latency_shown(call.request_time, latency, at.offset) {
            law_event_duration_is_the_latency(
                members(fields),
                at.now,
                call.request_time.instant,
                latency,
            );
        }
        lemma_logged_times(members(fields), at.now);
    }
    ctx.logger.log_at(fields, at.now)
}

/// The log of a unary call. The context's calls to other services are taken out.
pub fn log_grpc_unary(
    ctx: &mut GrpcContext,
    overrides: &GrpcOverrides,
    call: &GrpcCall<'_>,
    response_body: LogFields,
    response_body_string: String,
) -> (r: LogEntry)
    requires
        times_ok(call.request_time, logged_latency(*overrides, call.latency)),
    ensures
        exists|user: Seq<char>, offset: i32, now: UtcInstant|
            is_response_offset(
                call.request_time,
                logged_latency(*overrides, call.latency),
                offset,
            ) && is_told_user(user) && clock_gave(now) && now.ok() && #[trigger] logs_unary(
                r,
                *overrides,
                old(ctx).request_id@,
                *call,
                members(response_body),
                response_body_string@,
                entries(old(ctx).client_log@),
                user,
                offset,
                now,
            ),
        !logged_latency(*overrides, call.latency).fits() ==> shows_one_time(members(r.record)),
        final(ctx).request_id == old(ctx).request_id,
        final(ctx).logger == old(ctx).logger,
        final(ctx).client_log@.len() == 0,
{
    let at = surroundings(call.request_time, observed_latency(overrides, call.latency));
    log_grpc_unary_at(ctx, overrides, call, response_body, response_body_string, at)
}

/// The log of a streaming call. The context's calls to other services are taken out.
pub fn log_grpc_stream(
    ctx: &mut GrpcContext,
    overrides: &GrpcOverrides,
    call: &GrpcCall<'_>,
    is_client_stream: bool,
    is_server_stream: bool,
) -> (r: LogEntry)
    requires
        times_ok(call.request_time, logged_latency(*overrides, call.latency)),
    ensures
        exists|user: Seq<char>, offset: i32, now: UtcInstant|
            is_response_offset(
                call.request_time,
                logged_latency(*overrides, call.latency),
                offset,
            ) && is_told_user(user) && clock_gave(now) && now.ok() && #[trigger] logs_stream(
                r,
                *overrides,
                old(ctx).request_id@,
                *call,
                is_client_stream,
                is_server_stream,
                entries(old(ctx).client_log@),
                user,
                offset,
                now,
            ),
        !logged_latency(*overrides, call.latency).fits() ==> shows_one_time(members(r.record)),
        final(ctx).request_id == old(ctx).request_id,
        final(ctx).logger == old(ctx).logger,
        final(ctx).client_log@.len() == 0,
{
    let at = surroundings(call.request_time, observed_latency(overrides, call.latency));
    log_grpc_stream_at(ctx, overrides, call, is_client_stream, is_server_stream, at)
}

/// A call before its handler ran.
#[derive(Clone, Copy)]
pub struct GrpcRequestInfo<'a> {
    pub method: &'a str,
    pub metadata: &'a tonic::metadata::MetadataMap,
    pub peer: &'a str,
    pub request_time: Timestamp,
    pub request_body: &'a LogFields,
    pub request_body_string: &'a str,
}

/// The status with which a handler refused a call.
#[derive(Clone, Copy, Debug)]
pub struct GrpcFailure<'a> {
    pub code: GrpcCode,
    pub message: &'a str,
}

/// A call and how it ended: well, or with the status of its handler.
pub open spec fn ended_call<'a>(
    info: GrpcRequestInfo<'a>,
    latency: Latency,
    failure: Option<GrpcFailure<'a>>,
) -> GrpcCall<'a> {
    GrpcCall {
        method: info.method,
        metadata: info.metadata,
        peer: info.peer,
        code: match failure {
            Some(f) => f.code,
            None => GrpcCode::Success,
        },
        error: match failure {
            Some(f) => Some(f.message),
            None => None,
        },
        request_time: info.request_time,
        latency,
        request_body: info.request_body,
        request_body_string: info.request_body_string,
    }
}

/// A call and how it ended.
fn end_call<'a>(
    info: &GrpcRequestInfo<'a>,
    latency: Latency,
    failure: Option<GrpcFailure<'a>>,
) -> (r: GrpcCall<'a>)
    ensures
        r == ended_call(*info, latency, failure),
{
    let (code, error) = match failure {
        Some(f) => (f.code, Some(f.message)),
        None => (GrpcCode::Success, None),
    };
    GrpcCall {
        method: info.method,
        metadata: info.metadata,
        peer: info.peer,
        code,
        error,
        request_time: info.request_time,
        latency,
        request_body: info.request_body,
        request_body_string: info.request_body_string,
    }
}

/// The status with which a handler refused a call, where it did.
pub open spec fn failure_in<'a>(outcome: Result<(LogFields, String), GrpcFailure<'a>>) -> Option<
    GrpcFailure<'a>,
> {
    match outcome {
        Ok(_) => None,
        Err(failure) => Some(failure),
    }
}

/// The members of the response; none where the handler refused the call.
pub open spec fn response_members_in(
    outcome: Result<(LogFields, String), GrpcFailure<'_>>,
) -> Members {
    match outcome {
        Ok(response) => members(response.0),
        Err(_) => Members::empty(),
    }
}

/// The text of the response; empty where the handler refused the call.
pub open spec fn response_string_in(
    outcome: Result<(LogFields, String), GrpcFailure<'_>>,
) -> Seq<char> {
    match outcome {
        Ok(response) => response.1@,
        Err(_) => Seq::empty(),
    }
}

/// The log of a unary call whose handler has run: with its response, and with the status and
/// without a response where the handler refused the call.
pub fn finish_unary<'a>(
    ctx: &mut GrpcContext,
    overrides: &GrpcOverrides,
    info: &GrpcRequestInfo<'a>,
    latency: Latency,
    outcome: Result<(LogFields, String), GrpcFailure<'a>>,
) -> (r: LogEntry)
    requires
        times_ok(info.request_time, logged_latency(*overrides, latency)),
    ensures
        exists|user: Seq<char>, offset: i32, now: UtcInstant|
            is_response_offset(
                info.request_time,
                logged_latency(*overrides, latency),
                offset,
            ) && is_told_user(user) && clock_gave(now) && now.ok() && #[trigger] logs_unary(
                r,
                *overrides,
                old(ctx).request_id@,
                ended_call(*info, latency, failure_in(outcome)),
                response_members_in(outcome),
                response_string_in(outcome),
                entries(old(ctx).client_log@),
                user,
                offset,
                now,
            ),
        !logged_latency(*overrides, latency).fits() ==> shows_one_time(members(r.record)),
        outcome is Ok ==> says_how_it_ended(members(r.record), None),
        outcome is Err ==> says_how_it_ended(members(r.record), Some(outcome->Err_0)),
        final(ctx).request_id == old(ctx).request_id,
        final(ctx).logger == old(ctx).logger,
        final(ctx).client_log@.len() == 0,
{
    let ghost request_id = ctx.request_id@;
    let ghost targets = entries(ctx.client_log@);
    let ghost ended = outcome;
    let ghost failed = failure_in(outcome);
    let ghost body = response_members_in(outcome);
    let ghost string = response_string_in(outcome);
    let (failure, fields, text) = match outcome {
        Ok((fields, text)) => (None, fields, text),
        Err(failure) => (Some(failure), new_fields(), String::new()),
    };
    assert(failure == failed && members(fields) == body && text@ == string);
    let call = end_call(info, latency, failure);
    let entry = log_grpc_unary(ctx, overrides, &call, fields, text);
    proof {
        let (user, offset, now) = choose|user: Seq<char>, offset: i32, now: UtcInstant|
            is_response_offset(
                info.request_time,
                logged_latency(*overrides, latency),
                offset,
            ) && is_told_user(user) && clock_gave(now) && now.ok() && #[trigger] logs_unary(
                entry,
                *overrides,
                request_id,
                call,
                body,
                string,
                targets,
                user,
                offset,
                now,
            );
        law_unary_record_says_how_it_ended(
            entry,
            *overrides,
            request_id,
            *info,
            latency,
            ended,
            targets,
            user,
            offset,
            now,
        );
    }
    entry
}

/// The log of a streaming call whose handler has run, with the status where it refused the call.
pub fn finish_stream<'a>(
    ctx: &mut GrpcContext,
    overrides: &GrpcOverrides,
    info: &GrpcRequestInfo<'a>,
    latency: Latency,
    failure: Option<GrpcFailure<'a>>,
    is_client_stream: bool,
    is_server_stream: bool,
) -> (r: LogEntry)
    requires
        times_ok(info.request_time, logged_latency(*overrides, latency)),
    ensures
        exists|user: Seq<char>, offset: i32, now: UtcInstant|
            is_response_offset(
                info.request_time,
                logged_latency(*overrides, latency),
                offset,
            ) && is_told_user(user) && clock_gave(now) && now.ok() && #[trigger] logs_stream(
                r,
                *overrides,
                old(ctx).request_id@,
                ended_call(*info, latency, failure),
                is_client_stream,
                is_server_stream,
                entries(old(ctx).client_log@),
                user,
                offset,
                now,
            ),
        !logged_latency(*overrides, latency).fits() ==> shows_one_time(members(r.record)),
        says_how_it_ended(members(r.record), failure),
        final(ctx).request_id == old(ctx).request_id,
        final(ctx).logger == old(ctx).logger,
        final(ctx).client_log@.len() == 0,
{
    let ghost request_id = ctx.request_id@;
    let ghost targets = entries(ctx.client_log@);
    let call = end_call(info, latency, failure);
    let entry = log_grpc_stream(ctx, overrides, &call, is_client_stream, is_server_stream);
    proof {
        let (user, offset, now) = choose|user: Seq<char>, offset: i32, now: UtcInstant|
            is_response_offset(
                info.request_time,
                logged_latency(*overrides, latency),
                offset,
            ) && is_told_user(user) && clock_gave(now) && now.ok() && #[trigger] logs_stream(
                entry,
                *overrides,
                request_id,
                call,
                is_client_stream,
                is_server_stream,
                targets,
                user,
                offset,
                now,
            );
        law_stream_record_says_how_it_ended(
            entry,
            *overrides,
            request_id,
            *info,
            latency,
            failure,
            is_client_stream,
            is_server_stream,
            targets,
            user,
            offset,
            now,
        );
    }
    entry
}

/// Keeps a call to another service for the log of the call, where there is room for it.
pub fn log_grpc_client(ctx: &mut GrpcContext, req: TargetRequest, res: TargetResponse)
    requires
        times_ok(req.timestamp, res.latency),
    ensures
        exists|offset: i32|
            is_response_offset(req.timestamp, res.latency, offset) && times_read_back(
                req.timestamp,
                res.latency,
                offset,
            ) && entries(final(ctx).client_log@) == appended(
                entries(old(ctx).client_log@),
                #[trigger] target_members(req, res, offset),
            ),
        final(ctx).request_id == old(ctx).request_id,
        final(ctx).logger == old(ctx).logger,
{
    let entry = build_target_log_fields(&req, &res);
    append_target(&mut ctx.client_log, entry);
}

proof fn lemma_call_names()
    ensures
        "grpcMethod"@.len() == 10 && "grpcMethod"@[0] == 'g',
        "grpcRequest"@.len() == 11 && "grpcRequest"@[0] == 'g',
        "grpcRequestString"@.len() == 17 && "grpcRequestString"@[0] == 'g',
        "grpcRequestMeta"@.len() == 15 && "grpcRequestMeta"@[0] == 'g',
        "grpcPeer"@.len() == 8 && "grpcPeer"@[0] == 'g',
        "grpcStatusCode"@.len() == 14 && "grpcStatusCode"@[0] == 'g',
        "grpcError"@.len() == 9 && "grpcError"@[0] == 'g',
        "requestId"@.len() == 9 && "requestId"@[0] == 'r',
        "requestTimestamp"@.len() == 16 && "requestTimestamp"@[0] == 'r',
        "responseTimestamp"@.len() == 17 && "responseTimestamp"@[0] == 'r',
        "responseLatency"@.len() == 15 && "responseLatency"@[0] == 'r',
        "responseUser"@.len() == 12 && "responseUser"@[0] == 'r',
        "target"@.len() == 6 && "target"@[0] == 't',
        "grpcResponse"@.len() == 12 && "grpcResponse"@[0] == 'g',
        "grpcResponseString"@.len() == 18 && "grpcResponseString"@[0] == 'g'
            && "grpcResponseString"@[6] == 's',
        "grpcIsClientStream"@.len() == 18 && "grpcIsClientStream"@[0] == 'g'
            && "grpcIsClientStream"@[6] == 'C',
        "grpcIsServerStream"@.len() == 18 && "grpcIsServerStream"@[0] == 'g'
            && "grpcIsServerStream"@[6] == 'S',
{
    reveal_strlit("grpcMethod");
    reveal_strlit("grpcRequest");
    reveal_strlit("grpcRequestString");
    reveal_strlit("grpcRequestMeta");
    reveal_strlit("grpcPeer");
    reveal_strlit("grpcStatusCode");
    reveal_strlit("grpcError");
    reveal_strlit("requestId");
    reveal_strlit("requestTimestamp");
    reveal_strlit("responseTimestamp");
    reveal_strlit("responseLatency");
    reveal_strlit("responseUser");
    reveal_strlit("target");
    reveal_strlit("grpcResponse");
    reveal_strlit("grpcResponseString");
    reveal_strlit("grpcIsClientStream");
    reveal_strlit("grpcIsServerStream");
}

proof fn lemma_kept_in_call_record(m: Members, now: UtcInstant)
    ensures
        forall|key: Seq<char>|
            key.len() > 0 && (key[0] == 'g' || key[0] == 'r' || key[0] == 't')
                ==> #[trigger] member(enriched(m, now), key) == member(m, key),
{
    assert forall|key: Seq<char>|
        key.len() > 0 && (key[0] == 'g' || key[0] == 'r' || key[0] == 't') implies
        #[trigger] member(enriched(m, now), key) == member(m, key) by {
        law_enrichment_keeps_logged_fields(m, now, key);
    }
}

/// Whether a record says of a call what the call was: its method, its message, its metadata, its
/// caller, its status, its error, its identifier, its times, the user, and its calls to other
/// services.
pub open spec fn tells_call(
    record: Members,
    unreadable: bool,
    request_id: Seq<char>,
    call: GrpcCall<'_>,
    latency: Latency,
    targets: Seq<Members>,
    user: Seq<char>,
    offset: i32,
) -> bool {
    let at = response_instant(call.request_time.instant, latency);
    &&& says(record, "grpcMethod"@, Json::Text(call.method@))
    &&& says(record, "grpcRequest"@, Json::Object(members(*call.request_body)))
    &&& says(record, "grpcRequestString"@, Json::Text(call.request_body_string@))
    &&& says(
        record,
        "grpcRequestMeta"@,
        Json::Object(metadata_members(metadata_lines(*call.metadata), unreadable)),
    )
    &&& says(record, "grpcPeer"@, Json::Text(call.peer@))
    &&& says(record, "grpcStatusCode"@, Json::Text(code_text(call.code)))
    &&& call.error is Some ==> says(record, "grpcError"@, Json::Text(call.error->0@))
    &&& call.error is None ==> says(record, "grpcError"@, Json::Text(Seq::empty()))
    &&& says(record, "requestId"@, Json::Text(request_id))
    &&& says(
        record,
        "requestTimestamp"@,
        Json::Text(
            rfc3339_text(
                call.request_time.instant.secs,
                call.request_time.instant.nanos,
                call.request_time.offset,
            ),
        ),
    )
    &&& says(record, "responseTimestamp"@, Json::Text(rfc3339_text(at.secs, at.nanos, offset)))
    &&& says(record, "responseLatency"@, Json::Text(duration_text(latency.secs, latency.nanos)))
    &&& says(record, "responseUser"@, Json::Text(user))
    &&& record.contains_key("target"@) && record["target"@] is Array
    &&& record["target"@]->Array_0.len() == targets.len()
    &&& forall|i: int|
        0 <= i < targets.len() ==> #[trigger] record["target"@]->Array_0[i] == Json::Object(
            targets[i],
        )
}

/// The record of a unary call says what the call was and what its response was.
pub proof fn law_unary_record_tells_the_call(
    entry: LogEntry,
    overrides: GrpcOverrides,
    request_id: Seq<char>,
    call: GrpcCall<'_>,
    response_body: Members,
    response_string: Seq<char>,
    targets: Seq<Members>,
    user: Seq<char>,
    offset: i32,
    now: UtcInstant,
)
    requires
        logs_unary(
            entry,
            overrides,
            request_id,
            call,
            response_body,
            response_string,
            targets,
            user,
            offset,
            now,
        ),
    ensures
        tells_call(
            members(entry.record),
            overrides.metadata_to_str_error,
            request_id,
            call,
            logged_latency(overrides, call.latency),
            targets,
            user,
            offset,
        ),
        says(members(entry.record), "grpcResponse"@, Json::Object(response_body)),
        says(members(entry.record), "grpcResponseString"@, Json::Text(response_string)),
{
    let m = unary_members(
        call_members(overrides, request_id, call, targets, user, offset),
        response_body,
        response_string,
    );
    lemma_call_names();
    lemma_kept_in_call_record(m, now);
    assert(member(enriched(m, now), "grpcMethod"@) == member(m, "grpcMethod"@));
    assert(member(enriched(m, now), "grpcRequest"@) == member(m, "grpcRequest"@));
    assert(member(enriched(m, now), "grpcRequestString"@) == member(m, "grpcRequestString"@));
    assert(member(enriched(m, now), "grpcRequestMeta"@) == member(m, "grpcRequestMeta"@));
    assert(member(enriched(m, now), "grpcPeer"@) == member(m, "grpcPeer"@));
    assert(member(enriched(m, now), "grpcStatusCode"@) == member(m, "grpcStatusCode"@));
    assert(member(enriched(m, now), "grpcError"@) == member(m, "grpcError"@));
    assert(member(enriched(m, now), "requestId"@) == member(m, "requestId"@));
    assert(member(enriched(m, now), "requestTimestamp"@) == member(m, "requestTimestamp"@));
    assert(member(enriched(m, now), "responseTimestamp"@) == member(m, "responseTimestamp"@));
    assert(member(enriched(m, now), "responseLatency"@) == member(m, "responseLatency"@));
    assert(member(enriched(m, now), "responseUser"@) == member(m, "responseUser"@));
    assert(member(enriched(m, now), "target"@) == member(m, "target"@));
    assert(member(enriched(m, now), "grpcResponse"@) == member(m, "grpcResponse"@));
    assert(member(enriched(m, now), "grpcResponseString"@) == member(m, "grpcResponseString"@));
}

/// The record of a streaming call says what the call was and which sides stream.
pub proof fn law_stream_record_tells_the_call(
    entry: LogEntry,
    overrides: GrpcOverrides,
    request_id: Seq<char>,
    call: GrpcCall<'_>,
    is_client_stream: bool,
    is_server_stream: bool,
    targets: Seq<Members>,
    user: Seq<char>,
    offset: i32,
    now: UtcInstant,
)
    requires
        logs_stream(
            entry,
            overrides,
            request_id,
            call,
            is_client_stream,
            is_server_stream,
            targets,
            user,
            offset,
            now,
        ),
    ensures
        tells_call(
            members(entry.record),
            overrides.metadata_to_str_error,
            request_id,
            call,
            logged_latency(overrides, call.latency),
            targets,
            user,
            offset,
        ),
        says(members(entry.record), "grpcIsClientStream"@, Json::Bool(is_client_stream)),
        says(members(entry.record), "grpcIsServerStream"@, Json::Bool(is_server_stream)),
{
    let m = stream_members(
        call_members(overrides, request_id, call, targets, user, offset),
        is_client_stream,
        is_server_stream,
    );
    lemma_call_names();
    lemma_kept_in_call_record(m, now);
    assert(member(enriched(m, now), "grpcMethod"@) == member(m, "grpcMethod"@));
    assert(member(enriched(m, now), "grpcRequest"@) == member(m, "grpcRequest"@));
    assert(member(enriched(m, now), "grpcRequestString"@) == member(m, "grpcRequestString"@));
    assert(member(enriched(m, now), "grpcRequestMeta"@) == member(m, "grpcRequestMeta"@));
    assert(member(enriched(m, now), "grpcPeer"@) == member(m, "grpcPeer"@));
    assert(member(enriched(m, now), "grpcStatusCode"@) == member(m, "grpcStatusCode"@));
    assert(member(enriched(m, now), "grpcError"@) == member(m, "grpcError"@));
    assert(member(enriched(m, now), "requestId"@) == member(m, "requestId"@));
    assert(member(enriched(m, now), "requestTimestamp"@) == member(m, "requestTimestamp"@));
    assert(member(enriched(m, now), "responseTimestamp"@) == member(m, "responseTimestamp"@));
    assert(member(enriched(m, now), "responseLatency"@) == member(m, "responseLatency"@));
    assert(member(enriched(m, now), "responseUser"@) == member(m, "responseUser"@));
    assert(member(enriched(m, now), "target"@) == member(m, "target"@));
    assert(member(enriched(m, now), "grpcIsClientStream"@) == member(m, "grpcIsClientStream"@));
    assert(member(enriched(m, now), "grpcIsServerStream"@) == member(m, "grpcIsServerStream"@));
}

/// Whether a record says how a call ended: with the very code and message of the status with which
/// its handler refused it, and with `OK` and no error where it ended well.
pub open spec fn says_how_it_ended(record: Members, failure: Option<GrpcFailure<'_>>) -> bool {
    match failure {
        Some(status) => {
            &&& says(record, "grpcStatusCode"@, Json::Text(code_text(status.code)))
            &&& says(record, "grpcError"@, Json::Text(status.message@))
        },
        None => {
            &&& says(record, "grpcStatusCode"@, Json::Text("OK"@))
            &&& says(record, "grpcError"@, Json::Text(Seq::empty()))
        },
    }
}

/// A call that ended is the call that came in, with its latency; its code and its error are those
/// of the status with which its handler refused it, and there is no error where the handler did
/// not.
pub proof fn law_ended_call_is_the_call(
    info: GrpcRequestInfo<'_>,
    latency: Latency,
    failure: Option<GrpcFailure<'_>>,
)
    ensures
        ({
            let call = ended_call(info, latency, failure);
            &&& call.method@ == info.method@
            &&& call.metadata == info.metadata
            &&& call.peer@ == info.peer@
            &&& call.request_time == info.request_time
            &&& call.latency == latency
            &&& call.request_body == info.request_body
            &&& call.request_body_string@ == info.request_body_string@
            &&& failure is Some ==> call.code == failure->0.code && call.error is Some
                && call.error->0@ == failure->0.message@
            &&& failure is None ==> code_text(call.code) == "OK"@ && call.error is None
        }),
{
}

/// The record of a unary call whose handler has run says how it ended, from the outcome of the
/// handler, and has the response of the handler and none where the handler refused the call.
pub proof fn law_unary_record_says_how_it_ended(
    entry: LogEntry,
    overrides: GrpcOverrides,
    request_id: Seq<char>,
    info: GrpcRequestInfo<'_>,
    latency: Latency,
    outcome: Result<(LogFields, String), GrpcFailure<'_>>,
    targets: Seq<Members>,
    user: Seq<char>,
    offset: i32,
    now: UtcInstant,
)
    requires
        logs_unary(
            entry,
            overrides,
            request_id,
            ended_call(info, latency, failure_in(outcome)),
            response_members_in(outcome),
            response_string_in(outcome),
            targets,
            user,
            offset,
            now,
        ),
    ensures
        (match outcome {
            Ok(response) => {
                &&& says_how_it_ended(members(entry.record), None)
                &&& says(
                    members(entry.record),
                    "grpcResponse"@,
                    Json::Object(members(response.0)),
                )
                &&& says(members(entry.record), "grpcResponseString"@, Json::Text(response.1@))
            },
            Err(status) => {
                &&& says_how_it_ended(members(entry.record), Some(status))
                &&& says(members(entry.record), "grpcResponse"@, Json::Object(Map::empty()))
                &&& says(
                    members(entry.record),
                    "grpcResponseString"@,
                    Json::Text(Seq::empty()),
                )
            },
        }),
{
    law_unary_record_tells_the_call(
        entry,
        overrides,
        request_id,
        ended_call(info, latency, failure_in(outcome)),
        response_members_in(outcome),
        response_string_in(outcome),
        targets,
        user,
        offset,
        now,
    );
}

/// The record of a streaming call whose handler has run says how it ended, from the status of the
/// handler, and which sides stream.
pub proof fn law_stream_record_says_how_it_ended(
    entry: LogEntry,
    overrides: GrpcOverrides,
    request_id: Seq<char>,
    info: GrpcRequestInfo<'_>,
    latency: Latency,
    failure: Option<GrpcFailure<'_>>,
    is_client_stream: bool,
    is_server_stream: bool,
    targets: Seq<Members>,
    user: Seq<char>,
    offset: i32,
    now: UtcInstant,
)
    requires
        logs_stream(
            entry,
            overrides,
            request_id,
            ended_call(info, latency, failure),
            is_client_stream,
            is_server_stream,
            targets,
            user,
            offset,
            now,
        ),
    ensures
        says_how_it_ended(members(entry.record), failure),
        says(members(entry.record), "grpcIsClientStream"@, Json::Bool(is_client_stream)),
        says(members(entry.record), "grpcIsServerStream"@, Json::Bool(is_server_stream)),
{
    law_stream_record_tells_the_call(
        entry,
        overrides,
        request_id,
        ended_call(info, latency, failure),
        is_client_stream,
        is_server_stream,
        targets,
        user,
        offset,
        now,
    );
}

/// A code is logged under its own name, in capitals.
pub proof fn law_code_is_named(code: GrpcCode)
    ensures
        code == GrpcCode::Success ==> code_text(code) == "OK"@,
        code == GrpcCode::Cancelled ==> code_text(code) == "CANCELLED"@,
        code == GrpcCode::Unknown ==> code_text(code) == "UNKNOWN"@,
        code == GrpcCode::InvalidArgument ==> code_text(code) == "INVALIDARGUMENT"@,
        code == GrpcCode::DeadlineExceeded ==> code_text(code) == "DEADLINEEXCEEDED"@,
        code == GrpcCode::NotFound ==> code_text(code) == "NOTFOUND"@,
        code == GrpcCode::AlreadyExists ==> code_text(code) == "ALREADYEXISTS"@,
        code == GrpcCode::PermissionDenied ==> code_text(code) == "PERMISSIONDENIED"@,
        code == GrpcCode::ResourceExhausted ==> code_text(code) == "RESOURCEEXHAUSTED"@,
        code == GrpcCode::FailedPrecondition ==> code_text(code) == "FAILEDPRECONDITION"@,
        code == GrpcCode::Aborted ==> code_text(code) == "ABORTED"@,
        code == GrpcCode::OutOfRange ==> code_text(code) == "OUTOFRANGE"@,
        code == GrpcCode::Unimplemented ==> code_text(code) == "UNIMPLEMENTED"@,
        code == GrpcCode::Internal ==> code_text(code) == "INTERNAL"@,
        code == GrpcCode::Unavailable ==> code_text(code) == "UNAVAILABLE"@,
        code == GrpcCode::DataLoss ==> code_text(code) == "DATALOSS"@,
        code == GrpcCode::Unauthenticated ==> code_text(code) == "UNAUTHENTICATED"@,
{
}

/// Different codes have different names.
pub proof fn law_codes_are_told_apart(a: GrpcCode, b: GrpcCode)
    requires
        code_text(a) == code_text(b),
    ensures
        a == b,
{
    reveal_strlit("OK");
    assert("OK"@.len() == 2 && "OK"@[0] == 'O' && "OK"@[1] == 'K');
    reveal_strlit("CANCELLED");
    assert("CANCELLED"@.len() == 9 && "CANCELLED"@[0] == 'C' && "CANCELLED"@[1] == 'A');
    reveal_strlit("UNKNOWN");
    assert("UNKNOWN"@.len() == 7 && "UNKNOWN"@[0] == 'U' && "UNKNOWN"@[1] == 'N');
    reveal_strlit("INVALIDARGUMENT");
    assert("INVALIDARGUMENT"@.len() == 15 && "INVALIDARGUMENT"@[0] == 'I'
        && "INVALIDARGUMENT"@[1] == 'N');
    reveal_strlit("DEADLINEEXCEEDED");
    assert("DEADLINEEXCEEDED"@.len() == 16 && "DEADLINEEXCEEDED"@[0] == 'D'
        && "DEADLINEEXCEEDED"@[1] == 'E');
    reveal_strlit("NOTFOUND");
    assert("NOTFOUND"@.len() == 8 && "NOTFOUND"@[0] == 'N' && "NOTFOUND"@[1] == 'O');
    reveal_strlit("ALREADYEXISTS");
    assert("ALREADYEXISTS"@.len() == 13 && "ALREADYEXISTS"@[0] == 'A'
        && "ALREADYEXISTS"@[1] == 'L');
    reveal_strlit("PERMISSIONDENIED");
    assert("PERMISSIONDENIED"@.len() == 16 && "PERMISSIONDENIED"@[0] == 'P'
        && "PERMISSIONDENIED"@[1] == 'E');
    reveal_strlit("RESOURCEEXHAUSTED");
    assert("RESOURCEEXHAUSTED"@.len() == 17 && "RESOURCEEXHAUSTED"@[0] == 'R'
        && "RESOURCEEXHAUSTED"@[1] == 'E');
    reveal_strlit("FAILEDPRECONDITION");
    assert("FAILEDPRECONDITION"@.len() == 18 && "FAILEDPRECONDITION"@[0] == 'F'
        && "FAILEDPRECONDITION"@[1] == 'A');
    reveal_strlit("ABORTED");
    assert("ABORTED"@.len() == 7 && "ABORTED"@[0] == 'A' && "ABORTED"@[1] == 'B');
    reveal_strlit("OUTOFRANGE");
    assert("OUTOFRANGE"@.len() == 10 && "OUTOFRANGE"@[0] == 'O' && "OUTOFRANGE"@[1] == 'U');
    reveal_strlit("UNIMPLEMENTED");
    assert("UNIMPLEMENTED"@.len() == 13 && "UNIMPLEMENTED"@[0] == 'U'
        && "UNIMPLEMENTED"@[1] == 'N');
    reveal_strlit("INTERNAL");
    assert("INTERNAL"@.len() == 8 && "INTERNAL"@[0] == 'I' && "INTERNAL"@[1] == 'N');
    reveal_strlit("UNAVAILABLE");
    assert("UNAVAILABLE"@.len() == 11 && "UNAVAILABLE"@[0] == 'U' && "UNAVAILABLE"@[1] == 'N');
    reveal_strlit("DATALOSS");
    assert("DATALOSS"@.len() == 8 && "DATALOSS"@[0] == 'D' && "DATALOSS"@[1] == 'A');
    reveal_strlit("UNAUTHENTICATED");
    assert("UNAUTHENTICATED"@.len() == 15 && "UNAUTHENTICATED"@[0] == 'U'
        && "UNAUTHENTICATED"@[1] == 'N');
}

/// The message of a call is logged with the members of the object that it is, and without members
/// where it is something else; its text is its JSON text.
pub proof fn law_payload_is_the_message(r: (LogFields, String), value: Json)
    requires
        is_payload(r, value),
    ensures
        value is Object ==> members(r.0) == value->Object_0,
        value is Object && json_string(value) is Some ==> r.1@ == json_string(value)->0,
        !(value is Object) ==> members(r.0) == Map::<Seq<char>, Json>::empty() && r.1@
            == json_display(value),
{
}

/// A method is named by its service and its own name, each behind a slash, and is unknown where
/// they are not known.
pub proof fn law_method_is_named_by_its_service(service: Seq<char>, name: Seq<char>)
    ensures
        method_text(None) == "unknown"@,
        ({
            let text = method_text(Some((service, name)));
            &&& text.len() == service.len() + name.len() + 2
            &&& text[0] == '/'
            &&& text.subrange(1, service.len() as int + 1) == service
            &&& text[service.len() as int + 1] == '/'
            &&& text.skip(service.len() as int + 2) == name
        }),
{
    reveal_strlit("/");
    let text = method_text(Some((service, name)));
    assert("/"@.len() == 1 && "/"@[0] == '/');
    assert(text.subrange(1, service.len() as int + 1) =~= service);
    assert(text.skip(service.len() as int + 2) =~= name);
}

/// The identifier of a call is the one that its metadata carry, where it is not empty, and a fresh
/// one where they carry none or an empty one.
pub proof fn law_call_keeps_its_identifier(id: Seq<char>, lines: Seq<HeaderLine>)
    requires
        is_call_id(id, lines),
    ensures
        ({
            let values = values_of(lines, "x-request-id"@);
            &&& values.len() > 0 ==> forall|text: Seq<char>| #[trigger]
                reads_as(values[0], text) && text.len() > 0 ==> id == text
            &&& values.len() == 0 || (forall|text: Seq<char>| #[trigger]
                reads_as(values[0], text) ==> text.len() == 0) ==> is_fresh(id) && is_uuid_text(id)
        }),
{
    let values = values_of(lines, "x-request-id"@);
    law_first_readable_value_is_the_id(lines);
    if values.len() > 0 {
        assert forall|text: Seq<char>| #[trigger]
            reads_as(values[0], text) <==> visible_text(values[0]) == Some(text) by {
            law_value_is_read_byte_by_byte(values[0], text);
        }
        if visible_text(values[0]) is Some {
            assert(reads_as(values[0], visible_text(values[0])->0));
        }
    }
}

/// The fields of a unary call are found again in its record.
pub(crate) proof fn lemma_unary_fields_found(
    entry: LogEntry,
    overrides: GrpcOverrides,
    request_id: Seq<char>,
    call: GrpcCall<'_>,
    response_body: Members,
    response_string: Seq<char>,
    targets: Seq<Members>,
    user: Seq<char>,
    offset: i32,
    now: UtcInstant,
)
    requires
        logs_unary(
            entry,
            overrides,
            request_id,
            call,
            response_body,
            response_string,
            targets,
            user,
            offset,
            now,
        ),
    ensures
        is_entry(entry, logged_part(members(entry.record)), now),
{
    let base = call_members(overrides, request_id, call, targets, user, offset);
    lemma_call_keys(overrides, request_id, call, targets, user, offset);
    lemma_call_names();
    let m = unary_members(base, response_body, response_string);
    assert forall|key: Seq<char>| #[trigger] m.contains_key(key) implies key.len() > 0 && (key[0]
        == 'g' || key[0] == 'r' || key[0] == 't') by {
        assert(base.contains_key(key) || key == "grpcResponse"@ || key == "grpcResponseString"@);
    }
    law_logged_fields_are_found_again(m, now);
}

/// The fields of a streaming call are found again in its record.
pub(crate) proof fn lemma_stream_fields_found(
    entry: LogEntry,
    overrides: GrpcOverrides,
    request_id: Seq<char>,
    call: GrpcCall<'_>,
    is_client_stream: bool,
    is_server_stream: bool,
    targets: Seq<Members>,
    user: Seq<char>,
    offset: i32,
    now: UtcInstant,
)
    requires
        logs_stream(
            entry,
            overrides,
            request_id,
            call,
            is_client_stream,
            is_server_stream,
            targets,
            user,
            offset,
            now,
        ),
    ensures
        is_entry(entry, logged_part(members(entry.record)), now),
{
    let base = call_members(overrides, request_id, call, targets, user, offset);
    lemma_call_keys(overrides, request_id, call, targets, user, offset);
    lemma_call_names();
    let m = stream_members(base, is_client_stream, is_server_stream);
    assert forall|key: Seq<char>| #[trigger] m.contains_key(key) implies key.len() > 0 && (key[0]
        == 'g' || key[0] == 'r' || key[0] == 't') by {
        assert(base.contains_key(key) || key == "grpcIsClientStream"@ || key
            == "grpcIsServerStream"@);
    }
    law_logged_fields_are_found_again(m, now);
}

} // verus!
