//! What the operations do that log gRPC calls: each law speaks of a call, its arguments and what it
//! gave back.

use std::sync::Arc;

use vstd::prelude::*;
use vstd::utf8::encode_utf8;

use crate::client_log::{entries, law_call_is_kept_behind_the_others};
use crate::clock::{clock_gave, is_response_offset, Latency, UtcInstant};
use crate::delivery_laws::{is_record_and_line, lemma_record_and_line};
use crate::ecs_laws::logged_part;
use crate::field_laws::{lemma_tells_target, tells_target};
use crate::grpc::{
    answer_call, code_to_string, coverage_force_grpc_latency_overflow,
    coverage_force_invalid_header_key, coverage_force_invalid_request_id_key,
    coverage_force_metadata_to_str_error, describe_payload, ended_call, ensure_context, failure_in,
    fetch_request_id, finish_stream, finish_unary, grpc_method, law_call_keeps_its_identifier,
    law_code_is_named, law_ended_call_is_the_call, law_method_is_named_by_its_service,
    law_payload_is_the_message, law_stream_record_tells_the_call, law_unary_record_tells_the_call,
    lemma_stream_fields_found, lemma_unary_fields_found, log_grpc_client, log_grpc_stream,
    log_grpc_stream_at, log_grpc_unary, log_grpc_unary_at, logged_latency, logs_stream, logs_unary,
    peer_address, request_id_metadata_key, response_members_in, response_string_in,
    serialize_value_result, set_request_id, tells_call, ContextChoice, GrpcCall, GrpcCode,
    GrpcContext, GrpcFailure, GrpcOverrides, GrpcRequestInfo, WelogGrpcInterceptor,
};
use crate::headers::{
    is_header_text, law_value_is_read_byte_by_byte, names_in, reads_as, values_of, visible_text,
    HeaderLine,
};
use crate::identity::{is_fresh, is_told_user, is_uuid_text};
use crate::json::{
    describes_error, json, json_display, json_string, members, says, Json, LogFields, Members,
};
use crate::logger::{LogEntry, Logger, Surroundings};
use crate::metadata::metadata_lines;
use crate::model::{TargetRequest, TargetResponse};
use crate::request_id::law_first_readable_value_is_the_id;
use crate::util::target_members;

verus! {

/// Whether a text is what metadata carry as an identifier: the text of the first `x-request-id`
/// where that is readable, and otherwise the empty text.
pub open spec fn is_carried(id: Seq<char>, lines: Seq<HeaderLine>) -> bool {
    let values = values_of(lines, "x-request-id"@);
    &&& values.len() > 0 ==> forall|text: Seq<char>| #[trigger]
        reads_as(values[0], text) ==> id == text
    &&& values.len() == 0 || (forall|text: Seq<char>| !#[trigger] reads_as(values[0], text))
        ==> id.len() == 0
}

proof fn lemma_is_carried(id: Seq<char>, lines: Seq<HeaderLine>)
    requires
        id == crate::text::text_or_empty(crate::request_id::carried_id(lines)),
    ensures
        is_carried(id, lines),
{
    let values = values_of(lines, "x-request-id"@);
    law_first_readable_value_is_the_id(lines);
    if values.len() > 0 {
        assert forall|text: Seq<char>| #[trigger]
            reads_as(values[0], text) <==> visible_text(values[0]) == Some(text) by {
            law_value_is_read_byte_by_byte(values[0], text);
        }
        if visible_text(values[0]) is Some {
            assert(reads_as(values[0], visible_text(values[0])->0));
        }
    }
}

/// The identifier that is fetched is the one that the metadata carry, and empty where they carry
/// none that is readable.
pub proof fn law_identifier_is_fetched(
    md: tonic::metadata::MetadataMap,
    overrides: GrpcOverrides,
    r: String,
)
    requires
        call_ensures(fetch_request_id, (&md, &overrides), r),
    ensures
        is_carried(r@, metadata_lines(md)),
{
    lemma_is_carried(r@, metadata_lines(md));
}

/// The key of the identifier is `x-request-id`, whatever the switches say.
pub proof fn law_key_of_the_identifier(overrides: GrpcOverrides, r: String)
    requires
        call_ensures(request_id_metadata_key, (&overrides,), r),
    ensures
        r@ == "x-request-id"@,
{
}

/// Whether lines carry an identifier in place of any other: just one `x-request-id`, which says it,
/// and every other key with the values it had.
pub open spec fn carries_call_id(
    after: Seq<HeaderLine>,
    before: Seq<HeaderLine>,
    id: Seq<char>,
) -> bool {
    &&& values_of(after, "x-request-id"@) == seq![encode_utf8(id)]
    &&& forall|other: Seq<char>|
        other != "x-request-id"@ ==> #[trigger] values_of(after, other) == values_of(before, other)
}

/// Metadata carry the identifier that they are given; an identifier that they cannot carry changes
/// nothing. Those without room for another key stay as they are, and those with few keys have room.
pub proof fn law_metadata_carry_the_identifier(
    md: &mut tonic::metadata::MetadataMap,
    request_id: &str,
    overrides: GrpcOverrides,
    r: bool,
)
    requires
        call_ensures(set_request_id, (md, request_id, &overrides), r),
    ensures
        names_in(metadata_lines(*old(md))).len() <= 6553 ==> r,
        !is_header_text(request_id@) ==> r && *final(md) == *old(md),
        r && is_header_text(request_id@) ==> carries_call_id(
            metadata_lines(*final(md)),
            metadata_lines(*old(md)),
            request_id@,
        ),
        !r ==> metadata_lines(*final(md)) == metadata_lines(*old(md)),
{
}

/// The metadata of a response carry the identifier of the call, in place of any other.
pub proof fn law_response_carries_the_identifier_of_the_call(
    md: &mut tonic::metadata::MetadataMap,
    ctx: GrpcContext,
    overrides: GrpcOverrides,
    r: bool,
)
    requires
        call_ensures(answer_call, (md, &ctx, &overrides), r),
    ensures
        names_in(metadata_lines(*old(md))).len() <= 6553 ==> r,
        !is_header_text(ctx.request_id@) ==> r && *final(md) == *old(md),
        r && is_header_text(ctx.request_id@) ==> carries_call_id(
            metadata_lines(*final(md)),
            metadata_lines(*old(md)),
            ctx.request_id@,
        ),
        !r ==> metadata_lines(*final(md)) == metadata_lines(*old(md)),
{
}

/// A call that is taken in keeps the identifier that its metadata carry, where it is not empty, and
/// otherwise gets a fresh one; its metadata carry it from then on, and its context has the
/// identifier, the logger, and no calls.
pub proof fn law_call_is_taken_in(
    interceptor: WelogGrpcInterceptor,
    md: &mut tonic::metadata::MetadataMap,
    overrides: GrpcOverrides,
    logger: Arc<Logger>,
    r: Option<GrpcContext>,
)
    requires
        call_ensures(
            WelogGrpcInterceptor::intercept,
            (&interceptor, md, &overrides, logger),
            r,
        ),
    ensures
        names_in(metadata_lines(*old(md))).len() <= 6553 ==> r is Some,
        r is None ==> metadata_lines(*final(md)) == metadata_lines(*old(md)),
        r matches Some(ctx) ==> {
            let values = values_of(metadata_lines(*old(md)), "x-request-id"@);
            &&& ctx.logger == logger
            &&& ctx.client_log@.len() == 0
            &&& values.len() > 0 ==> forall|text: Seq<char>| #[trigger]
                reads_as(values[0], text) && text.len() > 0 ==> ctx.request_id@ == text
            &&& values.len() == 0 || (forall|text: Seq<char>| #[trigger]
                reads_as(values[0], text) ==> text.len() == 0) ==> is_fresh(ctx.request_id@)
                && is_uuid_text(ctx.request_id@)
            &&& carries_call_id(
                metadata_lines(*final(md)),
                metadata_lines(*old(md)),
                ctx.request_id@,
            )
        },
{
    if let Some(ctx) = r {
        law_call_keeps_its_identifier(ctx.request_id@, metadata_lines(*old(md)));
    }
}

/// The context of a call is the one that it has, and where it has none a new one with the
/// identifier that its metadata carry, the logger, and no calls.
pub proof fn law_context_is_kept_or_made<T>(
    existing: Option<T>,
    md: tonic::metadata::MetadataMap,
    overrides: GrpcOverrides,
    logger: Arc<Logger>,
    r: ContextChoice<T>,
)
    requires
        call_ensures(ensure_context::<T>, (existing, &md, &overrides, logger), r),
    ensures
        existing is Some ==> r == ContextChoice::Existing(existing->0),
        existing is None ==> (r matches ContextChoice::Fresh(ctx) && is_carried(
            ctx.request_id@,
            metadata_lines(md),
        ) && ctx.logger == logger && ctx.client_log@.len() == 0),
{
    if existing is None {
        if let ContextChoice::Fresh(ctx) = r {
            lemma_is_carried(ctx.request_id@, metadata_lines(md));
        }
    }
}

/// What is logged of a message is its members and its JSON text where it is an object, no members
/// and its JSON text where it is another value, and no members and the error where it could not be
/// turned into a value.
pub proof fn law_payload_is_described(
    result: Result<serde_json::Value, String>,
    r: (LogFields, String),
)
    requires
        call_ensures(describe_payload, (result,), r),
    ensures
        result is Err ==> members(r.0) == Map::<Seq<char>, Json>::empty() && r.1@
            == result->Err_0@,
        result is Ok && json(result->Ok_0) is Object ==> members(r.0) == json(
            result->Ok_0,
        )->Object_0,
        result is Ok && json(result->Ok_0) is Object && json_string(json(result->Ok_0)) is Some
            ==> r.1@ == json_string(json(result->Ok_0))->0,
        result is Ok && !(json(result->Ok_0) is Object) ==> members(r.0) == Map::<
            Seq<char>,
            Json,
        >::empty() && r.1@ == json_display(json(result->Ok_0)),
{
    if result is Ok {
        law_payload_is_the_message(r, json(result->Ok_0));
    }
}

/// The same for a message that serde_json was asked to turn into a value: the text for an error is
/// how serde_json describes it.
pub proof fn law_serialized_payload_is_described(
    result: Result<serde_json::Value, serde_json::Error>,
    r: (LogFields, String),
)
    requires
        call_ensures(serialize_value_result, (result,), r),
    ensures
        result is Err ==> members(r.0) == Map::<Seq<char>, Json>::empty() && describes_error(
            r.1@,
            result->Err_0,
        ) && r.1@.len() > 0,
        result is Ok && json(result->Ok_0) is Object ==> members(r.0) == json(
            result->Ok_0,
        )->Object_0,
        result is Ok && json(result->Ok_0) is Object && json_string(json(result->Ok_0)) is Some
            ==> r.1@ == json_string(json(result->Ok_0))->0,
        result is Ok && !(json(result->Ok_0) is Object) ==> members(r.0) == Map::<
            Seq<char>,
            Json,
        >::empty() && r.1@ == json_display(json(result->Ok_0)),
{
    if result is Ok {
        law_payload_is_the_message(r, json(result->Ok_0));
    }
}

/// A code is written under its own name, in capitals.
pub proof fn law_code_is_written(code: GrpcCode, r: String)
    requires
        call_ensures(code_to_string, (code,), r),
    ensures
        code == GrpcCode::Success ==> r@ == "OK"@,
        code == GrpcCode::Cancelled ==> r@ == "CANCELLED"@,
        code == GrpcCode::Unknown ==> r@ == "UNKNOWN"@,
        code == GrpcCode::InvalidArgument ==> r@ == "INVALIDARGUMENT"@,
        code == GrpcCode::DeadlineExceeded ==> r@ == "DEADLINEEXCEEDED"@,
        code == GrpcCode::NotFound ==> r@ == "NOTFOUND"@,
        code == GrpcCode::AlreadyExists ==> r@ == "ALREADYEXISTS"@,
        code == GrpcCode::PermissionDenied ==> r@ == "PERMISSIONDENIED"@,
        code == GrpcCode::ResourceExhausted ==> r@ == "RESOURCEEXHAUSTED"@,
        code == GrpcCode::FailedPrecondition ==> r@ == "FAILEDPRECONDITION"@,
        code == GrpcCode::Aborted ==> r@ == "ABORTED"@,
        code == GrpcCode::OutOfRange ==> r@ == "OUTOFRANGE"@,
        code == GrpcCode::Unimplemented ==> r@ == "UNIMPLEMENTED"@,
        code == GrpcCode::Internal ==> r@ == "INTERNAL"@,
        code == GrpcCode::Unavailable ==> r@ == "UNAVAILABLE"@,
        code == GrpcCode::DataLoss ==> r@ == "DATALOSS"@,
        code == GrpcCode::Unauthenticated ==> r@ == "UNAUTHENTICATED"@,
{
    law_code_is_named(code);
}

/// A method is written as its service and its own name, each behind a slash, and as unknown where
/// they are not known.
pub proof fn law_method_is_written(method: Option<(&str, &str)>, r: String)
    requires
        call_ensures(grpc_method, (method,), r),
    ensures
        method is None ==> r@ == "unknown"@,
        method matches Some((service, name)) ==> {
            &&& r@.len() == service@.len() + name@.len() + 2
            &&& r@[0] == '/'
            &&& r@.subrange(1, service@.len() as int + 1) == service@
            &&& r@[service@.len() as int + 1] == '/'
            &&& r@.skip(service@.len() as int + 2) == name@
        },
{
    match method {
        Some((service, name)) => {
            law_method_is_named_by_its_service(service@, name@);
        },
        None => {
            law_method_is_named_by_its_service(Seq::empty(), Seq::empty());
        },
    }
}

/// The caller's address is the one that is known, and empty where none is.
pub proof fn law_peer_is_written(remote: Option<String>, r: String)
    requires
        call_ensures(peer_address, (remote,), r),
    ensures
        remote is Some ==> r@ == remote->0@,
        remote is None ==> r@.len() == 0,
{
}

/// The latency that is logged is the one that was measured, and the longest of all with the switch
/// on.
pub open spec fn call_latency_to_log(overrides: GrpcOverrides, latency: Latency) -> Latency {
    if overrides.latency_overflow {
        Latency { secs: 0xffff_ffff_ffff_ffff, nanos: 0 }
    } else {
        latency
    }
}

/// What is logged of a unary call, in given surroundings, tells the call, its response, and the
/// calls to other services that the context kept, which it then has no more.
pub proof fn law_unary_call_is_logged_at(
    ctx: &mut GrpcContext,
    overrides: GrpcOverrides,
    call: GrpcCall<'_>,
    response_body: LogFields,
    response_body_string: String,
    at: Surroundings,
    r: LogEntry,
)
    requires
        call_ensures(
            log_grpc_unary_at,
            (ctx, &overrides, &call, response_body, response_body_string, at),
            r,
        ),
    ensures
        tells_call(
            members(r.record),
            overrides.metadata_to_str_error,
            old(ctx).request_id@,
            call,
            call_latency_to_log(overrides, call.latency),
            entries(old(ctx).client_log@),
            at.user@,
            at.offset,
        ),
        says(members(r.record), "grpcResponse"@, Json::Object(members(response_body))),
        says(members(r.record), "grpcResponseString"@, Json::Text(response_body_string@)),
        is_record_and_line(r, logged_part(members(r.record)), at.now),
        final(ctx).request_id@ == old(ctx).request_id@,
        final(ctx).logger == old(ctx).logger,
        final(ctx).client_log@.len() == 0,
{
    lemma_unary_fields_found(
        r,
        overrides,
        old(ctx).request_id@,
        call,
        members(response_body),
        response_body_string@,
        entries(old(ctx).client_log@),
        at.user@,
        at.offset,
        at.now,
    );
    lemma_record_and_line(r, logged_part(members(r.record)), at.now);
    law_unary_record_tells_the_call(
        r,
        overrides,
        old(ctx).request_id@,
        call,
        members(response_body),
        response_body_string@,
        entries(old(ctx).client_log@),
        at.user@,
        at.offset,
        at.now,
    );
}

/// What is logged of a streaming call, in given surroundings, tells the call, which sides stream,
/// and the calls to other services that the context kept, which it then has no more.
pub proof fn law_streaming_call_is_logged_at(
    ctx: &mut GrpcContext,
    overrides: GrpcOverrides,
    call: GrpcCall<'_>,
    is_client_stream: bool,
    is_server_stream: bool,
    at: Surroundings,
    r: LogEntry,
)
    requires
        call_ensures(
            log_grpc_stream_at,
            (ctx, &overrides, &call, is_client_stream, is_server_stream, at),
            r,
        ),
    ensures
        tells_call(
            members(r.record),
            overrides.metadata_to_str_error,
            old(ctx).request_id@,
            call,
            call_latency_to_log(overrides, call.latency),
            entries(old(ctx).client_log@),
            at.user@,
            at.offset,
        ),
        says(members(r.record), "grpcIsClientStream"@, Json::Bool(is_client_stream)),
        says(members(r.record), "grpcIsServerStream"@, Json::Bool(is_server_stream)),
        is_record_and_line(r, logged_part(members(r.record)), at.now),
        final(ctx).request_id@ == old(ctx).request_id@,
        final(ctx).logger == old(ctx).logger,
        final(ctx).client_log@.len() == 0,
{
    lemma_stream_fields_found(
        r,
        overrides,
        old(ctx).request_id@,
        call,
        is_client_stream,
        is_server_stream,
        entries(old(ctx).client_log@),
        at.user@,
        at.offset,
        at.now,
    );
    lemma_record_and_line(r, logged_part(members(r.record)), at.now);
    law_stream_record_tells_the_call(
        r,
        overrides,
        old(ctx).request_id@,
        call,
        is_client_stream,
        is_server_stream,
        entries(old(ctx).client_log@),
        at.user@,
        at.offset,
        at.now,
    );
}

/// Whether a record tells a call, with the user that the system tells and on the machine's clock.
pub open spec fn tells_call_here(
    record: Members,
    overrides: GrpcOverrides,
    request_id: Seq<char>,
    call: GrpcCall<'_>,
    targets: Seq<Members>,
) -> bool {
    exists|user: Seq<char>, offset: i32| #[trigger]
        tells_call(
            record,
            overrides.metadata_to_str_error,
            request_id,
            call,
            call_latency_to_log(overrides, call.latency),
            targets,
            user,
            offset,
        ) && is_told_user(user) && is_response_offset(
            call.request_time,
            call_latency_to_log(overrides, call.latency),
            offset,
        )
}

proof fn lemma_unary_here(
    entry: LogEntry,
    overrides: GrpcOverrides,
    request_id: Seq<char>,
    call: GrpcCall<'_>,
    response_body: Members,
    response_string: Seq<char>,
    targets: Seq<Members>,
)
    requires
        exists|user: Seq<char>, offset: i32, now: UtcInstant|
            is_response_offset(
                call.request_time,
                logged_latency(overrides, call.latency),
                offset,
            ) && is_told_user(user) && clock_gave(now) && now.ok() && #[trigger] logs_unary(
                entry,
                overrides,
                request_id,
                call,
                response_body,
                response_string,
                targets,
                user,
                offset,
                now,
            ),
    ensures
        tells_call_here(members(entry.record), overrides, request_id, call, targets),
        says(members(entry.record), "grpcResponse"@, Json::Object(response_body)),
        says(members(entry.record), "grpcResponseString"@, Json::Text(response_string)),
        exists|now: UtcInstant| #[trigger]
            is_record_and_line(entry, logged_part(members(entry.record)), now) && clock_gave(now),
{
    let (user, offset, now) = choose|user: Seq<char>, offset: i32, now: UtcInstant|
        is_response_offset(
            call.request_time,
            logged_latency(overrides, call.latency),
            offset,
        ) && is_told_user(user) && clock_gave(now) && now.ok() && #[trigger] logs_unary(
            entry,
            overrides,
            request_id,
            call,
            response_body,
            response_string,
            targets,
            user,
            offset,
            now,
        );
    lemma_unary_fields_found(
        entry,
        overrides,
        request_id,
        call,
        response_body,
        response_string,
        targets,
        user,
        offset,
        now,
    );
    lemma_record_and_line(entry, logged_part(members(entry.record)), now);
    assert(is_record_and_line(entry, logged_part(members(entry.record)), now));
    law_unary_record_tells_the_call(
        entry,
        overrides,
        request_id,
        call,
        response_body,
        response_string,
        targets,
        user,
        offset,
        now,
    );
    assert(logged_latency(overrides, call.latency) == call_latency_to_log(
        overrides,
        call.latency,
    ));
    assert(tells_call(
        members(entry.record),
        overrides.metadata_to_str_error,
        request_id,
        call,
        call_latency_to_log(overrides, call.latency),
        targets,
        user,
        offset,
    ));
}

proof fn lemma_stream_here(
    entry: LogEntry,
    overrides: GrpcOverrides,
    request_id: Seq<char>,
    call: GrpcCall<'_>,
    is_client_stream: bool,
    is_server_stream: bool,
    targets: Seq<Members>,
)
    requires
        exists|user: Seq<char>, offset: i32, now: UtcInstant|
            is_response_offset(
                call.request_time,
                logged_latency(overrides, call.latency),
                offset,
            ) && is_told_user(user) && clock_gave(now) && now.ok() && #[trigger] logs_stream(
                entry,
                overrides,
                request_id,
                call,
                is_client_stream,
                is_server_stream,
                targets,
                user,
                offset,
                now,
            ),
    ensures
        tells_call_here(members(entry.record), overrides, request_id, call, targets),
        says(members(entry.record), "grpcIsClientStream"@, Json::Bool(is_client_stream)),
        says(members(entry.record), "grpcIsServerStream"@, Json::Bool(is_server_stream)),
        exists|now: UtcInstant| #[trigger]
            is_record_and_line(entry, logged_part(members(entry.record)), now) && clock_gave(now),
{
    let (user, offset, now) = choose|user: Seq<char>, offset: i32, now: UtcInstant|
        is_response_offset(
            call.request_time,
            logged_latency(overrides, call.latency),
            offset,
        ) && is_told_user(user) && clock_gave(now) && now.ok() && #[trigger] logs_stream(
            entry,
            overrides,
            request_id,
            call,
            is_client_stream,
            is_server_stream,
            targets,
            user,
            offset,
            now,
        );
    lemma_stream_fields_found(
        entry,
        overrides,
        request_id,
        call,
        is_client_stream,
        is_server_stream,
        targets,
        user,
        offset,
        now,
    );
    lemma_record_and_line(entry, logged_part(members(entry.record)), now);
    assert(is_record_and_line(entry, logged_part(members(entry.record)), now));
    law_stream_record_tells_the_call(
        entry,
        overrides,
        request_id,
        call,
        is_client_stream,
        is_server_stream,
        targets,
        user,
        offset,
        now,
    );
    assert(logged_latency(overrides, call.latency) == call_latency_to_log(
        overrides,
        call.latency,
    ));
    assert(tells_call(
        members(entry.record),
        overrides.metadata_to_str_error,
        request_id,
        call,
        call_latency_to_log(overrides, call.latency),
        targets,
        user,
        offset,
    ));
}

/// What is logged of a unary call tells the call, its response, the user that the system tells, and
/// the calls to other services that the context kept, which it then has no more.
pub proof fn law_unary_call_is_logged(
    ctx: &mut GrpcContext,
    overrides: GrpcOverrides,
    call: GrpcCall<'_>,
    response_body: LogFields,
    response_body_string: String,
    r: LogEntry,
)
    requires
        call_ensures(
            log_grpc_unary,
            (ctx, &overrides, &call, response_body, response_body_string),
            r,
        ),
    ensures
        tells_call_here(
            members(r.record),
            overrides,
            old(ctx).request_id@,
            call,
            entries(old(ctx).client_log@),
        ),
        says(members(r.record), "grpcResponse"@, Json::Object(members(response_body))),
        says(members(r.record), "grpcResponseString"@, Json::Text(response_body_string@)),
        exists|now: UtcInstant| #[trigger]
            is_record_and_line(r, logged_part(members(r.record)), now) && clock_gave(now),
        final(ctx).request_id@ == old(ctx).request_id@,
        final(ctx).logger == old(ctx).logger,
        final(ctx).client_log@.len() == 0,
{
    lemma_unary_here(
        r,
        overrides,
        old(ctx).request_id@,
        call,
        members(response_body),
        response_body_string@,
        entries(old(ctx).client_log@),
    );
}

/// What is logged of a streaming call tells the call, which sides stream, the user that the system
/// tells, and the calls to other services that the context kept, which it then has no more.
pub proof fn law_streaming_call_is_logged(
    ctx: &mut GrpcContext,
    overrides: GrpcOverrides,
    call: GrpcCall<'_>,
    is_client_stream: bool,
    is_server_stream: bool,
    r: LogEntry,
)
    requires
        call_ensures(
            log_grpc_stream,
            (ctx, &overrides, &call, is_client_stream, is_server_stream),
            r,
        ),
    ensures
        tells_call_here(
            members(r.record),
            overrides,
            old(ctx).request_id@,
            call,
            entries(old(ctx).client_log@),
        ),
        says(members(r.record), "grpcIsClientStream"@, Json::Bool(is_client_stream)),
        says(members(r.record), "grpcIsServerStream"@, Json::Bool(is_server_stream)),
        exists|now: UtcInstant| #[trigger]
            is_record_and_line(r, logged_part(members(r.record)), now) && clock_gave(now),
        final(ctx).request_id@ == old(ctx).request_id@,
        final(ctx).logger == old(ctx).logger,
        final(ctx).client_log@.len() == 0,
{
    lemma_stream_here(
        r,
        overrides,
        old(ctx).request_id@,
        call,
        is_client_stream,
        is_server_stream,
        entries(old(ctx).client_log@),
    );
}

/// Whether a call is the one that came in, with this latency.
pub open spec fn is_same_call(
    call: GrpcCall<'_>,
    info: GrpcRequestInfo<'_>,
    latency: Latency,
) -> bool {
    &&& call.method@ == info.method@
    &&& call.metadata == info.metadata
    &&& call.peer@ == info.peer@
    &&& call.request_time == info.request_time
    &&& call.latency == latency
    &&& call.request_body == info.request_body
    &&& call.request_body_string@ == info.request_body_string@
}

/// The record of a unary call whose handler refused it tells the call, with the name of the very
/// code of the handler's status under `grpcStatusCode` and its message under `grpcError`, and no
/// response; the record of one that ended well has `OK`, no error, and the handler's response.
pub proof fn law_unary_call_is_finished<'a>(
    ctx: &mut GrpcContext,
    overrides: GrpcOverrides,
    info: GrpcRequestInfo<'a>,
    latency: Latency,
    outcome: Result<(LogFields, String), GrpcFailure<'a>>,
    r: LogEntry,
    name: String,
)
    requires
        call_ensures(finish_unary, (ctx, &overrides, &info, latency, outcome), r),
        outcome is Err ==> call_ensures(code_to_string, (outcome->Err_0.code,), name),
    ensures
        exists|call: GrpcCall<'_>| #[trigger]
            tells_call_here(
                members(r.record),
                overrides,
                old(ctx).request_id@,
                call,
                entries(old(ctx).client_log@),
            ) && is_same_call(call, info, latency),
        outcome is Err ==> {
            &&& says(members(r.record), "grpcStatusCode"@, Json::Text(name@))
            &&& says(members(r.record), "grpcError"@, Json::Text(outcome->Err_0.message@))
            &&& says(members(r.record), "grpcResponse"@, Json::Object(Map::empty()))
            &&& says(members(r.record), "grpcResponseString"@, Json::Text(Seq::empty()))
        },
        outcome matches Ok(response) ==> {
            &&& says(members(r.record), "grpcStatusCode"@, Json::Text("OK"@))
            &&& says(members(r.record), "grpcError"@, Json::Text(Seq::empty()))
            &&& says(members(r.record), "grpcResponse"@, Json::Object(members(response.0)))
            &&& says(members(r.record), "grpcResponseString"@, Json::Text(response.1@))
        },
        exists|now: UtcInstant| #[trigger]
            is_record_and_line(r, logged_part(members(r.record)), now) && clock_gave(now),
        final(ctx).request_id@ == old(ctx).request_id@,
        final(ctx).logger == old(ctx).logger,
        final(ctx).client_log@.len() == 0,
{
    let call = ended_call(info, latency, failure_in(outcome));
    law_ended_call_is_the_call(info, latency, failure_in(outcome));
    lemma_unary_here(
        r,
        overrides,
        old(ctx).request_id@,
        call,
        response_members_in(outcome),
        response_string_in(outcome),
        entries(old(ctx).client_log@),
    );
    assert(tells_call_here(
        members(r.record),
        overrides,
        old(ctx).request_id@,
        call,
        entries(old(ctx).client_log@),
    ));
}

/// The record of a streaming call whose handler has run tells the call and which sides stream, with
/// the name of the very code of the handler's status and its message where it refused the call, and
/// with `OK` and no error where it did not.
pub proof fn law_streaming_call_is_finished<'a>(
    ctx: &mut GrpcContext,
    overrides: GrpcOverrides,
    info: GrpcRequestInfo<'a>,
    latency: Latency,
    failure: Option<GrpcFailure<'a>>,
    is_client_stream: bool,
    is_server_stream: bool,
    r: LogEntry,
    name: String,
)
    requires
        call_ensures(
            finish_stream,
            (ctx, &overrides, &info, latency, failure, is_client_stream, is_server_stream),
            r,
        ),
        failure is Some ==> call_ensures(code_to_string, (failure->0.code,), name),
    ensures
        exists|call: GrpcCall<'_>| #[trigger]
            tells_call_here(
                members(r.record),
                overrides,
                old(ctx).request_id@,
                call,
                entries(old(ctx).client_log@),
            ) && is_same_call(call, info, latency),
        failure is Some ==> {
            &&& says(members(r.record), "grpcStatusCode"@, Json::Text(name@))
            &&& says(members(r.record), "grpcError"@, Json::Text(failure->0.message@))
        },
        failure is None ==> {
            &&& says(members(r.record), "grpcStatusCode"@, Json::Text("OK"@))
            &&& says(members(r.record), "grpcError"@, Json::Text(Seq::empty()))
        },
        says(members(r.record), "grpcIsClientStream"@, Json::Bool(is_client_stream)),
        says(members(r.record), "grpcIsServerStream"@, Json::Bool(is_server_stream)),
        exists|now: UtcInstant| #[trigger]
            is_record_and_line(r, logged_part(members(r.record)), now) && clock_gave(now),
        final(ctx).request_id@ == old(ctx).request_id@,
        final(ctx).logger == old(ctx).logger,
        final(ctx).client_log@.len() == 0,
{
    let call = ended_call(info, latency, failure);
    law_ended_call_is_the_call(info, latency, failure);
    lemma_stream_here(
        r,
        overrides,
        old(ctx).request_id@,
        call,
        is_client_stream,
        is_server_stream,
        entries(old(ctx).client_log@),
    );
    assert(tells_call_here(
        members(r.record),
        overrides,
        old(ctx).request_id@,
        call,
        entries(old(ctx).client_log@),
    ));
}

/// A call to another service is kept behind those that came before it, up to a thousand, and the
/// rest of the context stays as it is.
pub proof fn law_grpc_client_call_is_kept(
    ctx: &mut GrpcContext,
    req: TargetRequest,
    res: TargetResponse,
)
    requires
        call_ensures(log_grpc_client, (ctx, req, res), ()),
    ensures
        ({
            let before = entries(old(ctx).client_log@);
            let after = entries(final(ctx).client_log@);
            &&& before.len() >= 1000 ==> after == before
            &&& before.len() < 1000 ==> after.len() == before.len() + 1 && after.drop_last()
                == before
            &&& before.len() < 1000 ==> exists|offset: i32| #[trigger]
                tells_target(after.last(), req, res, offset) && is_response_offset(
                    req.timestamp,
                    res.latency,
                    offset,
                )
        }),
        final(ctx).request_id@ == old(ctx).request_id@,
        final(ctx).logger == old(ctx).logger,
{
    let before = entries(old(ctx).client_log@);
    let offset = choose|offset: i32|
        is_response_offset(req.timestamp, res.latency, offset) && entries(final(ctx).client_log@)
            == crate::client_log::appended(
            before,
            #[trigger] target_members(req, res, offset),
        );
    law_call_is_kept_behind_the_others(before, target_members(req, res, offset));
    lemma_tells_target(req, res, offset);
    if before.len() < 1000 {
        assert(tells_target(entries(final(ctx).client_log@).last(), req, res, offset));
    }
}

/// A new context has the identifier and the logger that it is made with, and no calls; a context
/// gives the identifier and the logger that it has.
pub proof fn law_grpc_context_gives_what_it_has(
    request_id: String,
    logger: Arc<Logger>,
    made: GrpcContext,
    ctx: GrpcContext,
    id: &str,
    given: Arc<Logger>,
)
    requires
        call_ensures(GrpcContext::new, (request_id, logger), made),
        call_ensures(GrpcContext::request_id, (&ctx,), id),
        call_ensures(GrpcContext::logger, (&ctx,), given),
    ensures
        made.request_id@ == request_id@,
        made.logger == logger,
        made.client_log@.len() == 0,
        id@ == ctx.request_id@,
        given == ctx.logger,
{
}

/// Each switch is set as it is told and leaves the others alone; at first, none is on.
pub proof fn law_grpc_switches_are_set(
    fresh: GrpcOverrides,
    a: &mut GrpcOverrides,
    b: &mut GrpcOverrides,
    c: &mut GrpcOverrides,
    d: &mut GrpcOverrides,
    enabled: bool,
)
    requires
        call_ensures(GrpcOverrides::new, (), fresh),
        call_ensures(coverage_force_grpc_latency_overflow, (a, enabled), ()),
        call_ensures(coverage_force_invalid_request_id_key, (b, enabled), ()),
        call_ensures(coverage_force_invalid_header_key, (c, enabled), ()),
        call_ensures(coverage_force_metadata_to_str_error, (d, enabled), ()),
    ensures
        !fresh.latency_overflow && !fresh.invalid_request_id_key && !fresh.invalid_header_key
            && !fresh.metadata_to_str_error,
        final(a).latency_overflow == enabled,
        final(a).invalid_request_id_key == old(a).invalid_request_id_key,
        final(a).invalid_header_key == old(a).invalid_header_key,
        final(a).metadata_to_str_error == old(a).metadata_to_str_error,
        final(b).latency_overflow == old(b).latency_overflow,
        final(b).invalid_request_id_key == enabled,
        final(b).invalid_header_key == old(b).invalid_header_key,
        final(b).metadata_to_str_error == old(b).metadata_to_str_error,
        final(c).latency_overflow == old(c).latency_overflow,
        final(c).invalid_request_id_key == old(c).invalid_request_id_key,
        final(c).invalid_header_key == enabled,
        final(c).metadata_to_str_error == old(c).metadata_to_str_error,
        final(d).latency_overflow == old(d).latency_overflow,
        final(d).invalid_request_id_key == old(d).invalid_request_id_key,
        final(d).invalid_header_key == old(d).invalid_header_key,
        final(d).metadata_to_str_error == enabled,
{
}

} // verus!
