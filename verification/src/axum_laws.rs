//! What the operations do that log HTTP requests: each law speaks of a call, its arguments and what
//! it gave back.

use std::sync::Arc;

use vstd::prelude::*;
use vstd::utf8::encode_utf8;

use crate::axum_middleware::{
    accept_request, answer_request, assign_request_id, axum_fields_at, choose_request_id,
    coverage_force_invalid_request_id, coverage_force_latency_overflow, extract_client_ip,
    header_to_string, law_client_ip_is_what_the_headers_tell, law_fields_tell_the_exchange,
    law_header_says_the_identifier, law_record_tells_the_request, law_record_tells_the_response,
    law_request_keeps_its_identifier, law_schema_fields_tell_the_exchange, law_version_is_named,
    lemma_exchange_fields_found, log_axum, log_axum_at, log_axum_client, logged_latency,
    logs_exchange, tells_request, tells_response, tells_schema, version_to_string, AxumExchange,
    AxumOverrides, HttpVersion, WelogContext, WelogLayer, WelogMiddleware,
};
use crate::client_log::{entries, law_call_is_kept_behind_the_others};
use crate::clock::{clock_gave, is_response_offset, Latency, UtcInstant};
use crate::delivery_laws::{is_record_and_line, lemma_record_and_line};
use crate::ecs_laws::logged_part;
use crate::field_laws::{lemma_tells_target, tells_target};
use crate::headers::{
    header_lines, is_header_text, is_silent, law_first_line_of_a_name_counts, line_text, names_in,
    reads_as, tells, values_of, HeaderLine,
};
use crate::identity::{is_fresh, is_told_user, is_uuid_text};
use crate::json::{members, LogFields};
use crate::logger::{LogEntry, Logger, Surroundings};
use crate::model::{TargetRequest, TargetResponse};
use crate::util::target_members;

verus! {

/// The client's address is what `x-real-ip` tells, whatever other headers there are; where that
/// tells nothing, what `x-forwarded-for` tells; where that tells nothing either, what `x-client-ip`
/// tells; and it is empty only where none of the three tells anything.
pub proof fn law_client_ip_is_extracted(headers: http::HeaderMap<http::HeaderValue>, r: String)
    requires
        call_ensures(extract_client_ip, (&headers,), r),
    ensures
        ({
            let lines = header_lines(headers);
            &&& forall|ip: Seq<char>| #[trigger] tells(lines, "x-real-ip"@, ip) ==> r@ == ip
            &&& forall|ip: Seq<char>|
                is_silent(lines, "x-real-ip"@) && #[trigger] tells(lines, "x-forwarded-for"@, ip)
                    ==> r@ == ip
            &&& forall|ip: Seq<char>|
                is_silent(lines, "x-real-ip"@) && is_silent(lines, "x-forwarded-for"@)
                    && #[trigger] tells(lines, "x-client-ip"@, ip) ==> r@ == ip
            &&& is_silent(lines, "x-real-ip"@) && is_silent(lines, "x-forwarded-for"@)
                && is_silent(lines, "x-client-ip"@) ==> r@.len() == 0
        }),
{
    law_client_ip_is_what_the_headers_tell(header_lines(headers));
}

/// A header gives the text that it tells, and the empty text where it tells none.
pub proof fn law_header_gives_its_text(
    headers: http::HeaderMap<http::HeaderValue>,
    name: &str,
    r: String,
)
    requires
        call_ensures(header_to_string, (&headers, name), r),
    ensures
        forall|text: Seq<char>| #[trigger]
            tells(header_lines(headers), name@, text) ==> r@ == text,
        is_silent(header_lines(headers), name@) ==> r@.len() == 0,
{
    let lines = header_lines(headers);
    assert forall|text: Seq<char>| #[trigger] tells(lines, name@, text) implies r@ == text by {
        law_first_line_of_a_name_counts(lines, name@, text);
    }
    if line_text(lines, name@) is Some {
        law_first_line_of_a_name_counts(lines, name@, line_text(lines, name@)->0);
    }
}

/// A version is written as the protocol and its number.
pub proof fn law_version_is_written(version: HttpVersion, r: String)
    requires
        call_ensures(version_to_string, (version,), r),
    ensures
        version == HttpVersion::Http09 ==> r@ == "HTTP/0.9"@,
        version == HttpVersion::Http10 ==> r@ == "HTTP/1.0"@,
        version == HttpVersion::Http11 ==> r@ == "HTTP/1.1"@,
        version == HttpVersion::Http2 ==> r@ == "HTTP/2.0"@,
        version == HttpVersion::Http3 ==> r@ == "HTTP/3.0"@,
        version == HttpVersion::Other ==> r@ == "HTTP"@,
{
    law_version_is_named(version);
}

/// Whether a text is the identifier for headers: the text of the first `x-request-id` where that is
/// readable, and otherwise a fresh one.
pub open spec fn is_kept_or_fresh(id: Seq<char>, lines: Seq<HeaderLine>) -> bool {
    let values = values_of(lines, "x-request-id"@);
    &&& values.len() > 0 ==> forall|text: Seq<char>| #[trigger]
        reads_as(values[0], text) ==> id == text
    &&& values.len() == 0 || (forall|text: Seq<char>| !#[trigger] reads_as(values[0], text))
        ==> is_fresh(id) && is_uuid_text(id)
}

/// A request keeps the identifier that its headers carry, and gets a fresh one where they carry
/// none; with the switch on, it gets one that no header can carry.
pub proof fn law_identifier_is_kept_or_fresh(
    headers: http::HeaderMap<http::HeaderValue>,
    overrides: AxumOverrides,
    r: String,
)
    requires
        call_ensures(choose_request_id, (&headers, &overrides), r),
    ensures
        !overrides.invalid_request_id ==> is_kept_or_fresh(r@, header_lines(headers)),
        overrides.invalid_request_id ==> !is_header_text(r@),
{
    law_request_keeps_its_identifier(r@, header_lines(headers), overrides);
}

/// Whether lines carry an identifier: just one `x-request-id`, which says it, or says that it is
/// invalid where no header can carry it, and every other name with the values it had.
pub open spec fn carries_id(
    after: Seq<HeaderLine>,
    before: Seq<HeaderLine>,
    id: Seq<char>,
) -> bool {
    &&& is_header_text(id) ==> values_of(after, "x-request-id"@) == seq![encode_utf8(id)]
    &&& !is_header_text(id) ==> values_of(after, "x-request-id"@) == seq![
        encode_utf8("invalid-request-id"@),
    ]
    &&& forall|other: Seq<char>|
        other != "x-request-id"@ ==> #[trigger] values_of(after, other) == values_of(before, other)
}

/// Headers carry the identifier that they are given; those without room for another name stay as
/// they are, and those with few names have room.
pub proof fn law_headers_carry_the_identifier(
    headers: &mut http::HeaderMap<http::HeaderValue>,
    request_id: &str,
    r: bool,
)
    requires
        call_ensures(assign_request_id, (headers, request_id), r),
    ensures
        names_in(header_lines(*old(headers))).len() <= 6553 ==> r,
        r ==> carries_id(header_lines(*final(headers)), header_lines(*old(headers)), request_id@),
        !r ==> header_lines(*final(headers)) == header_lines(*old(headers)),
{
    law_header_says_the_identifier(request_id@);
}

/// A request that is taken in keeps or gets its identifier, which its headers carry from then on,
/// and its context has the identifier, the logger, and no calls.
pub proof fn law_request_is_taken_in(
    headers: &mut http::HeaderMap<http::HeaderValue>,
    overrides: AxumOverrides,
    logger: Arc<Logger>,
    r: Option<WelogContext>,
)
    requires
        call_ensures(accept_request, (headers, &overrides, logger), r),
    ensures
        names_in(header_lines(*old(headers))).len() <= 6553 ==> r is Some,
        r is None ==> header_lines(*final(headers)) == header_lines(*old(headers)),
        r matches Some(ctx) ==> {
            &&& ctx.logger == logger
            &&& ctx.client_log@.len() == 0
            &&& !overrides.invalid_request_id ==> is_kept_or_fresh(
                ctx.request_id@,
                header_lines(*old(headers)),
            )
            &&& carries_id(
                header_lines(*final(headers)),
                header_lines(*old(headers)),
                ctx.request_id@,
            )
        },
{
    if let Some(ctx) = r {
        law_request_keeps_its_identifier(
            ctx.request_id@,
            header_lines(*old(headers)),
            overrides,
        );
        law_header_says_the_identifier(ctx.request_id@);
    }
}

/// The response to a request carries the identifier of the request, in place of any other.
pub proof fn law_response_carries_the_identifier(
    headers: &mut http::HeaderMap<http::HeaderValue>,
    ctx: WelogContext,
    r: bool,
)
    requires
        call_ensures(answer_request, (headers, &ctx), r),
    ensures
        names_in(header_lines(*old(headers))).len() <= 6553 ==> r,
        r ==> carries_id(
            header_lines(*final(headers)),
            header_lines(*old(headers)),
            ctx.request_id@,
        ),
        !r ==> header_lines(*final(headers)) == header_lines(*old(headers)),
{
    law_header_says_the_identifier(ctx.request_id@);
}

/// The latency that is logged is the one that was measured, and the longest of all with the switch
/// on.
pub open spec fn latency_to_log(overrides: AxumOverrides, latency: Latency) -> Latency {
    if overrides.latency_overflow {
        Latency { secs: 0xffff_ffff_ffff_ffff, nanos: 0 }
    } else {
        latency
    }
}

/// What is logged of an exchange, in given surroundings, tells the request and the response, and
/// the calls that the context kept, which it then has no more.
pub proof fn law_exchange_is_logged_at(
    ctx: &mut WelogContext,
    overrides: AxumOverrides,
    e: AxumExchange<'_>,
    at: Surroundings,
    r: LogEntry,
)
    requires
        call_ensures(log_axum_at, (ctx, &overrides, &e, at), r),
    ensures
        tells_request(members(r.record), old(ctx).request_id@, e),
        tells_response(
            members(r.record),
            e,
            latency_to_log(overrides, e.latency),
            entries(old(ctx).client_log@),
            at.user@,
            at.offset,
        ),
        tells_schema(members(r.record), old(ctx).request_id@, e, at.user@),
        is_record_and_line(r, logged_part(members(r.record)), at.now),
        final(ctx).request_id@ == old(ctx).request_id@,
        final(ctx).logger == old(ctx).logger,
        final(ctx).client_log@.len() == 0,
{
    let latency = logged_latency(overrides, e.latency);
    let targets = entries(old(ctx).client_log@);
    law_record_tells_the_request(
        r,
        old(ctx).request_id@,
        e,
        latency,
        targets,
        at.user@,
        at.offset,
        at.now,
    );
    law_record_tells_the_response(
        r,
        old(ctx).request_id@,
        e,
        latency,
        targets,
        at.user@,
        at.offset,
        at.now,
    );
    law_schema_fields_tell_the_exchange(
        r,
        old(ctx).request_id@,
        e,
        latency,
        targets,
        at.user@,
        at.offset,
        at.now,
    );
    lemma_exchange_fields_found(
        r,
        old(ctx).request_id@,
        e,
        latency,
        targets,
        at.user@,
        at.offset,
        at.now,
    );
    lemma_record_and_line(r, logged_part(members(r.record)), at.now);
}

/// What is logged of an exchange tells the request and the response, the user that the system
/// tells, the response's time on the machine's clock, and the calls that the context kept, which it
/// then has no more.
pub proof fn law_exchange_is_logged(
    ctx: &mut WelogContext,
    overrides: AxumOverrides,
    e: AxumExchange<'_>,
    r: LogEntry,
)
    requires
        call_ensures(log_axum, (ctx, &overrides, &e), r),
    ensures
        tells_request(members(r.record), old(ctx).request_id@, e),
        exists|user: Seq<char>, offset: i32| #[trigger]
            tells_response(
                members(r.record),
                e,
                latency_to_log(overrides, e.latency),
                entries(old(ctx).client_log@),
                user,
                offset,
            ) && tells_schema(members(r.record), old(ctx).request_id@, e, user) && is_told_user(
                user,
            ) && is_response_offset(
                e.request_time,
                latency_to_log(overrides, e.latency),
                offset,
            ),
        exists|now: UtcInstant| #[trigger]
            is_record_and_line(r, logged_part(members(r.record)), now) && clock_gave(now),
        final(ctx).request_id@ == old(ctx).request_id@,
        final(ctx).logger == old(ctx).logger,
        final(ctx).client_log@.len() == 0,
{
    let latency = logged_latency(overrides, e.latency);
    let targets = entries(old(ctx).client_log@);
    let (user, offset, now) = choose|user: Seq<char>, offset: i32, now: UtcInstant|
        is_response_offset(e.request_time, latency, offset) && is_told_user(user) && clock_gave(
            now,
        ) && now.ok() && #[trigger] logs_exchange(
            r,
            old(ctx).request_id@,
            e,
            latency,
            targets,
            user,
            offset,
            now,
        );
    law_record_tells_the_request(
        r,
        old(ctx).request_id@,
        e,
        latency,
        targets,
        user,
        offset,
        now,
    );
    law_record_tells_the_response(
        r,
        old(ctx).request_id@,
        e,
        latency,
        targets,
        user,
        offset,
        now,
    );
    law_schema_fields_tell_the_exchange(
        r,
        old(ctx).request_id@,
        e,
        latency,
        targets,
        user,
        offset,
        now,
    );
    lemma_exchange_fields_found(
        r,
        old(ctx).request_id@,
        e,
        latency,
        targets,
        user,
        offset,
        now,
    );
    lemma_record_and_line(r, logged_part(members(r.record)), now);
    assert(is_record_and_line(r, logged_part(members(r.record)), now));
    assert(latency == latency_to_log(overrides, e.latency));
    assert(tells_response(
        members(r.record),
        e,
        latency_to_log(overrides, e.latency),
        targets,
        user,
        offset,
    ));
}

/// A call to another service is kept behind those that came before it, up to a thousand, and the
/// rest of the context stays as it is.
pub proof fn law_client_call_is_kept(
    ctx: &mut WelogContext,
    req: TargetRequest,
    res: TargetResponse,
)
    requires
        call_ensures(log_axum_client, (ctx, req, res), ()),
    ensures
        ({
            let before = entries(old(ctx).client_log@);
            let after = entries(final(ctx).client_log@);
            &&& before.len() >= 1000 ==> after == before
            &&& before.len() < 1000 ==> after.len() == before.len() + 1 && after.drop_last()
                == before
            &&& before.len() < 1000 ==> exists|offset: i32| #[trigger]
                tells_target(after.last(), req, res, offset) && is_response_offset(
                    req.timestamp,
                    res.latency,
                    offset,
                )
        }),
        final(ctx).request_id@ == old(ctx).request_id@,
        final(ctx).logger == old(ctx).logger,
{
    let before = entries(old(ctx).client_log@);
    let offset = choose|offset: i32|
        is_response_offset(req.timestamp, res.latency, offset) && entries(final(ctx).client_log@)
            == crate::client_log::appended(
            before,
            #[trigger] target_members(req, res, offset),
        );
    law_call_is_kept_behind_the_others(before, target_members(req, res, offset));
    lemma_tells_target(req, res, offset);
    if before.len() < 1000 {
        assert(tells_target(entries(final(ctx).client_log@).last(), req, res, offset));
    }
}

/// A new context has the identifier and the logger that it is made with, and no calls.
pub proof fn law_new_context_is_empty(request_id: String, logger: Arc<Logger>, r: WelogContext)
    requires
        call_ensures(WelogContext::new, (request_id, logger), r),
    ensures
        r.request_id@ == request_id@,
        r.logger == logger,
        r.client_log@.len() == 0,
{
}

/// A context gives the identifier and the logger that it has.
pub proof fn law_context_gives_what_it_has(ctx: WelogContext, id: &str, logger: Arc<Logger>)
    requires
        call_ensures(WelogContext::request_id, (&ctx,), id),
        call_ensures(WelogContext::logger, (&ctx,), logger),
    ensures
        id@ == ctx.request_id@,
        logger == ctx.logger,
{
}

/// The layer puts the middleware around the service that it is given.
pub proof fn law_layer_wraps_the_service<S>(layer: WelogLayer, inner: S, r: WelogMiddleware<S>)
    requires
        call_ensures(WelogLayer::layer::<S>, (&layer, inner), r),
    ensures
        r.inner == inner,
{
}

/// Each switch is set as it is told and leaves the other alone; at first, none is on.
pub proof fn law_switches_are_set(
    fresh: AxumOverrides,
    first: &mut AxumOverrides,
    second: &mut AxumOverrides,
    enabled: bool,
)
    requires
        call_ensures(AxumOverrides::new, (), fresh),
        call_ensures(coverage_force_invalid_request_id, (first, enabled), ()),
        call_ensures(coverage_force_latency_overflow, (second, enabled), ()),
    ensures
        !fresh.invalid_request_id && !fresh.latency_overflow,
        final(first).invalid_request_id == enabled,
        final(first).latency_overflow == old(first).latency_overflow,
        final(second).latency_overflow == enabled,
        final(second).invalid_request_id == old(second).invalid_request_id,
{
}

/// The fields of an exchange, before they are enriched, tell the request and the response, in given
/// surroundings, and the calls that the context kept, which it then has no more.
pub proof fn law_fields_of_an_exchange_are_made(
    ctx: &mut WelogContext,
    e: AxumExchange<'_>,
    latency: Latency,
    user: String,
    offset: i32,
    r: LogFields,
)
    requires
        call_ensures(axum_fields_at, (ctx, &e, latency, user, offset), r),
    ensures
        tells_request(members(r), old(ctx).request_id@, e),
        tells_response(members(r), e, latency, entries(old(ctx).client_log@), user@, offset),
        final(ctx).request_id@ == old(ctx).request_id@,
        final(ctx).logger == old(ctx).logger,
        final(ctx).client_log@.len() == 0,
{
    law_fields_tell_the_exchange(
        old(ctx).request_id@,
        e,
        latency,
        entries(old(ctx).client_log@),
        user@,
        offset,
    );
}

} // verus!
