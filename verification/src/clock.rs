//! Instants, latencies, and the calls into chrono.

use vstd::prelude::*;

use crate::json::{json, text_in, Json};

verus! {

/// Nanoseconds in a second.
pub const NANOS_PER_SEC: u32 = 1_000_000_000;

/// Seconds in a day.
pub const SECS_PER_DAY: i64 = 86_400;

/// The first second that chrono can represent, in Unix time.
pub const MIN_SECS: i64 = -8_334_601_228_800;

/// The last second that chrono can represent, in Unix time.
pub const MAX_SECS: i64 = 8_210_266_876_799;

/// An instant as chrono keeps it: Unix seconds, and nanoseconds that reach past a full second
/// within a leap second.
#[derive(Clone, Copy, Debug, PartialEq, Eq, Structural)]
pub struct UtcInstant {
    pub secs: i64,
    pub nanos: u32,
}

/// An instant together with the UTC offset, in seconds, of the clock that showed it.
#[derive(Clone, Copy, Debug, PartialEq, Eq, Structural)]
pub struct Timestamp {
    pub instant: UtcInstant,
    pub offset: i32,
}

/// A span of time as `std::time::Duration` keeps it.
#[derive(Clone, Copy, Debug, PartialEq, Eq, Structural)]
pub struct Latency {
    pub secs: u64,
    pub nanos: u32,
}

/// Whether chrono can represent a second.
pub open spec fn in_range(secs: int) -> bool {
    MIN_SECS <= secs <= MAX_SECS
}

/// Whether a number of seconds is an offset from UTC: less than a day.
pub open spec fn is_offset(offset: int) -> bool {
    -86_400 < offset < 86_400
}

impl UtcInstant {
    /// Whether chrono can represent the instant.
    pub open spec fn ok(self) -> bool {
        &&& in_range(self.secs as int)
        &&& self.nanos < NANOS_PER_SEC || (self.nanos < 2 * NANOS_PER_SEC && self.secs % 60 == 59)
    }
}

impl Timestamp {
    /// Whether chrono can represent the instant and its local time.
    pub open spec fn ok(self) -> bool {
        &&& self.instant.ok()
        &&& is_offset(self.offset as int)
        &&& in_range(self.instant.secs + self.offset)
    }
}

impl Latency {
    /// Whether the nanoseconds stay below a full second.
    pub open spec fn ok(self) -> bool {
        self.nanos < NANOS_PER_SEC
    }

    /// The span in nanoseconds.
    pub open spec fn total_nanos(self) -> int {
        self.secs * 1_000_000_000 + self.nanos
    }

    /// Whether chrono can represent the span: at most `i64::MAX` milliseconds.
    pub open spec fn fits(self) -> bool {
        self.total_nanos() <= i64::MAX * 1_000_000
    }
}

/// The nanoseconds from one instant to another. A leap second counts where the time of day shows
/// that it lies between the two.
pub open spec fn elapsed(start: UtcInstant, end: UtcInstant) -> int {
    let start_of_day: int = start.secs as int % 86_400;
    let end_of_day: int = end.secs as int % 86_400;
    let leap: int = if end_of_day > start_of_day && start.nanos >= NANOS_PER_SEC {
        1
    } else if end_of_day < start_of_day && end.nanos >= NANOS_PER_SEC {
        -1
    } else {
        0
    };
    (end.secs - start.secs + leap) * 1_000_000_000 + (end.nanos - start.nanos)
}

/// The Unix second and the nanoseconds at which a span ends that starts at `start`. A span that
/// leaves a leap second counts from the second before it.
pub open spec fn end_of(start: UtcInstant, secs: int, nanos: int) -> (int, int) {
    if start.nanos >= NANOS_PER_SEC && secs == 0 && start.nanos + nanos < 2 * NANOS_PER_SEC {
        (start.secs as int, start.nanos + nanos)
    } else {
        let from: int = if start.nanos >= NANOS_PER_SEC {
            start.nanos - NANOS_PER_SEC
        } else {
            start.nanos as int
        };
        (
            start.secs + secs + (from + nanos) / 1_000_000_000,
            (from + nanos) % 1_000_000_000,
        )
    }
}

/// The second at which a response comes, for a request at `start`.
pub open spec fn response_secs(start: UtcInstant, latency: Latency) -> int {
    if latency.fits() {
        end_of(start, latency.secs as int, latency.nanos as int).0
    } else {
        start.secs as int
    }
}

/// The instant of a response: the request's instant and the latency. A latency that chrono cannot
/// represent counts as none.
pub open spec fn response_instant(start: UtcInstant, latency: Latency) -> UtcInstant {
    if latency.fits() {
        let end = end_of(start, latency.secs as int, latency.nanos as int);
        UtcInstant { secs: end.0 as i64, nanos: end.1 as u32 }
    } else {
        start
    }
}

/// Whether the response's instant can be shown by every clock.
pub open spec fn response_shown(start: UtcInstant, latency: Latency) -> bool {
    MIN_SECS + SECS_PER_DAY <= response_secs(start, latency) <= MAX_SECS - SECS_PER_DAY
}

/// Whether chrono can represent a request's time and its response's, the latter on a clock at
/// `offset`.
pub open spec fn times_ok_at(request: Timestamp, latency: Latency, offset: i32) -> bool {
    &&& request.ok()
    &&& latency.ok()
    &&& is_offset(offset as int)
    &&& in_range(response_secs(request.instant, latency))
    &&& in_range(response_secs(request.instant, latency) + offset)
}

/// Whether chrono can represent a request's time and its response's, on every clock.
pub open spec fn times_ok(request: Timestamp, latency: Latency) -> bool {
    &&& request.ok()
    &&& latency.ok()
    &&& response_shown(request.instant, latency)
}

/// Whether a request and its response, on a clock at `offset`, are logged with times that tell the
/// latency: both texts read back, the request is outside a leap second, and the latency fits in
/// the numbers of a log.
pub open spec fn latency_shown(request: Timestamp, latency: Latency, offset: i32) -> bool {
    &&& reads_back(request.instant.secs as int, request.offset as int)
    &&& reads_back(response_secs(request.instant, latency), offset as int)
    &&& request.instant.nanos < NANOS_PER_SEC
    &&& latency.fits()
    &&& latency.total_nanos() <= i64::MAX
}

/// What chrono's `to_rfc3339_opts` writes, with nanoseconds and `Z` for UTC, for an instant that a
/// clock at `offset` shows.
pub uninterp spec fn rfc3339_text(secs: i64, nanos: u32, offset: i32) -> Seq<char>;

/// The instant that chrono's `parse_from_rfc3339` reads, `None` where it reports an error.
pub uninterp spec fn rfc3339_instant(text: Seq<char>) -> Option<(i64, u32)>;

/// What chrono's `format` writes with `%Y-%m-%d` for a Unix second in UTC.
pub uninterp spec fn date_text(secs: i64) -> Seq<char>;

/// What the `Debug` impl of `std::time::Duration` writes.
pub uninterp spec fn duration_text(secs: u64, nanos: u32) -> Seq<char>;

/// The RFC 3339 text of a timestamp.
pub open spec fn timestamp_text(t: Timestamp) -> Seq<char> {
    rfc3339_text(t.instant.secs, t.instant.nanos, t.offset)
}

/// The RFC 3339 text of the response's time on a clock at `offset`.
pub open spec fn response_text(start: UtcInstant, latency: Latency, offset: i32) -> Seq<char> {
    let end = response_instant(start, latency);
    rfc3339_text(end.secs, end.nanos, offset)
}

/// The instant that an RFC 3339 text stands for.
pub open spec fn instant_in(text: Seq<char>) -> Option<UtcInstant> {
    match rfc3339_instant(text) {
        Some(at) => Some(UtcInstant { secs: at.0, nanos: at.1 }),
        None => None,
    }
}

/// Whether the RFC 3339 text of a timestamp reads back: four digits hold the year, and the offset
/// is in whole minutes.
pub open spec fn reads_back(secs: int, offset: int) -> bool {
    &&& -62_167_219_200 <= secs + offset <= 253_402_300_799
    &&& offset % 60 == 0
}

/// `chrono::Utc::now`: the current time, after 1970 and outside a leap second. Which time it is,
/// is not specified.
#[verifier::external_body]
pub(crate) fn utc_now() -> (r: UtcInstant)
    ensures
        r.ok(),
        r.secs >= 0,
        r.nanos < NANOS_PER_SEC,
{
    let now = chrono::Utc::now();
    UtcInstant { secs: now.timestamp(), nanos: now.timestamp_subsec_nanos() }
}

/// Whether the clock can show this time as the current one: a call of `utc_now` gives it.
pub open(crate) spec fn clock_gave(now: UtcInstant) -> bool {
    call_ensures(utc_now, (), now)
}

/// A time that the clock gave comes from the clock, and chrono represents it.
pub(crate) proof fn law_time_comes_from_the_clock(now: UtcInstant)
    requires
        clock_gave(now),
    ensures
        call_ensures(utc_now, (), now),
        now.ok(),
{
}

/// Whether the machine's time zone can have this offset at an instant: a call of `local_offset`
/// gives it.
pub open(crate) spec fn zone_gave(at: UtcInstant, offset: i32) -> bool {
    call_ensures(local_offset, (at,), offset)
}

/// An offset that the time zone gave comes from the time zone, for that instant.
pub(crate) proof fn law_offset_comes_from_the_time_zone(at: UtcInstant, offset: i32)
    requires
        zone_gave(at, offset),
    ensures
        call_ensures(local_offset, (at,), offset),
        is_offset(offset as int),
{
}

/// The offset of `chrono::Local` at an instant: less than a day. It depends on the time zone of
/// the machine and is not specified any further.
#[verifier::external_body]
pub(crate) fn local_offset(at: UtcInstant) -> (r: i32)
    requires
        at.ok(),
    ensures
        is_offset(r as int),
{
    let utc = chrono::DateTime::from_timestamp(at.secs, at.nanos).unwrap();
    utc.with_timezone(&chrono::Local).offset().local_minus_utc()
}

/// `chrono::DateTime::to_rfc3339_opts` with nanoseconds and `Z` for UTC. What the text looks like
/// is left to the name `rfc3339_text`; where `reads_back` holds, `parse_from_rfc3339` gives the
/// instant back.
#[verifier::external_body]
pub(crate) fn format_rfc3339(at: UtcInstant, offset: i32) -> (r: String)
    requires
        at.ok(),
        is_offset(offset as int),
        in_range(at.secs + offset),
    ensures
        r@ == rfc3339_text(at.secs, at.nanos, offset),
        reads_back(at.secs as int, offset as int) ==> rfc3339_instant(r@) == Some(
            (at.secs, at.nanos),
        ),
{
    let zone = chrono::FixedOffset::east_opt(offset).unwrap();
    let utc = chrono::DateTime::from_timestamp(at.secs, at.nanos).unwrap();
    utc.with_timezone(&zone).to_rfc3339_opts(chrono::SecondsFormat::Nanos, true)
}

/// `chrono::DateTime::parse_from_rfc3339`, then the instant in UTC. Which texts it accepts is left
/// to the name `rfc3339_instant`; an instant that it gives is one that chrono represents.
#[verifier::external_body]
pub(crate) fn parse_rfc3339(text: &str) -> (r: Option<UtcInstant>)
    ensures
        r == instant_in(text@),
        r is Some ==> r->0.ok(),
{
    let parsed = chrono::DateTime::parse_from_rfc3339(text).ok()?.with_timezone(&chrono::Utc);
    Some(UtcInstant { secs: parsed.timestamp(), nanos: parsed.timestamp_subsec_nanos() })
}

/// `chrono::TimeDelta::from_std`: the seconds and nanoseconds of a span that chrono can represent,
/// nothing for a longer one.
#[verifier::external_body]
pub(crate) fn delta_of(latency: Latency) -> (r: Option<(i64, u32)>)
    requires
        latency.ok(),
    ensures
        r is Some <==> latency.fits(),
        r matches Some(d) ==> d.0 == latency.secs && d.1 == latency.nanos,
{
    let span = std::time::Duration::new(latency.secs, latency.nanos);
    let delta = chrono::TimeDelta::from_std(span).ok()?;
    Some((delta.num_seconds(), delta.subsec_nanos() as u32))
}

/// The sum of a `chrono::DateTime<Utc>` and a `chrono::TimeDelta` that is not negative.
#[verifier::external_body]
pub(crate) fn advance(start: UtcInstant, secs: i64, nanos: u32) -> (r: UtcInstant)
    requires
        start.ok(),
        0 <= secs,
        nanos < NANOS_PER_SEC,
        secs * 1_000_000_000 + nanos <= i64::MAX * 1_000_000,
        in_range(end_of(start, secs as int, nanos as int).0),
    ensures
        r.ok(),
        (r.secs as int, r.nanos as int) == end_of(start, secs as int, nanos as int),
{
    let delta = chrono::TimeDelta::new(secs, nanos).unwrap();
    let end = chrono::DateTime::from_timestamp(start.secs, start.nanos).unwrap() + delta;
    UtcInstant { secs: end.timestamp(), nanos: end.timestamp_subsec_nanos() }
}

/// `chrono::DateTime::signed_duration_since` with `num_nanoseconds`: the elapsed nanoseconds,
/// nothing where they do not fit in an `i64`.
#[verifier::external_body]
pub(crate) fn nanos_between(start: UtcInstant, end: UtcInstant) -> (r: Option<i64>)
    requires
        start.ok(),
        end.ok(),
    ensures
        r is Some <==> i64::MIN <= elapsed(start, end) <= i64::MAX,
        r is Some ==> r->0 == elapsed(start, end),
{
    let from = chrono::DateTime::from_timestamp(start.secs, start.nanos).unwrap();
    let to = chrono::DateTime::from_timestamp(end.secs, end.nanos).unwrap();
    to.signed_duration_since(from).num_nanoseconds()
}

/// `chrono::DateTime::format` with `%Y-%m-%d` in UTC. What the text looks like is left to the name
/// `date_text`.
#[verifier::external_body]
pub(crate) fn format_date(secs: i64) -> (r: String)
    requires
        in_range(secs as int),
    ensures
        r@ == date_text(secs),
{
    chrono::DateTime::from_timestamp(secs, 0).unwrap().format("%Y-%m-%d").to_string()
}

/// The `Debug` impl of `std::time::Duration`. What the text looks like is left to the name
/// `duration_text`.
#[verifier::external_body]
pub(crate) fn debug_latency(latency: Latency) -> (r: String)
    requires
        latency.ok(),
    ensures
        r@ == duration_text(latency.secs, latency.nanos),
{
    format!("{:?}", std::time::Duration::new(latency.secs, latency.nanos))
}

impl Timestamp {
    /// The RFC 3339 text of the timestamp, with nanoseconds.
    pub fn to_rfc3339(&self) -> (r: String)
        requires
            self.ok(),
        ensures
            r@ == timestamp_text(*self),
            reads_back(self.instant.secs as int, self.offset as int) ==> instant_in(r@) == Some(
                self.instant,
            ),
    {
        format_rfc3339(self.instant, self.offset)
    }
}

/// The instant of the response to a request at `start`: the latency later, and at once where
/// chrono cannot represent the latency.
pub fn respond_after(start: UtcInstant, latency: Latency) -> (r: UtcInstant)
    requires
        start.ok(),
        latency.ok(),
        in_range(response_secs(start, latency)),
    ensures
        r.ok(),
        r == response_instant(start, latency),
        r.secs == response_secs(start, latency),
{
    match delta_of(latency) {
        Some((secs, nanos)) => advance(start, secs, nanos),
        None => start,
    }
}

/// The RFC 3339 text of the response's time on a clock at `offset`.
pub fn response_to_rfc3339(request: Timestamp, latency: Latency, offset: i32) -> (r: String)
    requires
        times_ok_at(request, latency, offset),
    ensures
        r@ == response_text(request.instant, latency, offset),
        reads_back(response_secs(request.instant, latency), offset as int) ==> instant_in(r@)
            == Some(response_instant(request.instant, latency)),
{
    format_rfc3339(respond_after(request.instant, latency), offset)
}

/// Whether a response's time may be shown on a clock at `offset`: the request's clock where chrono
/// cannot represent the latency, and otherwise the machine's when the response comes.
pub open spec fn is_response_offset(request: Timestamp, latency: Latency, offset: i32) -> bool {
    &&& is_offset(offset as int)
    &&& !latency.fits() ==> offset == request.offset
    &&& latency.fits() ==> zone_gave(response_instant(request.instant, latency), offset)
}

/// The UTC offset of the machine's clock when the response comes. A response whose latency chrono
/// cannot represent is shown at the request's time, as the request shows it.
pub(crate) fn response_offset(request: Timestamp, latency: Latency) -> (r: i32)
    requires
        times_ok(request, latency),
    ensures
        times_ok_at(request, latency, r),
        is_response_offset(request, latency, r),
{
    match delta_of(latency) {
        Some((secs, nanos)) => local_offset(advance(request.instant, secs, nanos)),
        None => request.offset,
    }
}

/// Whether the times of a request and its response are within what chrono represents, whatever
/// clock shows them.
pub fn times_fit(request: Timestamp, latency: Latency) -> (r: bool)
    ensures
        r == times_ok(request, latency),
{
    let at = request.instant;
    let leap = at.nanos >= NANOS_PER_SEC;
    if at.secs < MIN_SECS || at.secs > MAX_SECS || request.offset <= -86_400 || request.offset
        >= 86_400 || latency.nanos >= NANOS_PER_SEC {
        return false;
    }
    let local: i64 = at.secs + request.offset as i64;
    if local < MIN_SECS || local > MAX_SECS || at.nanos >= 2 * NANOS_PER_SEC {
        return false;
    }
    // Before 1970 the remainder is negative, so count from the first second, which starts a
    // minute.
    let from_start: i64 = at.secs - MIN_SECS;
    if leap && from_start % 60 != 59 {
        return false;
    }
    match delta_of(latency) {
        Some((secs, nanos)) => {
            let from: u32 = if leap {
                at.nanos - NANOS_PER_SEC
            } else {
                at.nanos
            };
            let stays = leap && secs == 0 && from + nanos < NANOS_PER_SEC;
            let carry: i64 = if !stays && from + nanos >= NANOS_PER_SEC {
                1
            } else {
                0
            };
            let end: i64 = at.secs + secs + carry;
            MIN_SECS + SECS_PER_DAY <= end && end <= MAX_SECS - SECS_PER_DAY
        },
        None => MIN_SECS + SECS_PER_DAY <= at.secs && at.secs <= MAX_SECS - SECS_PER_DAY,
    }
}

/// The nanoseconds from `start` to `end`; nothing where `end` comes first or where they do not fit
/// in an `i64`.
pub fn duration_nanos(start: UtcInstant, end: UtcInstant) -> (r: Option<u64>)
    requires
        start.ok(),
        end.ok(),
    ensures
        r == duration_of(start, end),
{
    match nanos_between(start, end) {
        Some(nanos) => if nanos < 0 {
            None
        } else {
            Some(nanos as u64)
        },
        None => None,
    }
}

/// The nanoseconds from `start` to `end` that a log can carry.
pub open spec fn duration_of(start: UtcInstant, end: UtcInstant) -> Option<u64> {
    if 0 <= elapsed(start, end) <= i64::MAX {
        Some(elapsed(start, end) as u64)
    } else {
        None
    }
}

/// The instant that a log field holds as RFC 3339 text.
pub fn parse_timestamp(value: Option<&serde_json::Value>) -> (r: Option<UtcInstant>)
    ensures
        r == (match value {
            Some(v) => instant_in_json(json(*v)),
            None => None,
        }),
        r is Some ==> r->0.ok(),
{
    match value {
        Some(v) => match v.as_str() {
            Some(text) => parse_rfc3339(text),
            None => None,
        },
        None => None,
    }
}

/// The instant that a JSON value holds as RFC 3339 text.
pub open spec fn instant_in_json(value: Json) -> Option<UtcInstant> {
    match text_in(value) {
        Some(text) => instant_in(text),
        None => None,
    }
}

/// The time from a request to its response, as the two instants show it, is the latency, for every
/// latency that chrono represents and every request outside a leap second.
pub proof fn law_elapsed_is_latency(start: UtcInstant, latency: Latency)
    requires
        start.ok(),
        start.nanos < NANOS_PER_SEC,
        latency.ok(),
        latency.fits(),
        in_range(response_secs(start, latency)),
    ensures
        elapsed(start, response_instant(start, latency)) == latency.total_nanos(),
{
}

/// Whether the texts of a request's time and of its response's, on a clock at `offset`, are read
/// back as the two instants, each where it reads back, and where both do, lie the latency apart,
/// for every latency that chrono represents and every request outside a leap second.
pub open spec fn times_read_back(request: Timestamp, latency: Latency, offset: i32) -> bool {
    let sent = instant_in(timestamp_text(request));
    let received = instant_in(response_text(request.instant, latency, offset));
    let sent_reads_back = reads_back(request.instant.secs as int, request.offset as int);
    let received_reads_back = reads_back(response_secs(request.instant, latency), offset as int);
    &&& sent_reads_back ==> sent == Some(request.instant)
    &&& received_reads_back ==> received == Some(response_instant(request.instant, latency))
    &&& sent_reads_back && received_reads_back && latency.fits() && request.instant.nanos
        < NANOS_PER_SEC ==> elapsed(sent->0, received->0) == latency.total_nanos()
}

/// A latency that chrono cannot represent leaves the response at the request's instant, and its
/// time is shown with the same text as the request's.
pub proof fn law_oversized_latency_is_dropped(request: Timestamp, latency: Latency, offset: i32)
    requires
        !latency.fits(),
        is_response_offset(request, latency, offset),
    ensures
        response_instant(request.instant, latency) == request.instant,
        response_text(request.instant, latency, offset) == timestamp_text(request),
        duration_of(request.instant, response_instant(request.instant, latency)) == Some(0u64),
{
}

/// The response comes the latency after the request, to the nanosecond, for every request outside a
/// leap second and every latency up to the longest that chrono represents.
pub proof fn law_response_comes_after_the_latency(start: UtcInstant, latency: Latency)
    requires
        start.ok(),
        start.nanos < 1_000_000_000,
        latency.nanos < 1_000_000_000,
        latency.secs < 9_223_372_036_854_775,
        in_range(response_secs(start, latency)),
    ensures
        latency.fits(),
        response_secs(start, latency) == response_instant(start, latency).secs,
        response_instant(start, latency).nanos < 1_000_000_000,
        response_instant(start, latency).secs * 1_000_000_000 + response_instant(
            start,
            latency,
        ).nanos == start.secs * 1_000_000_000 + start.nanos + latency.secs * 1_000_000_000
            + latency.nanos,
{
}

/// The duration from one instant to a later one is the nanoseconds between them; there is none
/// where the second one is earlier, for instants outside leap seconds.
pub proof fn law_duration_is_the_time_between(start: UtcInstant, end: UtcInstant)
    requires
        start.nanos < 1_000_000_000,
        end.nanos < 1_000_000_000,
    ensures
        ({
            let between = (end.secs * 1_000_000_000 + end.nanos) - (start.secs * 1_000_000_000
                + start.nanos);
            duration_of(start, end) == (if 0 <= between <= 0x7fff_ffff_ffff_ffff {
                Some(between as u64)
            } else {
                None
            })
        }),
{
}

/// A timestamp is shown as its instant on its own clock, and a response as the instant of the
/// response on the clock that it is shown on.
pub proof fn law_texts_show_the_times(request: Timestamp, latency: Latency, offset: i32)
    ensures
        timestamp_text(request) == rfc3339_text(
            request.instant.secs,
            request.instant.nanos,
            request.offset,
        ),
        response_text(request.instant, latency, offset) == rfc3339_text(
            response_instant(request.instant, latency).secs,
            response_instant(request.instant, latency).nanos,
            offset,
        ),
{
}

/// A field holds a time only where it is a text that reads as one.
pub proof fn law_only_text_holds_a_time(value: Json)
    ensures
        (match value {
            Json::Text(text) => match rfc3339_instant(text) {
                Some((secs, nanos)) => instant_in_json(value) == Some(UtcInstant { secs, nanos }),
                None => instant_in_json(value) is None,
            },
            _ => instant_in_json(value) is None,
        }),
{
}

/// Times that are at least a day away from the ends of what chrono represents can be logged.
pub proof fn law_ordinary_times_can_be_logged(request: Timestamp, latency: Latency)
    requires
        -8_334_601_228_800 + 86_400 <= request.instant.secs,
        request.instant.secs + latency.secs + 1 <= 8_210_266_876_799 - 86_400,
        request.instant.nanos < 1_000_000_000 || (request.instant.nanos < 2_000_000_000
            && request.instant.secs % 60 == 59),
        -86_400 < request.offset < 86_400,
        latency.nanos < 1_000_000_000,
    ensures
        times_ok(request, latency),
        forall|offset: i32|
            -86_400 < offset < 86_400 ==> #[trigger] times_ok_at(request, latency, offset),
{
}

/// A response to a request within a leap second comes the latency after it, less the leap second
/// where it is over by then.
pub proof fn law_response_leaves_a_leap_second(start: UtcInstant, latency: Latency)
    requires
        start.ok(),
        start.nanos >= 1_000_000_000,
        latency.nanos < 1_000_000_000,
        latency.secs < 9_223_372_036_854_775,
        in_range(response_secs(start, latency)),
    ensures
        ({
            let end = response_instant(start, latency);
            let later = start.secs * 1_000_000_000 + start.nanos + latency.secs * 1_000_000_000
                + latency.nanos;
            if latency.secs == 0 && start.nanos + latency.nanos < 2_000_000_000 {
                end.secs == start.secs && end.nanos == start.nanos + latency.nanos
            } else {
                end.nanos < 1_000_000_000 && end.secs * 1_000_000_000 + end.nanos == later
                    - 1_000_000_000
            }
        }),
{
}

/// The duration of an event is the time that elapsed, leap seconds included, and there is none
/// where that is negative or too long for a log.
pub proof fn law_duration_is_the_elapsed_time(start: UtcInstant, end: UtcInstant)
    ensures
        0 <= elapsed(start, end) <= 0x7fff_ffff_ffff_ffff ==> duration_of(start, end) == Some(
            elapsed(start, end) as u64,
        ),
        elapsed(start, end) < 0 || elapsed(start, end) > 0x7fff_ffff_ffff_ffff ==> duration_of(
            start,
            end,
        ) is None,
{
}

/// The time of a response is shown with the offset that the machine's time zone has when the
/// response comes, and with the request's where chrono cannot represent the latency.
pub proof fn law_response_is_shown_on_the_machines_clock(
    request: Timestamp,
    latency: Latency,
    offset: i32,
)
    requires
        is_response_offset(request, latency, offset),
    ensures
        latency.secs < 9_223_372_036_854_775 && latency.nanos < 1_000_000_000 ==> zone_gave(
            response_instant(request.instant, latency),
            offset,
        ),
        latency.secs > 9_223_372_036_854_775 ==> offset == request.offset,
{
}

} // verus!
