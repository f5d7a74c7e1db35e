//! What the operations do that deliver records: each law speaks of a call, its arguments and what
//! it gave back.

use vstd::prelude::*;
use vstd::utf8::{encode_utf8, valid_utf8};

use crate::clock::{clock_gave, date_text, UtcInstant};
use crate::config::{
    find_var, law_last_assignment_counts, law_unassigned_variable_has_no_value, set_config, var_in,
    Config, EnvVar,
};
use crate::ecs_laws::{
    describes_end, describes_event, describes_request, describes_response,
    law_record_describes_the_end, law_record_describes_the_event,
    law_record_describes_the_request, law_record_describes_the_response, time_field,
};
use crate::elastic::{
    elastic_outcome, goes_on, law_document_goes_to_the_index_of_the_day,
    law_error_says_what_came_back, law_header_holds_the_credentials, law_only_success_means_taken,
    refusal, status_text, ElasticReply, ElasticRequest,
};
use crate::fallback::{
    build_fallback_bytes, content_of, drop_oldest_lines, fallback_line, is_line_at,
    law_fallback_file_size, law_line_is_appended_or_skipped,
    law_line_is_the_document_and_a_line_feed, law_making_room_frees_enough,
    law_making_room_keeps_whole_lines, law_newest_line_is_last, law_no_line_goes_without_need,
    law_only_what_is_needed_is_dropped, law_plan_makes_the_line_fit, law_trimming_keeps_whole_lines,
    law_trimming_stops_at_the_first_line_that_suffices, line_len, plan_fallback, trim_oldest_lines,
    write_fallback, FallbackPlan, InvalidData, Trimmer,
};
use crate::json::{
    json, json_bytes, json_string, max_depth, members, opt_bytes, opt_string, parsed_json, portable,
    Json, LogFields, Members,
};
use crate::logger::{
    finish_delivery, is_set, law_kept_line_reads_back, law_kept_record_names_the_missing_setting,
    law_printed_line_is_the_record, law_record_is_posted_only_where_all_is_set, undelivered,
    Delivery, LogEntry, Logger,
};
use crate::queue::{
    capacity_in, law_capacity_is_the_number_in_the_setting,
    law_capacity_without_a_number_is_the_default, law_only_dropped_logs_are_counted,
    queue_capacity, Drops, Notice, Offer,
};
use crate::text::{base64_text, decimal};

verus! {

/// Whether bytes are one line of JSON that holds a record, and an error under `hook_error`.
pub open spec fn line_holds(bytes: Seq<u8>, record: Members, error: Seq<char>) -> bool {
    let kept = Json::Object(record.insert("hook_error"@, Json::Text(error)));
    &&& json_bytes(kept) is Some
    &&& bytes == json_bytes(kept)->0 || bytes == json_bytes(kept)->0.push(10u8)
    &&& bytes.len() > 0 && bytes.last() == 10
    &&& !bytes.drop_last().contains(10u8)
    &&& portable(kept, max_depth()) ==> parsed_json(bytes) == Some(kept)
}

/// Whether a reply is an answer with a status from 200 to 299.
pub open spec fn is_success(reply: ElasticReply) -> bool {
    reply matches ElasticReply::Answered(code) && 200 <= code && code < 300
}

/// Whether an error says what came back.
pub open spec fn tells_reply(error: Seq<char>, reply: ElasticReply) -> bool {
    match reply {
        ElasticReply::Answered(code) => goes_on(
            error,
            "Elasticsearch HTTP error: "@,
            status_text(code),
        ),
        ElasticReply::Refused(code) => goes_on(
            error,
            "Elasticsearch HTTP error: "@,
            decimal(code as nat),
        ),
        ElasticReply::Failed(err) => goes_on(error, "Elasticsearch request error: "@, err@),
    }
}

/// A reply means that the document was taken exactly where it is an answer with a status from 200
/// to 299, and otherwise the error says what came back.
pub proof fn law_outcome_follows_the_reply(reply: ElasticReply, r: Result<(), String>)
    requires
        call_ensures(elastic_outcome, (reply,), r),
    ensures
        r is Ok <==> is_success(reply),
        r is Err ==> tells_reply(r->Err_0@, reply),
{
    law_only_success_means_taken(reply);
    if !is_success(reply) {
        law_error_says_what_came_back(reply);
    }
}

/// A record that was posted is kept exactly where the reply is no answer with a status from 200 to
/// 299, and then as one line of JSON with the record and what came back.
pub proof fn law_record_is_kept_unless_it_was_taken(
    fields: LogFields,
    reply: ElasticReply,
    r: Option<Vec<u8>>,
)
    requires
        call_ensures(finish_delivery, (&fields, reply), r),
    ensures
        r is None <==> is_success(reply),
        r is Some ==> exists|error: Seq<char>| #[trigger]
            line_holds(r->0@, members(fields), error) && tells_reply(error, reply),
{
    law_only_success_means_taken(reply);
    if !is_success(reply) {
        law_error_says_what_came_back(reply);
        let error = refusal(reply)->0;
        law_kept_line_reads_back(r->0@, members(fields), error);
        assert(line_holds(r->0@, members(fields), error));
    }
}

/// A record is kept exactly where its outcome is an error, as one line of JSON with that error.
pub proof fn law_undelivered_record_is_kept(
    fields: LogFields,
    outcome: Result<(), String>,
    r: Option<Vec<u8>>,
)
    requires
        call_ensures(undelivered, (&fields, outcome), r),
    ensures
        r is None <==> outcome is Ok,
        outcome is Err ==> line_holds(r->0@, members(fields), outcome->Err_0@),
{
    if outcome is Err {
        law_kept_line_reads_back(r->0@, members(fields), outcome->Err_0@);
    }
}

/// Whether a request posts a record on a day as the settings say: below the address without the
/// slashes at its end, into the index with the prefix and the day, and with a header for the
/// credentials where both are there.
pub open spec fn posts_as_set(
    logger: Logger,
    req: ElasticRequest,
    record: Members,
    date: Seq<char>,
) -> bool {
    &&& forall|base: Seq<char>, slashes: Seq<char>| #[trigger]
        is_base_with_slashes(logger.elastic_url->0@, base, slashes) ==> req.url@ == base + "/"@
            + logger.index_prefix->0@ + "-"@ + date + "/_doc"@
    &&& req.authorization is Some <==> logger.username is Some && logger.password is Some
    &&& req.authorization is Some ==> goes_on(
        req.authorization->0@,
        "Basic "@,
        base64_text(encode_utf8(logger.username->0@ + ":"@ + logger.password->0@)),
    )
    &&& json(req.body) == Json::Object(record)
}

/// Whether an address is a base that does not end in a slash, and slashes behind it.
pub open spec fn is_base_with_slashes(
    address: Seq<char>,
    base: Seq<char>,
    slashes: Seq<char>,
) -> bool {
    &&& address == base + slashes
    &&& base.len() > 0 ==> base.last() != '/'
    &&& forall|i: int| 0 <= i < slashes.len() ==> #[trigger] slashes[i] == '/'
}

/// What the error says of a missing address or index.
pub open spec fn first_missing(logger: Logger) -> Seq<char> {
    if !is_set(logger.elastic_url) {
        "ELASTIC_URL__ not configured"@
    } else if !is_set(logger.index_prefix) {
        "ELASTIC_INDEX__ not configured"@
    } else if !is_set(logger.username) {
        "ELASTIC_USERNAME__ not configured"@
    } else {
        "ELASTIC_PASSWORD__ not configured"@
    }
}

proof fn lemma_posts_as_set(logger: Logger, req: ElasticRequest, record: Members, date: Seq<char>)
    requires
        logger.posts(req, record, date),
        is_set(logger.elastic_url),
        is_set(logger.index_prefix),
    ensures
        posts_as_set(logger, req, record, date),
{
    assert forall|base: Seq<char>, slashes: Seq<char>| #[trigger]
        is_base_with_slashes(logger.elastic_url->0@, base, slashes) implies req.url@ == base
        + "/"@ + logger.index_prefix->0@ + "-"@ + date + "/_doc"@ by {
        law_document_goes_to_the_index_of_the_day(
            base,
            slashes,
            logger.index_prefix->0@,
            date,
        );
    }
    if logger.username is Some && logger.password is Some {
        law_header_holds_the_credentials(
            logger.username->0@,
            logger.password->0@,
            logger.username->0@,
            logger.password->0@,
        );
    }
}

/// A request for a record is made exactly where address and index are set, and posts the record as
/// the settings say, on the day of the given time; otherwise the error names the missing one.
pub proof fn law_request_posts_as_set(
    logger: Logger,
    fields: LogFields,
    now: UtcInstant,
    r: Result<ElasticRequest, String>,
)
    requires
        call_ensures(Logger::elastic_request_at, (&logger, &fields, now), r),
    ensures
        r is Ok <==> is_set(logger.elastic_url) && is_set(logger.index_prefix),
        r is Ok ==> posts_as_set(logger, r->Ok_0, members(fields), date_text(now.secs)),
        r is Err ==> r->Err_0@ == first_missing(logger),
{
    if r is Ok {
        lemma_posts_as_set(logger, r->Ok_0, members(fields), date_text(now.secs));
    }
}

/// The same without a given time: the day is that of a time that the clock gave.
pub proof fn law_request_posts_on_the_day_of_the_clock(
    logger: Logger,
    fields: LogFields,
    r: Result<ElasticRequest, String>,
)
    requires
        call_ensures(Logger::elastic_request, (&logger, &fields), r),
    ensures
        r is Ok <==> is_set(logger.elastic_url) && is_set(logger.index_prefix),
        r is Ok ==> exists|now: UtcInstant| #[trigger]
            clock_gave(now) && posts_as_set(
                logger,
                r->Ok_0,
                members(fields),
                date_text(now.secs),
            ),
        r is Err ==> r->Err_0@ == first_missing(logger),
{
    if r is Ok {
        let now = choose|now: UtcInstant|
            clock_gave(now) && now.ok() && #[trigger] logger.posts(
                r->Ok_0,
                members(fields),
                date_text(now.secs),
            );
        lemma_posts_as_set(logger, r->Ok_0, members(fields), date_text(now.secs));
    }
}

/// Whether a step posts a record on a day where all four settings are set, and otherwise keeps it
/// as one line of JSON with the name of the first that is missing or empty.
pub open spec fn posts_or_keeps(
    logger: Logger,
    step: Delivery,
    record: Members,
    date: Seq<char>,
) -> bool {
    if is_set(logger.elastic_url) && is_set(logger.index_prefix) && is_set(logger.username)
        && is_set(logger.password) {
        step matches Delivery::Post(req) && posts_as_set(logger, req, record, date)
    } else {
        step matches Delivery::Keep(line) && line_holds(line@, record, first_missing(logger))
    }
}

proof fn lemma_posts_or_keeps(logger: Logger, step: Delivery, record: Members, date: Seq<char>)
    requires
        logger.starts_with(step, record, date),
    ensures
        posts_or_keeps(logger, step, record, date),
{
    law_record_is_posted_only_where_all_is_set(logger, step, record, date);
    match step {
        Delivery::Post(req) => {
            lemma_posts_as_set(logger, req, record, date);
        },
        Delivery::Keep(line) => {
            law_kept_record_names_the_missing_setting(logger, line, record, date);
            law_kept_line_reads_back(line@, record, first_missing(logger));
        },
    }
}

/// The first step for a record posts it where all four settings are set, and otherwise keeps it
/// with the name of the first that is missing or empty.
pub proof fn law_first_step_posts_or_keeps(
    logger: Logger,
    fields: LogFields,
    now: UtcInstant,
    r: Delivery,
)
    requires
        call_ensures(Logger::start_delivery_at, (&logger, &fields, now), r),
    ensures
        posts_or_keeps(logger, r, members(fields), date_text(now.secs)),
{
    lemma_posts_or_keeps(logger, r, members(fields), date_text(now.secs));
}

/// The same without a given time: the day is that of a time that the clock gave.
pub proof fn law_first_step_goes_by_the_clock(logger: Logger, fields: LogFields, r: Delivery)
    requires
        call_ensures(Logger::start_delivery, (&logger, &fields), r),
    ensures
        exists|now: UtcInstant| #[trigger]
            clock_gave(now) && posts_or_keeps(logger, r, members(fields), date_text(now.secs)),
{
    let now = choose|now: UtcInstant|
        clock_gave(now) && now.ok() && #[trigger] logger.starts_with(
            r,
            members(fields),
            date_text(now.secs),
        );
    lemma_posts_or_keeps(logger, r, members(fields), date_text(now.secs));
}

/// Whether an entry is a record with its schema fields, and its JSON text on one line.
pub open spec fn is_record_and_line(entry: LogEntry, fields: Members, now: UtcInstant) -> bool {
    &&& describes_event(fields, members(entry.record), now)
    &&& describes_end(fields, members(entry.record))
    &&& describes_request(fields, members(entry.record))
    &&& describes_response(fields, members(entry.record))
    &&& entry.line is Some
    &&& json_string(Json::Object(members(entry.record))) == Some(entry.line->0@)
    &&& !encode_utf8(entry.line->0@).contains(10u8)
    &&& portable(Json::Object(members(entry.record)), max_depth()) ==> parsed_json(
        encode_utf8(entry.line->0@),
    ) == Some(Json::Object(members(entry.record)))
}

pub(crate) proof fn lemma_record_and_line(entry: LogEntry, fields: Members, now: UtcInstant)
    requires
        crate::logger::is_entry(entry, fields, now),
    ensures
        is_record_and_line(entry, fields, now),
{
    law_record_describes_the_event(fields, now);
    law_record_describes_the_end(fields, now);
    law_record_describes_the_request(fields, now);
    law_record_describes_the_response(fields, now);
    law_printed_line_is_the_record(entry, fields, now);
}

/// What is logged for fields at a time is the record with its schema fields, and its JSON text on
/// one line.
pub proof fn law_logged_entry_at_a_time(
    logger: Logger,
    fields: LogFields,
    now: UtcInstant,
    r: LogEntry,
)
    requires
        call_ensures(Logger::log_at, (&logger, fields, now), r),
    ensures
        is_record_and_line(r, members(fields), now),
{
    lemma_record_and_line(r, members(fields), now);
}

/// What is logged for fields is the record with its schema fields, and its JSON text on one line.
/// Where the fields state no time, the time of the record is one that the clock gave.
pub proof fn law_logged_entry_has_the_time_of_the_clock(
    logger: Logger,
    fields: LogFields,
    r: LogEntry,
)
    requires
        call_ensures(Logger::log, (&logger, fields), r),
    ensures
        exists|now: UtcInstant| #[trigger]
            is_record_and_line(r, members(fields), now) && (time_field(
                members(fields),
                "requestTimestamp"@,
            ) is None ==> clock_gave(now)),
{
    let now = choose|now: UtcInstant|
        now.ok() && (crate::ecs::field_instant(members(fields), "requestTimestamp"@) is None
            ==> clock_gave(now)) && #[trigger] crate::logger::is_entry(r, members(fields), now);
    lemma_record_and_line(r, members(fields), now);
    assert(is_record_and_line(r, members(fields), now));
}

/// Whether the last assignment of a variable gives it a value.
pub open spec fn assigned(env: Seq<EnvVar>, key: Seq<char>, value: Seq<char>) -> bool {
    exists|i: int|
        0 <= i < env.len() && (#[trigger] env[i]).key@ == key && env[i].value@ == value && forall|
            j: int,
        |
            i < j < env.len() ==> (#[trigger] env[j]).key@ != key
}

/// Whether a setting is what the environment assigns to a variable, and missing where it assigns
/// nothing.
pub open spec fn is_assigned(env: Seq<EnvVar>, key: Seq<char>, setting: Option<Seq<char>>) -> bool {
    match setting {
        Some(value) => assigned(env, key, value),
        None => forall|j: int| 0 <= j < env.len() ==> (#[trigger] env[j]).key@ != key,
    }
}

proof fn lemma_is_assigned(env: Seq<EnvVar>, key: Seq<char>)
    ensures
        is_assigned(env, key, var_in(env, key)),
    decreases env.len(),
{
    if env.len() > 0 {
        let front = env.drop_last();
        lemma_is_assigned(front, key);
        if env.last().key@ == key {
            let i = env.len() - 1;
            assert(env[i].key@ == key && env[i].value@ == env.last().value@);
        } else if var_in(front, key) is Some {
            let value = var_in(front, key)->0;
            let i = choose|i: int|
                0 <= i < front.len() && (#[trigger] front[i]).key@ == key && front[i].value@
                    == value && forall|j: int|
                    i < j < front.len() ==> (#[trigger] front[j]).key@ != key;
            assert(env[i].key@ == key && env[i].value@ == value);
            assert forall|j: int| i < j < env.len() implies (#[trigger] env[j]).key@ != key by {
                if j < front.len() {
                    assert(front[j] == env[j]);
                }
            }
        } else {
            assert forall|j: int| 0 <= j < env.len() implies (#[trigger] env[j]).key@ != key by {
                if j < front.len() {
                    assert(front[j] == env[j]);
                }
            }
        }
    }
}

/// The logger has the settings that the environment assigns, the fallback file `logs.txt` of at
/// most 1 GiB, and room for as many logs as the environment says, or for ten thousand.
pub proof fn law_logger_has_the_settings_of_the_environment(env: &[EnvVar], r: Logger)
    requires
        call_ensures(Logger::new_from_env, (env,), r),
    ensures
        is_assigned(env@, "ELASTIC_URL__"@, opt_string(r.elastic_url)),
        is_assigned(env@, "ELASTIC_INDEX__"@, opt_string(r.index_prefix)),
        is_assigned(env@, "ELASTIC_USERNAME__"@, opt_string(r.username)),
        is_assigned(env@, "ELASTIC_PASSWORD__"@, opt_string(r.password)),
        r.fallback_path@ == "logs.txt"@,
        r.fallback_max_bytes == 1_073_741_824,
        forall|n: nat|
            0 < n <= usize::MAX && #[trigger] assigned(
                env@,
                "WELOG_QUEUE_CAPACITY__"@,
                decimal(n),
            ) ==> r.queue_capacity == n,
        forall|text: Seq<char>| #[trigger]
            assigned(env@, "WELOG_QUEUE_CAPACITY__"@, text) ==> r.queue_capacity == capacity_in(
                Some(text),
            ),
        (forall|j: int|
            0 <= j < env@.len() ==> (#[trigger] env@[j]).key@ != "WELOG_QUEUE_CAPACITY__"@)
            ==> r.queue_capacity == 10_000,
{
    lemma_is_assigned(env@, "ELASTIC_URL__"@);
    lemma_is_assigned(env@, "ELASTIC_INDEX__"@);
    lemma_is_assigned(env@, "ELASTIC_USERNAME__"@);
    lemma_is_assigned(env@, "ELASTIC_PASSWORD__"@);
    let key = "WELOG_QUEUE_CAPACITY__"@;
    assert forall|n: nat| 0 < n <= usize::MAX && #[trigger] assigned(env@, key, decimal(n)) implies
        r.queue_capacity == n by {
        let i = choose|i: int|
            0 <= i < env@.len() && (#[trigger] env@[i]).key@ == key && env@[i].value@ == decimal(n)
                && forall|j: int| i < j < env@.len() ==> (#[trigger] env@[j]).key@ != key;
        law_last_assignment_counts(env@, key, i);
        law_capacity_is_the_number_in_the_setting(n);
    }
    assert forall|text: Seq<char>| #[trigger] assigned(env@, key, text) implies r.queue_capacity
        == capacity_in(Some(text)) by {
        let i = choose|i: int|
            0 <= i < env@.len() && (#[trigger] env@[i]).key@ == key && env@[i].value@ == text
                && forall|j: int| i < j < env@.len() ==> (#[trigger] env@[j]).key@ != key;
        law_last_assignment_counts(env@, key, i);
    }
    if forall|j: int| 0 <= j < env@.len() ==> (#[trigger] env@[j]).key@ != key {
        law_unassigned_variable_has_no_value(env@, key);
    }
}

/// The value of a variable is that of its last assignment, and there is none where it has none.
pub proof fn law_variable_is_found(env: &[EnvVar], key: &str, r: Option<String>)
    requires
        call_ensures(find_var, (env, key), r),
    ensures
        is_assigned(env@, key@, opt_string(r)),
{
    lemma_is_assigned(env@, key@);
}

/// A configuration is assigned to the four variables, and to no others.
pub proof fn law_configuration_is_assigned(cfg: Config, r: Vec<EnvVar>)
    requires
        call_ensures(set_config, (cfg,), r),
    ensures
        r@.len() == 4,
        assigned(r@, "ELASTIC_INDEX__"@, cfg.elastic_index@),
        assigned(r@, "ELASTIC_URL__"@, cfg.elastic_url@),
        assigned(r@, "ELASTIC_USERNAME__"@, cfg.elastic_username@),
        assigned(r@, "ELASTIC_PASSWORD__"@, cfg.elastic_password@),
{
    lemma_is_assigned(r@, "ELASTIC_INDEX__"@);
    lemma_is_assigned(r@, "ELASTIC_URL__"@);
    lemma_is_assigned(r@, "ELASTIC_USERNAME__"@);
    lemma_is_assigned(r@, "ELASTIC_PASSWORD__"@);
}

/// A capacity that a setting states as a number is that number, where it is above zero and a
/// machine word holds it; without such a number it is ten thousand.
pub proof fn law_capacity_follows_the_setting(setting: Option<&str>, r: usize)
    requires
        call_ensures(queue_capacity, (setting,), r),
    ensures
        setting is None ==> r == 10_000,
        setting is Some && setting->0@.len() == 0 ==> r == 10_000,
        forall|n: nat|
            setting is Some && setting->0@ == #[trigger] decimal(n) ==> r == (if 0 < n
                <= usize::MAX {
                n as usize
            } else {
                10_000
            }),
        setting is Some ==> forall|i: int|
            0 <= i < setting->0@.len() && !('0' <= #[trigger] setting->0@[i] && setting->0@[i]
                <= '9') && (i > 0 || setting->0@[i] != '+') ==> r == 10_000,
{
    if setting is Some {
        let text = setting->0@;
        assert forall|n: nat| text == #[trigger] decimal(n) implies r == (if 0 < n <= usize::MAX {
            n as usize
        } else {
            10_000
        }) by {
            law_capacity_is_the_number_in_the_setting(n);
        }
        assert forall|i: int|
            0 <= i < text.len() && !('0' <= #[trigger] text[i] && text[i] <= '9') && (i > 0
                || text[i] != '+') implies r == 10_000 by {
            law_capacity_without_a_number_is_the_default(text, i);
        }
    }
}

/// A log that was offered to the queue is counted where it was dropped, and every thousandth of
/// these is reported with their number; a missing worker is reported each time.
pub proof fn law_offer_is_counted_where_it_was_dropped(drops: &mut Drops, offer: Offer, r: Notice)
    requires
        call_ensures(Drops::record, (drops, offer), r),
    ensures
        offer == Offer::Queued ==> r == Notice::Nothing && final(drops).count == old(drops).count,
        offer == Offer::Disconnected ==> r == Notice::NoWorker && final(drops).count == old(
            drops,
        ).count,
        offer == Offer::Full ==> final(drops).count == (old(drops).count + 1)
            % 0x1_0000_0000_0000_0000,
        offer == Offer::Full ==> r == (if final(drops).count % 1000 == 0 {
            Notice::Dropped(final(drops).count)
        } else {
            Notice::Nothing
        }),
{
    law_only_dropped_logs_are_counted(*old(drops));
}

/// The line of a log in the fallback file is one line of JSON text that holds the fields, and the
/// error under `hook_error` where there is one.
pub proof fn law_fallback_line_holds_the_log(
    fields: LogFields,
    hook_err: Option<&str>,
    r: Vec<u8>,
)
    requires
        call_ensures(build_fallback_bytes, (&fields, hook_err), r),
    ensures
        r@.len() > 0 && r@.last() == 10 && !r@.drop_last().contains(10u8),
        valid_utf8(r@),
        ({
            let kept = Json::Object(
                if hook_err is Some {
                    members(fields).insert("hook_error"@, Json::Text(hook_err->0@))
                } else {
                    members(fields)
                },
            );
            &&& json_bytes(kept) is Some
            &&& r@ == json_bytes(kept)->0 || r@ == json_bytes(kept)->0.push(10u8)
            &&& portable(kept, max_depth()) ==> parsed_json(r@) == Some(kept)
        }),
{
}

/// The line for a document is the document and one line feed, and there is none without a document.
pub proof fn law_line_for_a_document(document: Option<Vec<u8>>, r: Vec<u8>)
    requires
        call_ensures(fallback_line, (document,), r),
    ensures
        document is None ==> r@.len() == 0,
        document is Some && document->0@.len() > 0 && document->0@.last() == 10 ==> r@
            == document->0@,
        document is Some && !(document->0@.len() > 0 && document->0@.last() == 10) ==> r@
            == document->0@.push(10u8),
{
    if document is Some {
        law_line_is_the_document_and_a_line_feed(document->0@);
    }
}

/// Whether `kept` is the end of the content, from the start of a line on.
pub open spec fn is_end(content: Seq<u8>, kept: Seq<u8>) -> bool {
    &&& kept.len() <= content.len()
    &&& kept == content.skip(content.len() - kept.len())
    &&& 0 < kept.len() < content.len() ==> content[content.len() - kept.len() - 1] == 10
}

/// Trimming keeps the end of the text from the start of a line on, the line that reaches the bytes
/// to be freed included; content that is not text is an error.
pub proof fn law_trimming_keeps_the_end(
    content: &[u8],
    bytes_to_free: u64,
    r: Result<Vec<u8>, InvalidData>,
)
    requires
        call_ensures(trim_oldest_lines, (content, bytes_to_free), r),
    ensures
        r is Ok <==> valid_utf8(content@),
        r is Ok ==> is_end(content@, r->Ok_0@),
        r is Ok ==> r->Ok_0@ == content@ || content@.len() - r->Ok_0@.len() < bytes_to_free,
        r is Ok && r->Ok_0@.len() > 0 ==> content@.len() - r->Ok_0@.len() + line_len(r->Ok_0@)
            >= bytes_to_free,
{
    law_trimming_keeps_whole_lines(content@, bytes_to_free as int);
    law_trimming_stops_at_the_first_line_that_suffices(content@, bytes_to_free as int);
    if r is Ok && r->Ok_0@.len() == content@.len() {
        assert(content@.skip(0) =~= content@);
    }
}

/// Making room keeps the end of the text from the start of a line on, frees as many bytes as asked
/// for where there are as many, and drops no line more than that takes; content that is not text is
/// an error.
pub proof fn law_making_room_keeps_the_end(
    content: &[u8],
    bytes_to_free: u64,
    r: Result<Vec<u8>, InvalidData>,
)
    requires
        call_ensures(drop_oldest_lines, (content, bytes_to_free), r),
    ensures
        r is Ok <==> valid_utf8(content@),
        r is Ok ==> is_end(content@, r->Ok_0@),
        r is Ok && bytes_to_free == 0 ==> r->Ok_0@ == content@,
        r is Ok && 0 < bytes_to_free <= content@.len() ==> content@.len() - r->Ok_0@.len()
            >= bytes_to_free && exists|start: int| #[trigger]
            is_line_at(content@, start, content@.len() - r->Ok_0@.len()) && start < bytes_to_free,
        r is Ok && bytes_to_free > content@.len() ==> r->Ok_0@.len() == 0,
{
    law_making_room_keeps_whole_lines(content@, bytes_to_free as int);
    if 0 < bytes_to_free <= content@.len() {
        law_making_room_frees_enough(content@, bytes_to_free as int);
        law_only_what_is_needed_is_dropped(content@, bytes_to_free as int);
    }
    if bytes_to_free > content@.len() {
        lemma_nothing_is_left(content@, bytes_to_free as int);
    }
}

proof fn lemma_nothing_is_left(content: Seq<u8>, free: int)
    requires
        free > content.len(),
    ensures
        crate::fallback::fitted(content, free).len() == 0,
    decreases content.len(),
{
    crate::fallback::law_first_line(content);
    if content.len() > 0 {
        lemma_nothing_is_left(content.skip(line_len(content) as int), free - line_len(content));
    }
}

/// A line is skipped exactly where it is empty or larger than the file may be, appended where both
/// fit, and otherwise so many bytes are freed that they do.
pub proof fn law_plan_says_what_to_do(len: u64, size: u64, max: u64, r: FallbackPlan)
    requires
        call_ensures(plan_fallback, (len, size, max), r),
        size + len <= u64::MAX,
    ensures
        r is Skip <==> len == 0 || len > max,
        r is Append <==> 0 < len && size + len <= max,
        r is TrimThenAppend ==> size - r->TrimThenAppend_0 + len == max,
{
    law_plan_makes_the_line_fit(len, size, max);
}

/// Making room starts with all bytes still to be freed, and counting starts with no dropped log.
pub proof fn law_counting_starts_anew(bytes_to_free: u64, trimmer: Trimmer, drops: Drops)
    requires
        call_ensures(Trimmer::new, (bytes_to_free,), trimmer),
        call_ensures(Drops::new, (), drops),
    ensures
        trimmer.left == bytes_to_free,
        drops.count == 0,
{
}

/// A copy of a logger has the same settings.
pub proof fn law_copy_has_the_same_settings(logger: Logger, r: Logger)
    requires
        call_ensures(Logger::clone, (&logger,), r),
    ensures
        opt_string(r.elastic_url) == opt_string(logger.elastic_url),
        opt_string(r.index_prefix) == opt_string(logger.index_prefix),
        opt_string(r.username) == opt_string(logger.username),
        opt_string(r.password) == opt_string(logger.password),
        r.fallback_path@ == logger.fallback_path@,
        r.fallback_max_bytes == logger.fallback_max_bytes,
        r.queue_capacity == logger.queue_capacity,
{
}

/// Whether a line is kept that is taken after others were dropped: it is where nothing is left to
/// be freed, and otherwise it is dropped, and its bytes count.
pub proof fn law_line_is_dropped_while_bytes_are_to_be_freed(
    trimmer: &mut Trimmer,
    len: u64,
    r: bool,
)
    requires
        call_ensures(Trimmer::keep_line, (trimmer, len), r),
    ensures
        r <==> old(trimmer).left == 0,
        r ==> final(trimmer).left == 0,
        !r ==> final(trimmer).left == (if len >= old(trimmer).left {
            0
        } else {
            old(trimmer).left - len
        }),
{
}

/// Writing a line to the fallback file appends it to what is kept of the file: all of it where both
/// fit, and otherwise the newest lines that fit. The file is then no larger than it may be. A line
/// that is empty or larger than that is skipped, and content that is not text is an error where
/// lines have to go; both leave the file as it is.
pub proof fn law_line_is_written(
    file: &mut Option<Vec<u8>>,
    line: &[u8],
    max: u64,
    r: Result<(), InvalidData>,
)
    requires
        call_ensures(write_fallback, (file, line, max), r),
        content_of(opt_bytes(*old(file))).len() + line@.len() <= u64::MAX,
    ensures
        ({
            let before = if *old(file) is Some {
                (*old(file))->0@
            } else {
                Seq::empty()
            };
            let after = (*final(file))->0@;
            &&& r is Err <==> !valid_utf8(before) && 0 < line@.len() <= max && before.len()
                + line@.len() > max
            &&& r is Err ==> *final(file) == *old(file)
            &&& r is Ok && (line@.len() == 0 || line@.len() > max) ==> opt_bytes(*final(file))
                == opt_bytes(*old(file))
            &&& r is Ok && 0 < line@.len() <= max ==> {
                &&& *final(file) is Some
                &&& line@.len() <= after.len() <= max
                &&& after.skip(after.len() - line@.len()) == line@
                &&& is_end(before, after.take(after.len() - line@.len()))
                &&& before.len() + line@.len() <= max ==> after.len() == before.len() + line@.len()
            }
        }),
{
    let before = content_of(opt_bytes(*old(file)));
    law_line_is_appended_or_skipped(opt_bytes(*old(file)), line@, max as int);
    if r is Ok && 0 < line@.len() <= max {
        law_newest_line_is_last(opt_bytes(*old(file)), line@, max as int);
        law_fallback_file_size(opt_bytes(*old(file)), line@, max as int);
        let after = (*final(file))->0@;
        assert(before.skip(0) =~= before);
        assert(after.take(after.len() - line@.len()) =~= before.skip(
            before.len() - (after.len() - line@.len()),
        ));
    }
}

/// Where lines have to go for a new one, no more go than it needs: with the last of them still
/// there, the file would be larger than it may be.
pub proof fn law_no_line_is_dropped_without_need(
    file: &mut Option<Vec<u8>>,
    line: &[u8],
    max: u64,
    before: Seq<u8>,
)
    requires
        call_ensures(write_fallback, (file, line, max), Ok(())),
        *old(file) is Some,
        (*old(file))->0@ == before,
        before.len() + line@.len() <= u64::MAX,
        0 < line@.len() <= max,
        before.len() + line@.len() > max,
    ensures
        *final(file) is Some,
        exists|start: int| #[trigger]
            is_line_at(before, start, before.len() + line@.len() - (*final(file))->0@.len())
                && before.len() - start + line@.len() > max,
{
    assert(content_of(opt_bytes(*old(file))) == before);
    law_line_is_appended_or_skipped(opt_bytes(*old(file)), line@, max as int);
    law_no_line_goes_without_need(opt_bytes(*old(file)), line@, max as int);
}

} // verus!
