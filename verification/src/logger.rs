//! The logger: what is logged, sent, and kept where it cannot be sent.

use vstd::prelude::*;
use vstd::utf8::{encode_utf8, valid_utf8};

use crate::clock::{
    clock_gave, date_text, format_date, is_response_offset, response_offset, times_ok, times_ok_at,
    utc_now, Latency, Timestamp, UtcInstant,
};
use crate::config::{
    find_var, is_config, law_later_assignments_win, var_in, Config, EnvVar,
};
use crate::ecs::{enrich_with_ecs, enrich_with_ecs_at, enriched, field_instant, non_empty};
use crate::elastic::{
    basic_auth, build_auth, build_url, document_url, elastic_outcome, goes_on,
    law_document_goes_to_the_index_of_the_day, law_header_holds_the_credentials, refusal, reply_ok,
    ElasticReply, ElasticRequest,
};
use crate::envkey;
use crate::fallback::{
    all_lines, build_fallback_bytes, content_of, fallback_members, is_line,
    law_lines_that_fit_are_all_kept, lemma_lines_that_fit_are_accepted, line_of, written_all,
    FALLBACK_LOG_PATH, FALLBACK_MAX_BYTES,
};
use crate::identity::{current_user, is_told_user};
use crate::json::{
    clone_fields, json, json_bytes, json_string, max_depth, member, members, object_value, one_line,
    opt_str, opt_string, parsed_json, portable, to_json_string, Json, LogFields, Members,
};
use crate::queue::{capacity_in, queue_capacity};
use crate::text::{base64_text, or_empty};

verus! {

/// Where logs go.
#[derive(Debug)]
pub struct Logger {
    pub elastic_url: Option<String>,
    pub index_prefix: Option<String>,
    pub username: Option<String>,
    pub password: Option<String>,
    pub fallback_path: String,
    pub fallback_max_bytes: u64,
    pub queue_capacity: usize,
}

/// A log that is ready: the line for the standard output, and the record for the worker.
#[derive(Debug)]
pub struct LogEntry {
    pub line: Option<String>,
    pub record: LogFields,
}

/// Whether a text is the JSON of a record on one line, from which the record can be read again.
pub open spec fn shows(text: Seq<char>, record: Members) -> bool {
    let value = Json::Object(record);
    &&& json_string(value) == Some(text)
    &&& one_line(encode_utf8(text))
    &&& portable(value, max_depth()) ==> parsed_json(encode_utf8(text)) == Some(value)
}

/// Whether an entry is what is logged for fields at a time.
pub open spec fn is_entry(entry: LogEntry, fields: Members, now: UtcInstant) -> bool {
    &&& members(entry.record) == enriched(fields, now)
    &&& entry.line is Some
    &&& shows(entry.line->0@, members(entry.record))
}

/// What the process and the machine add to the log of a response: the user, the UTC offset of the
/// clock when the response comes, and the time.
#[derive(Debug)]
pub struct Surroundings {
    pub user: String,
    pub offset: i32,
    pub now: UtcInstant,
}

/// The surroundings of a response that comes now, `latency` after its request. The user is empty
/// where the system does not tell.
pub(crate) fn surroundings(request: Timestamp, latency: Latency) -> (r: Surroundings)
    requires
        times_ok(request, latency),
    ensures
        times_ok_at(request, latency, r.offset),
        is_response_offset(request, latency, r.offset),
        is_told_user(r.user@),
        clock_gave(r.now),
        r.now.ok(),
{
    let user = or_empty(current_user());
    let offset = response_offset(request, latency);
    Surroundings { user, offset, now: utc_now() }
}

/// Whether a record shows one time for a request and its response.
pub open spec fn shows_one_time(record: Members) -> bool {
    &&& member(record, "requestTimestamp"@) is Some
    &&& member(record, "responseTimestamp"@) == member(record, "requestTimestamp"@)
}

/// What the error says where the address of Elasticsearch is missing.
pub const URL_NOT_CONFIGURED: &'static str = "ELASTIC_URL__ not configured";

/// What the error says where the index is missing.
pub const INDEX_NOT_CONFIGURED: &'static str = "ELASTIC_INDEX__ not configured";

/// What the error says where the name of the user is missing.
pub const USERNAME_NOT_CONFIGURED: &'static str = "ELASTIC_USERNAME__ not configured";

/// What the error says where the password is missing.
pub const PASSWORD_NOT_CONFIGURED: &'static str = "ELASTIC_PASSWORD__ not configured";

/// The header for optional credentials: there is one where both are there.
pub open spec fn authorization(user: Option<Seq<char>>, password: Option<Seq<char>>) -> Option<
    Seq<char>,
> {
    match (user, password) {
        (Some(u), Some(p)) => Some(basic_auth(u, p)),
        _ => None,
    }
}

/// The text of a setting that is there and not empty.
fn filled(setting: &Option<String>) -> (r: Option<&str>)
    ensures
        opt_str(r) == non_empty(opt_string(*setting)),
{
    match setting {
        Some(text) => if text.as_str().is_empty() {
            None
        } else {
            Some(text.as_str())
        },
        None => None,
    }
}

/// A copy of an optional text.
fn copy_text(text: &Option<String>) -> (r: Option<String>)
    ensures
        opt_string(r) == opt_string(*text),
{
    match text {
        Some(t) => Some(t.clone()),
        None => None,
    }
}

impl Clone for Logger {
    fn clone(&self) -> (r: Self)
        ensures
            opt_string(r.elastic_url) == opt_string(self.elastic_url),
            opt_string(r.index_prefix) == opt_string(self.index_prefix),
            opt_string(r.username) == opt_string(self.username),
            opt_string(r.password) == opt_string(self.password),
            r.fallback_path@ == self.fallback_path@,
            r.fallback_max_bytes == self.fallback_max_bytes,
            r.queue_capacity == self.queue_capacity,
    {
        Logger {
            elastic_url: copy_text(&self.elastic_url),
            index_prefix: copy_text(&self.index_prefix),
            username: copy_text(&self.username),
            password: copy_text(&self.password),
            fallback_path: self.fallback_path.clone(),
            fallback_max_bytes: self.fallback_max_bytes,
            queue_capacity: self.queue_capacity,
        }
    }
}

impl Logger {
    /// The logger that the environment describes.
    pub fn new_from_env(env: &[EnvVar]) -> (r: Self)
        ensures
            opt_string(r.elastic_url) == var_in(env@, envkey::ELASTIC_URL@),
            opt_string(r.index_prefix) == var_in(env@, envkey::ELASTIC_INDEX@),
            opt_string(r.username) == var_in(env@, envkey::ELASTIC_USERNAME@),
            opt_string(r.password) == var_in(env@, envkey::ELASTIC_PASSWORD@),
            r.fallback_path@ == FALLBACK_LOG_PATH@,
            r.fallback_max_bytes == FALLBACK_MAX_BYTES,
            r.fallback_path@ == "logs.txt"@,
            r.fallback_max_bytes == 1024 * 1024 * 1024,
            r.queue_capacity == capacity_in(var_in(env@, envkey::QUEUE_CAPACITY@)),
    {
        let capacity = find_var(env, envkey::QUEUE_CAPACITY);
        let queue_capacity = match &capacity {
            Some(text) => queue_capacity(Some(text.as_str())),
            None => queue_capacity(None),
        };
        Logger {
            elastic_url: find_var(env, envkey::ELASTIC_URL),
            index_prefix: find_var(env, envkey::ELASTIC_INDEX),
            username: find_var(env, envkey::ELASTIC_USERNAME),
            password: find_var(env, envkey::ELASTIC_PASSWORD),
            fallback_path: FALLBACK_LOG_PATH.to_owned(),
            fallback_max_bytes: FALLBACK_MAX_BYTES,
            queue_capacity,
        }
    }

    /// What is logged for fields, where `now` is the time: the fields with their schema fields.
    pub fn log_at(&self, fields: LogFields, now: UtcInstant) -> (r: LogEntry)
        requires
            now.ok(),
        ensures
            is_entry(r, members(fields), now),
    {
        let record = enrich_with_ecs_at(fields, now);
        let line = to_json_string(&record);
        LogEntry { line, record }
    }

    /// What is logged for fields: the fields with their schema fields, one line for the standard
    /// output, and the record for the worker.
    pub fn log(&self, fields: LogFields) -> (r: LogEntry)
        ensures
            exists|now: UtcInstant|
                now.ok() && (field_instant(members(fields), "requestTimestamp"@) is None
                    ==> clock_gave(now)) && #[trigger] is_entry(r, members(fields), now),
            field_instant(members(fields), "requestTimestamp"@) is Some ==> forall|now: UtcInstant|
                #[trigger] is_entry(r, members(fields), now),
    {
        let record = enrich_with_ecs(fields);
        let line = to_json_string(&record);
        let entry = LogEntry { line, record };
        proof {
            let now = choose|now: UtcInstant|
                now.ok() && (field_instant(members(fields), "requestTimestamp"@) is None
                    ==> clock_gave(now)) && members(entry.record) == #[trigger] enriched(
                    members(fields),
                    now,
                );
            assert(is_entry(entry, members(fields), now));
        }
        entry
    }

    /// Why no request can be made: no address, or no index.
    pub open spec fn missing_setting(self) -> Option<Seq<char>> {
        if non_empty(opt_string(self.elastic_url)) is None {
            Some(URL_NOT_CONFIGURED@)
        } else if non_empty(opt_string(self.index_prefix)) is None {
            Some(INDEX_NOT_CONFIGURED@)
        } else {
            None
        }
    }

    /// Whether a request posts a record to the index of a day.
    pub open spec fn posts(self, req: ElasticRequest, record: Members, date: Seq<char>) -> bool {
        &&& req.url@ == document_url(
            opt_string(self.elastic_url)->0,
            opt_string(self.index_prefix)->0,
            date,
        )
        &&& opt_string(req.authorization) == authorization(
            opt_string(self.username),
            opt_string(self.password),
        )
        &&& json(req.body) == Json::Object(record)
    }

    /// The request that sends a record at a time, and the error where the address or the index is
    /// missing.
    pub fn elastic_request_at(&self, fields: &LogFields, now: UtcInstant) -> (r: Result<
        ElasticRequest,
        String,
    >)
        requires
            now.ok(),
        ensures
            match r {
                Ok(req) => self.missing_setting() is None && self.posts(
                    req,
                    members(*fields),
                    date_text(now.secs),
                ),
                Err(e) => self.missing_setting() == Some(e@),
            },
    {
        let base = match filled(&self.elastic_url) {
            Some(url) => url,
            None => {
                return Err(URL_NOT_CONFIGURED.to_owned());
            },
        };
        let index = match filled(&self.index_prefix) {
            Some(prefix) => prefix,
            None => {
                return Err(INDEX_NOT_CONFIGURED.to_owned());
            },
        };
        let date = format_date(now.secs);
        let url = build_url(base, index, date.as_str());
        let authorization = match (&self.username, &self.password) {
            (Some(user), Some(password)) => Some(build_auth(user.as_str(), password.as_str())),
            _ => None,
        };
        Ok(ElasticRequest { url, authorization, body: object_value(clone_fields(fields)) })
    }

    /// The request that sends a record now, and the error where the address or the index is
    /// missing.
    pub fn elastic_request(&self, fields: &LogFields) -> (r: Result<ElasticRequest, String>)
        ensures
            match r {
                Ok(req) => self.missing_setting() is None && exists|now: UtcInstant|
                    clock_gave(now) && now.ok() && #[trigger] self.posts(
                        req,
                        members(*fields),
                        date_text(now.secs),
                    ),
                Err(e) => self.missing_setting() == Some(e@),
            },
    {
        let now = utc_now();
        self.elastic_request_at(fields, now)
    }
}

/// Whether bytes are the fallback line of a record that could not be sent, and of the error: one
/// line of JSON text, from which both can be read again.
pub open spec fn keeps(bytes: Seq<u8>, record: Members, error: Seq<char>) -> bool {
    let kept = Json::Object(fallback_members(record, Some(error)));
    &&& bytes == line_of(json_bytes(kept))
    &&& is_line(bytes)
    &&& valid_utf8(bytes)
    &&& portable(kept, max_depth()) ==> parsed_json(bytes) == Some(kept)
}

/// What goes to the fallback file for a record, once it is known whether it was taken: nothing
/// where it was, and otherwise the line of the record and the error.
pub fn undelivered(fields: &LogFields, outcome: Result<(), String>) -> (r: Option<Vec<u8>>)
    ensures
        match outcome {
            Ok(_) => r is None,
            Err(e) => r is Some && keeps(r->0@, members(*fields), e@),
        },
{
    match outcome {
        Ok(_) => None,
        Err(e) => Some(build_fallback_bytes(fields, Some(e.as_str()))),
    }
}

/// The worker's next step for a record.
#[derive(Debug)]
pub enum Delivery {
    /// Post the document, and go on with the reply.
    Post(ElasticRequest),
    /// Write the line to the fallback file.
    Keep(Vec<u8>),
}

/// The lines of steps that keep a record.
pub open spec fn kept_lines(steps: Seq<Delivery>) -> Seq<Seq<u8>> {
    Seq::new(
        steps.len(),
        |i: int|
            match steps[i] {
                Delivery::Keep(line) => line@,
                Delivery::Post(_) => Seq::empty(),
            },
    )
}

impl Logger {
    /// Why records are kept and not sent: the first setting of the four that is missing or empty.
    pub open spec fn unset(self) -> Option<Seq<char>> {
        if non_empty(opt_string(self.elastic_url)) is None {
            Some(URL_NOT_CONFIGURED@)
        } else if non_empty(opt_string(self.index_prefix)) is None {
            Some(INDEX_NOT_CONFIGURED@)
        } else if non_empty(opt_string(self.username)) is None {
            Some(USERNAME_NOT_CONFIGURED@)
        } else if non_empty(opt_string(self.password)) is None {
            Some(PASSWORD_NOT_CONFIGURED@)
        } else {
            None
        }
    }

    /// What the error says of the first setting that is missing or empty.
    fn first_unset(&self) -> (r: Option<&'static str>)
        ensures
            opt_str(r) == self.unset(),
    {
        if filled(&self.elastic_url).is_none() {
            Some(URL_NOT_CONFIGURED)
        } else if filled(&self.index_prefix).is_none() {
            Some(INDEX_NOT_CONFIGURED)
        } else if filled(&self.username).is_none() {
            Some(USERNAME_NOT_CONFIGURED)
        } else if filled(&self.password).is_none() {
            Some(PASSWORD_NOT_CONFIGURED)
        } else {
            None
        }
    }

    /// Whether a step is the first one for a record, where the day is `date`: to post it with the
    /// credentials, and to keep it where a setting is missing or empty.
    pub open spec fn starts_with(self, step: Delivery, record: Members, date: Seq<char>) -> bool {
        match step {
            Delivery::Post(req) => self.unset() is None && self.posts(req, record, date),
            Delivery::Keep(line) => self.unset() is Some && keeps(
                line@,
                record,
                self.unset()->0,
            ),
        }
    }

    /// The first step for a record at a time: to post it, and to keep it where the address, the
    /// index or one of the credentials is missing or empty.
    pub fn start_delivery_at(&self, fields: &LogFields, now: UtcInstant) -> (r: Delivery)
        requires
            now.ok(),
        ensures
            self.starts_with(r, members(*fields), date_text(now.secs)),
    {
        if let Some(e) = self.first_unset() {
            return Delivery::Keep(build_fallback_bytes(fields, Some(e)));
        }
        match self.elastic_request_at(fields, now) {
            Ok(req) => Delivery::Post(req),
            Err(e) => Delivery::Keep(build_fallback_bytes(fields, Some(e.as_str()))),
        }
    }

    /// The first step for a record now.
    pub fn start_delivery(&self, fields: &LogFields) -> (r: Delivery)
        ensures
            exists|now: UtcInstant|
                clock_gave(now) && now.ok() && #[trigger] self.starts_with(
                    r,
                    members(*fields),
                    date_text(now.secs),
                ),
    {
        let now = utc_now();
        self.start_delivery_at(fields, now)
    }
}

/// The last step for a record that was posted: nothing where the reply says that it was taken, and
/// otherwise the line for the fallback file.
pub fn finish_delivery(fields: &LogFields, reply: ElasticReply) -> (r: Option<Vec<u8>>)
    requires
        reply_ok(reply),
    ensures
        match refusal(reply) {
            None => r is None,
            Some(error) => r is Some && keeps(r->0@, members(*fields), error),
        },
        r is None <==> (reply matches ElasticReply::Answered(code) && 200 <= code && code < 300),
{
    undelivered(fields, elastic_outcome(reply))
}

/// Where a setting is missing or empty, every record is kept: each first step is a line with the
/// record and the name of the setting. The lines go to the fallback file in order, one for each
/// record, and as long as they fit none is lost.
pub proof fn law_records_are_kept_where_a_setting_is_missing(
    logger: Logger,
    records: Seq<Members>,
    steps: Seq<Delivery>,
    dates: Seq<Seq<char>>,
    file: Option<Seq<u8>>,
    max: int,
)
    requires
        logger.unset() is Some,
        records.len() == steps.len() == dates.len(),
        forall|i: int|
            0 <= i < steps.len() ==> #[trigger] logger.starts_with(steps[i], records[i], dates[i]),
    ensures
        forall|i: int|
            0 <= i < steps.len() ==> #[trigger] steps[i] is Keep && keeps(
                kept_lines(steps)[i],
                records[i],
                logger.unset()->0,
            ),
        content_of(file).len() + all_lines(kept_lines(steps)).len() <= max ==> content_of(
            written_all(file, kept_lines(steps), max),
        ) == content_of(file) + all_lines(kept_lines(steps)),
{
    let lines = kept_lines(steps);
    assert forall|i: int| 0 <= i < steps.len() implies #[trigger] steps[i] is Keep && keeps(
        lines[i],
        records[i],
        logger.unset()->0,
    ) by {
        assert(logger.starts_with(steps[i], records[i], dates[i]));
    }
    if content_of(file).len() + all_lines(lines).len() <= max {
        assert forall|i: int| 0 <= i < lines.len() implies (#[trigger] lines[i]).len() > 0 by {
            assert(steps[i] is Keep);
        }
        lemma_lines_that_fit_are_accepted(lines, max);
        law_lines_that_fit_are_all_kept(file, lines, max);
    }
}

/// The configuration that is set last is the one that the logger is made with, whatever the
/// environment said before.
pub proof fn law_configuration_is_read_back(env: Seq<EnvVar>, assignments: Seq<EnvVar>, cfg: Config)
    requires
        is_config(assignments, cfg),
    ensures
        is_config(env + assignments, cfg),
{
    law_later_assignments_win(env, assignments, envkey::ELASTIC_INDEX@);
    law_later_assignments_win(env, assignments, envkey::ELASTIC_URL@);
    law_later_assignments_win(env, assignments, envkey::ELASTIC_USERNAME@);
    law_later_assignments_win(env, assignments, envkey::ELASTIC_PASSWORD@);
}

/// Whether a setting is there and not empty.
pub open spec fn is_set(setting: Option<String>) -> bool {
    setting is Some && setting->0@.len() > 0
}

/// A record is posted exactly where address, index, user and password are all set, and kept
/// otherwise.
pub proof fn law_record_is_posted_only_where_all_is_set(
    logger: Logger,
    step: Delivery,
    record: Members,
    date: Seq<char>,
)
    requires
        logger.starts_with(step, record, date),
    ensures
        step is Post <==> is_set(logger.elastic_url) && is_set(logger.index_prefix) && is_set(
            logger.username,
        ) && is_set(logger.password),
{
}

/// A record that is posted goes as it is, into the index of the day below the address, with the
/// user and the password.
pub proof fn law_post_carries_the_record(
    logger: Logger,
    req: ElasticRequest,
    record: Members,
    date: Seq<char>,
    base: Seq<char>,
    slashes: Seq<char>,
)
    requires
        logger.starts_with(Delivery::Post(req), record, date),
        logger.elastic_url->0@ == base + slashes,
        base.len() > 0 ==> base.last() != '/',
        forall|i: int| 0 <= i < slashes.len() ==> #[trigger] slashes[i] == '/',
    ensures
        req.url@ == base + "/"@ + logger.index_prefix->0@ + "-"@ + date + "/_doc"@,
        req.authorization is Some,
        goes_on(
            req.authorization->0@,
            "Basic "@,
            base64_text(encode_utf8(logger.username->0@ + ":"@ + logger.password->0@)),
        ),
        json(req.body) == Json::Object(record),
{
    law_document_goes_to_the_index_of_the_day(
        base,
        slashes,
        logger.index_prefix->0@,
        date,
    );
    law_header_holds_the_credentials(
        logger.username->0@,
        logger.password->0@,
        logger.username->0@,
        logger.password->0@,
    );
}

/// A request that is made without one of the credentials has no header for them, and one that is
/// made with both has it. It holds the record as it is.
pub proof fn law_request_has_a_header_for_credentials(
    logger: Logger,
    req: ElasticRequest,
    record: Members,
    date: Seq<char>,
)
    requires
        logger.posts(req, record, date),
    ensures
        req.authorization is Some <==> logger.username is Some && logger.password is Some,
        req.authorization is Some ==> goes_on(
            req.authorization->0@,
            "Basic "@,
            base64_text(encode_utf8(logger.username->0@ + ":"@ + logger.password->0@)),
        ),
        json(req.body) == Json::Object(record),
{
    if logger.username is Some && logger.password is Some {
        law_header_holds_the_credentials(
            logger.username->0@,
            logger.password->0@,
            logger.username->0@,
            logger.password->0@,
        );
    }
}

/// No request is made without an address or without an index, and the error says which is missing.
pub proof fn law_missing_address_or_index_is_named(logger: Logger)
    ensures
        logger.missing_setting() is None <==> is_set(logger.elastic_url) && is_set(
            logger.index_prefix,
        ),
        !is_set(logger.elastic_url) ==> logger.missing_setting() == Some(
            "ELASTIC_URL__ not configured"@,
        ),
        is_set(logger.elastic_url) && !is_set(logger.index_prefix) ==> logger.missing_setting()
            == Some("ELASTIC_INDEX__ not configured"@),
{
}

/// A record that is kept because a setting is missing is one line of JSON, which reads back as the
/// record with the name of the first missing setting: address, index, user, password.
pub proof fn law_kept_record_names_the_missing_setting(
    logger: Logger,
    line: Vec<u8>,
    record: Members,
    date: Seq<char>,
)
    requires
        logger.starts_with(Delivery::Keep(line), record, date),
    ensures
        is_line(line@),
        exists|error: Seq<char>| #[trigger]
            keeps(line@, record, error) && error == (if !is_set(logger.elastic_url) {
                "ELASTIC_URL__ not configured"@
            } else if !is_set(logger.index_prefix) {
                "ELASTIC_INDEX__ not configured"@
            } else if !is_set(logger.username) {
                "ELASTIC_USERNAME__ not configured"@
            } else {
                "ELASTIC_PASSWORD__ not configured"@
            }),
{
    assert(keeps(line@, record, logger.unset()->0));
}

/// A kept line is the JSON document of one object, with a line feed behind it. The object has the
/// fields of the record and the error, and where JSON carries it, the line reads back as it.
pub proof fn law_kept_line_reads_back(bytes: Seq<u8>, record: Members, error: Seq<char>)
    requires
        keeps(bytes, record, error),
    ensures
        is_line(bytes),
        bytes.last() == 10,
        !bytes.drop_last().contains(10u8),
        json_bytes(Json::Object(record.insert("hook_error"@, Json::Text(error)))) is Some,
        ({
            let document = json_bytes(
                Json::Object(record.insert("hook_error"@, Json::Text(error))),
            )->0;
            bytes == document || bytes == document.push(10u8)
        }),
        portable(
            Json::Object(record.insert("hook_error"@, Json::Text(error))),
            max_depth(),
        ) ==> parsed_json(bytes) == Some(
            Json::Object(record.insert("hook_error"@, Json::Text(error))),
        ),
{
}

/// What is printed for an entry is the JSON text of its record, on one line, and where JSON carries
/// it, the line reads back as the record.
pub proof fn law_printed_line_is_the_record(entry: LogEntry, fields: Members, now: UtcInstant)
    requires
        is_entry(entry, fields, now),
    ensures
        entry.line is Some,
        json_string(Json::Object(members(entry.record))) == Some(entry.line->0@),
        encode_utf8(entry.line->0@).len() > 0,
        !encode_utf8(entry.line->0@).contains(10u8),
        portable(Json::Object(members(entry.record)), max_depth()) ==> parsed_json(
            encode_utf8(entry.line->0@),
        ) == Some(Json::Object(members(entry.record))),
{
}

} // verus!
