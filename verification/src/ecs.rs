//! Enrichment of log fields with the Elastic Common Schema.

use vstd::prelude::*;

use crate::clock::{
    clock_gave, duration_nanos, duration_of, format_rfc3339, instant_in_json, parse_timestamp,
    rfc3339_text, utc_now, UtcInstant,
};
use crate::json::{
    clone_fields, default_field, get_field, json, member, members, new_fields, number_value,
    object_field, object_value, opt_string, set_field, string_value, text_in, text_value, Json,
    LogFields, Members, Num,
};

verus! {

/// The schema version that every log carries.
pub const ECS_VERSION: &'static str = "9.2.0";

/// The characters of each element of a path.
pub open spec fn texts(path: Seq<&str>) -> Seq<Seq<char>> {
    Seq::new(path.len(), |i: int| path[i]@)
}

/// The members of the object under `key`; none where the member is absent or no object.
pub open spec fn object_at(m: Members, key: Seq<char>) -> Members {
    match member(m, key) {
        Some(Json::Object(inner)) => inner,
        _ => Map::empty(),
    }
}

/// The value at the end of a path of nested objects.
pub open spec fn lookup(m: Members, path: Seq<Seq<char>>) -> Option<Json>
    decreases path.len(),
{
    if path.len() == 0 {
        None
    } else if path.len() == 1 {
        member(m, path[0])
    } else {
        lookup(object_at(m, path[0]), path.drop_first())
    }
}

/// An object with `value` at the end of `path`, unless a value is there. Everything on the way is
/// an object, whatever it was before.
pub open spec fn put(m: Members, path: Seq<Seq<char>>, value: Json) -> Members
    decreases path.len(),
{
    if path.len() == 0 {
        m
    } else if path.len() == 1 {
        if m.contains_key(path[0]) {
            m
        } else {
            m.insert(path[0], value)
        }
    } else {
        m.insert(path[0], Json::Object(put(object_at(m, path[0]), path.drop_first(), value)))
    }
}

/// As `put` for a path of two elements, but a first element that is no object stays as it is.
pub open spec fn put_under(m: Members, key: Seq<char>, inner: Seq<char>, value: Json) -> Members {
    if m.contains_key(key) && !(m[key] is Object) {
        m
    } else {
        put(m, seq![key, inner], value)
    }
}

/// One line of a mapping table: where a value goes, and the value where there is one. A gentle row
/// leaves a parent that is no object alone.
pub struct Row {
    pub path: Seq<Seq<char>>,
    pub value: Option<Json>,
    pub gentle: bool,
}

/// An object with one row applied.
pub open spec fn put_row(m: Members, row: Row) -> Members {
    match row.value {
        Some(value) => if row.gentle {
            put_under(m, row.path[0], row.path[1], value)
        } else {
            put(m, row.path, value)
        },
        None => m,
    }
}

/// An object with the rows of a table applied in order.
pub open spec fn put_rows(m: Members, rows: Seq<Row>) -> Members
    decreases rows.len(),
{
    if rows.len() == 0 {
        m
    } else {
        put_row(put_rows(m, rows.drop_last()), rows.last())
    }
}

/// The text of a string field.
pub open spec fn field_text(m: Members, key: Seq<char>) -> Option<Seq<char>> {
    match member(m, key) {
        Some(value) => text_in(value),
        None => None,
    }
}

/// The instant that a field holds as RFC 3339 text.
pub open spec fn field_instant(m: Members, key: Seq<char>) -> Option<UtcInstant> {
    match member(m, key) {
        Some(value) => instant_in_json(value),
        None => None,
    }
}

/// A row for a value that may be missing.
pub open spec fn row(path: Seq<Seq<char>>, value: Option<Json>) -> Row {
    Row { path, value, gentle: false }
}

/// The JSON string for a text that may be missing.
pub open spec fn opt_text(text: Option<Seq<char>>) -> Option<Json> {
    match text {
        Some(t) => Some(Json::Text(t)),
        None => None,
    }
}

/// The text, where there is one and it is not empty.
pub open spec fn non_empty(text: Option<Seq<char>>) -> Option<Seq<char>> {
    match text {
        Some(t) => if t.len() > 0 {
            Some(t)
        } else {
            None
        },
        None => None,
    }
}

/// The field, where it is an object.
pub open spec fn field_object(m: Members, key: Seq<char>) -> Option<Json> {
    match member(m, key) {
        Some(Json::Object(inner)) => Some(Json::Object(inner)),
        _ => None,
    }
}

/// The field, where it is a number.
pub open spec fn field_number(m: Members, key: Seq<char>) -> Option<Json> {
    match member(m, key) {
        Some(Json::Number(n)) => Some(Json::Number(n)),
        _ => None,
    }
}

/// The RFC 3339 text of an instant in UTC.
pub open spec fn utc_text(at: UtcInstant) -> Seq<char> {
    rfc3339_text(at.secs, at.nanos, 0)
}

/// When the logged event started: the request's timestamp, and `now` where the log has none.
pub open spec fn started(m: Members, now: UtcInstant) -> UtcInstant {
    match field_instant(m, "requestTimestamp"@) {
        Some(at) => at,
        None => now,
    }
}

/// The nanoseconds from the request's to the response's timestamp.
pub open spec fn event_duration(m: Members) -> Option<Json> {
    match (field_instant(m, "requestTimestamp"@), field_instant(m, "responseTimestamp"@)) {
        (Some(start), Some(end)) => match duration_of(start, end) {
            Some(nanos) => Some(Json::Number(Num::Unsigned(nanos))),
            None => None,
        },
        _ => None,
    }
}

/// The RFC 3339 text of the response's timestamp in UTC.
pub open spec fn event_end(m: Members) -> Option<Json> {
    match field_instant(m, "responseTimestamp"@) {
        Some(end) => Some(Json::Text(utc_text(end))),
        None => None,
    }
}

/// The rows that describe the event itself.
pub open spec fn event_rows(m: Members, now: UtcInstant) -> Seq<Row> {
    let stamp = Json::Text(utc_text(started(m, now)));
    seq![
        row(seq!["@timestamp"@], Some(stamp)),
        row(seq!["ecs"@, "version"@], Some(Json::Text("9.2.0"@))),
        row(seq!["log"@, "level"@], Some(Json::Text("info"@))),
        row(seq!["event"@, "dataset"@], Some(Json::Text("welog"@))),
        row(seq!["event"@, "module"@], Some(Json::Text("welog_rs"@))),
        row(seq!["event"@, "start"@], Some(stamp)),
        row(seq!["event"@, "end"@], event_end(m)),
        row(seq!["event"@, "duration"@], event_duration(m)),
    ]
}

/// The rows that describe the request.
pub open spec fn request_rows(m: Members) -> Seq<Row> {
    seq![
        row(seq!["http"@, "request"@, "method"@], opt_text(field_text(m, "requestMethod"@))),
        row(
            seq!["http"@, "request"@, "mime_type"@],
            opt_text(field_text(m, "requestContentType"@)),
        ),
        row(
            seq!["http"@, "request"@, "body"@, "content"@],
            opt_text(field_text(m, "requestBodyString"@)),
        ),
        row(seq!["http"@, "request"@, "headers"@], field_object(m, "requestHeader"@)),
        row(seq!["http"@, "version"@], opt_text(field_text(m, "requestProtocol"@))),
        row(seq!["url"@, "full"@], opt_text(field_text(m, "requestUrl"@))),
        row(seq!["url"@, "domain"@], opt_text(non_empty(field_text(m, "requestHostName"@)))),
        row(seq!["client"@, "ip"@], opt_text(non_empty(field_text(m, "requestIp"@)))),
        row(seq!["user_agent"@, "original"@], opt_text(field_text(m, "requestAgent"@))),
        row(seq!["http"@, "request"@, "id"@], opt_text(field_text(m, "requestId"@))),
        Row {
            path: seq!["labels"@, "request_id"@],
            value: opt_text(field_text(m, "requestId"@)),
            gentle: true,
        },
    ]
}

/// The rows that describe the response.
pub open spec fn response_rows(m: Members) -> Seq<Row> {
    seq![
        row(seq!["http"@, "response"@, "status_code"@], field_number(m, "responseStatus"@)),
        row(
            seq!["http"@, "response"@, "body"@, "content"@],
            opt_text(field_text(m, "responseBodyString"@)),
        ),
        row(seq!["http"@, "response"@, "headers"@], field_object(m, "responseHeader"@)),
        row(seq!["user"@, "name"@], opt_text(field_text(m, "responseUser"@))),
    ]
}

/// The whole table.
pub open spec fn ecs_rows(m: Members, now: UtcInstant) -> Seq<Row> {
    event_rows(m, now) + request_rows(m) + response_rows(m)
}

/// Log fields with their schema fields: each row of the table, where the fields have no value at
/// its place.
pub open spec fn enriched(m: Members, now: UtcInstant) -> Members {
    put_rows(m, ecs_rows(m, now))
}

pub(crate) proof fn lemma_put_rows_step(m: Members, rows: Seq<Row>, i: int)
    requires
        0 <= i < rows.len(),
    ensures
        put_rows(m, rows.take(i + 1)) == put_row(put_rows(m, rows.take(i)), rows[i]),
{
    assert(rows.take(i + 1).drop_last() =~= rows.take(i));
}

/// The object under `key`, made where the member is absent, and in place of a member that is no
/// object.
fn ensure_object<'a>(map: &'a mut LogFields, key: &str) -> (r: &'a mut LogFields)
    ensures
        members(*r) == object_at(members(*old(map)), key@),
        members(*final(map)) == members(*old(map)).insert(key@, Json::Object(members(*final(r)))),
{
    let is_object = match get_field(map, key) {
        Some(v) => v.as_object().is_some(),
        None => false,
    };
    if !is_object {
        set_field(map, key, object_value(new_fields()));
    }
    object_field(map, key).unwrap()
}

/// Puts `value` at the end of `path`, unless a value is there. Everything on the way becomes an
/// object. An empty path changes nothing.
pub fn insert_nested_if_absent(map: &mut LogFields, path: &[&str], value: serde_json::Value)
    ensures
        members(*final(map)) == put(members(*old(map)), texts(path@), json(value)),
    decreases path@.len(),
{
    if path.len() == 0 {
        return ;
    }
    if path.len() == 1 {
        default_field(map, path[0], value);
        return ;
    }
    let (head, rest) = path.split_at(1);
    assert(texts(rest@) =~= texts(path@).drop_first());
    let child = ensure_object(map, head[0]);
    insert_nested_if_absent(child, rest, value);
}

/// The text of a string field.
pub fn field_as_string(fields: &LogFields, key: &str) -> (r: Option<String>)
    ensures
        opt_string(r) == field_text(members(*fields), key@),
{
    match get_field(fields, key) {
        Some(v) => match v.as_str() {
            Some(text) => Some(text.to_owned()),
            None => None,
        },
        None => None,
    }
}

/// A copy of a field that is an object.
fn field_as_object(fields: &LogFields, key: &str) -> (r: Option<LogFields>)
    ensures
        r is Some <==> field_object(members(*fields), key@) is Some,
        r is Some ==> field_object(members(*fields), key@) == Some(Json::Object(members(r->0))),
{
    match get_field(fields, key) {
        Some(v) => match v.as_object() {
            Some(m) => Some(clone_fields(m)),
            None => None,
        },
        None => None,
    }
}

/// Applies a row whose value is a text that may be missing.
fn insert_text(fields: &mut LogFields, path: &[&str], text: Option<String>)
    ensures
        members(*final(fields)) == put_row(
            members(*old(fields)),
            row(texts(path@), opt_text(opt_string(text))),
        ),
{
    if let Some(t) = text {
        insert_nested_if_absent(fields, path, string_value(t));
    }
}

/// The text, where there is one and it is not empty.
fn drop_empty(text: Option<String>) -> (r: Option<String>)
    ensures
        opt_string(r) == non_empty(opt_string(text)),
{
    match text {
        Some(t) => if t.as_str().is_empty() {
            None
        } else {
            Some(t)
        },
        None => None,
    }
}

/// A name that the tables read: it starts with the letter r, and no path of a row does.
pub open spec fn is_input(key: Seq<char>) -> bool {
    key.len() > 0 && key[0] == 'r'
}

/// Rows that write to no name that the tables read.
pub open spec fn spares_inputs(rows: Seq<Row>) -> bool {
    forall|i: int|
        0 <= i < rows.len() ==> (#[trigger] rows[i]).path.len() > 0 && !is_input(rows[i].path[0])
            && (rows[i].gentle ==> rows[i].path.len() == 2)
}

/// Two objects with the same values under the names that the tables read.
pub open spec fn same_inputs(a: Members, b: Members) -> bool {
    forall|key: Seq<char>| is_input(key) ==> #[trigger] member(a, key) == member(b, key)
}

pub(crate) proof fn lemma_inputs_survive(m: Members, rows: Seq<Row>, i: int)
    requires
        0 <= i <= rows.len(),
        spares_inputs(rows),
    ensures
        same_inputs(put_rows(m, rows.take(i)), m),
    decreases i,
{
    if i > 0 {
        lemma_inputs_survive(m, rows, i - 1);
        lemma_put_rows_step(m, rows, i - 1);
        let before = put_rows(m, rows.take(i - 1));
        let r = rows[i - 1];
        assert forall|key: Seq<char>| is_input(key) implies #[trigger] member(
            put_row(before, r),
            key,
        ) == member(m, key) by {
            assert(member(before, key) == member(m, key));
        }
    } else {
        assert(rows.take(0) =~= Seq::empty());
    }
}

/// Adds the rows that describe the response.
fn add_response(fields: &mut LogFields)
    ensures
        members(*final(fields)) == put_rows(
            members(*old(fields)),
            response_rows(members(*old(fields))),
        ),
{
    let ghost m = members(*fields);
    let ghost rows = response_rows(m);
    proof {
        lemma_names();
        assert(rows.take(0) =~= Seq::empty());
        assert(rows.take(4) =~= rows);
        lemma_put_rows_step(m, rows, 0);
        lemma_put_rows_step(m, rows, 1);
        lemma_put_rows_step(m, rows, 2);
        lemma_put_rows_step(m, rows, 3);
        lemma_inputs_survive(m, rows, 1);
        lemma_inputs_survive(m, rows, 2);
        lemma_inputs_survive(m, rows, 3);
    }
    let status = match get_field(fields, "responseStatus") {
        Some(v) => Some(v.clone()),
        None => None,
    };
    if let Some(v) = status {
        if v.is_number() {
            insert_nested_if_absent(fields, &["http", "response", "status_code"], v);
        }
    }
    assert(texts(["http", "response", "status_code"]@) =~= rows[0].path);
    assert(members(*fields) == put_rows(m, rows.take(1)));
    let body = field_as_string(fields, "responseBodyString");
    insert_text(fields, &["http", "response", "body", "content"], body);
    assert(texts(["http", "response", "body", "content"]@) =~= rows[1].path);
    assert(members(*fields) == put_rows(m, rows.take(2)));
    let headers = field_as_object(fields, "responseHeader");
    if let Some(h) = headers {
        insert_nested_if_absent(fields, &["http", "response", "headers"], object_value(h));
    }
    assert(texts(["http", "response", "headers"]@) =~= rows[2].path);
    assert(members(*fields) == put_rows(m, rows.take(3)));
    let user = field_as_string(fields, "responseUser");
    insert_text(fields, &["user", "name"], user);
    assert(texts(["user", "name"]@) =~= rows[3].path);
}

proof fn lemma_names()
    ensures
        is_input("requestTimestamp"@),
        is_input("requestMethod"@),
        is_input("requestContentType"@),
        is_input("requestBodyString"@),
        is_input("requestHeader"@),
        is_input("requestProtocol"@),
        is_input("requestUrl"@),
        is_input("requestHostName"@),
        is_input("requestIp"@),
        is_input("requestAgent"@),
        is_input("requestId"@),
        is_input("responseTimestamp"@),
        is_input("responseStatus"@),
        is_input("responseBodyString"@),
        is_input("responseHeader"@),
        is_input("responseUser"@),
        !is_input("@timestamp"@),
        !is_input("ecs"@),
        !is_input("log"@),
        !is_input("event"@),
        !is_input("http"@),
        !is_input("url"@),
        !is_input("client"@),
        !is_input("user_agent"@),
        !is_input("labels"@),
        !is_input("user"@),
{
    reveal_strlit("requestTimestamp");
    reveal_strlit("requestMethod");
    reveal_strlit("requestContentType");
    reveal_strlit("requestBodyString");
    reveal_strlit("requestHeader");
    reveal_strlit("requestProtocol");
    reveal_strlit("requestUrl");
    reveal_strlit("requestHostName");
    reveal_strlit("requestIp");
    reveal_strlit("requestAgent");
    reveal_strlit("requestId");
    reveal_strlit("responseTimestamp");
    reveal_strlit("responseStatus");
    reveal_strlit("responseBodyString");
    reveal_strlit("responseHeader");
    reveal_strlit("responseUser");
    reveal_strlit("@timestamp");
    reveal_strlit("ecs");
    reveal_strlit("log");
    reveal_strlit("event");
    reveal_strlit("http");
    reveal_strlit("url");
    reveal_strlit("client");
    reveal_strlit("user_agent");
    reveal_strlit("labels");
    reveal_strlit("user");
}

/// Adds the rows that describe the request.
fn add_request(fields: &mut LogFields)
    ensures
        members(*final(fields)) == put_rows(
            members(*old(fields)),
            request_rows(members(*old(fields))),
        ),
{
    let ghost m = members(*fields);
    let ghost rows = request_rows(m);
    proof {
        lemma_names();
        assert(rows.take(0) =~= Seq::empty());
        assert(rows.take(11) =~= rows);
    }
    let method = field_as_string(fields, "requestMethod");
    insert_text(fields, &["http", "request", "method"], method);
    assert(members(*fields) == put_rows(m, rows.take(1)) && same_inputs(members(*fields), m)) by {
        assert(texts(["http", "request", "method"]@) =~= rows[0].path);
        lemma_put_rows_step(m, rows, 0);
        lemma_inputs_survive(m, rows, 1);
    }
    let content_type = field_as_string(fields, "requestContentType");
    insert_text(fields, &["http", "request", "mime_type"], content_type);
    assert(members(*fields) == put_rows(m, rows.take(2)) && same_inputs(members(*fields), m)) by {
        assert(texts(["http", "request", "mime_type"]@) =~= rows[1].path);
        lemma_put_rows_step(m, rows, 1);
        lemma_inputs_survive(m, rows, 2);
    }
    let body = field_as_string(fields, "requestBodyString");
    insert_text(fields, &["http", "request", "body", "content"], body);
    assert(members(*fields) == put_rows(m, rows.take(3)) && same_inputs(members(*fields), m)) by {
        assert(texts(["http", "request", "body", "content"]@) =~= rows[2].path);
        lemma_put_rows_step(m, rows, 2);
        lemma_inputs_survive(m, rows, 3);
    }
    let headers = field_as_object(fields, "requestHeader");
    if let Some(h) = headers {
        insert_nested_if_absent(fields, &["http", "request", "headers"], object_value(h));
    }
    assert(members(*fields) == put_rows(m, rows.take(4)) && same_inputs(members(*fields), m)) by {
        assert(texts(["http", "request", "headers"]@) =~= rows[3].path);
        lemma_put_rows_step(m, rows, 3);
        lemma_inputs_survive(m, rows, 4);
    }
    let protocol = field_as_string(fields, "requestProtocol");
    insert_text(fields, &["http", "version"], protocol);
    assert(members(*fields) == put_rows(m, rows.take(5)) && same_inputs(members(*fields), m)) by {
        assert(texts(["http", "version"]@) =~= rows[4].path);
        lemma_put_rows_step(m, rows, 4);
        lemma_inputs_survive(m, rows, 5);
    }
    let url = field_as_string(fields, "requestUrl");
    insert_text(fields, &["url", "full"], url);
    assert(members(*fields) == put_rows(m, rows.take(6)) && same_inputs(members(*fields), m)) by {
        assert(texts(["url", "full"]@) =~= rows[5].path);
        lemma_put_rows_step(m, rows, 5);
        lemma_inputs_survive(m, rows, 6);
    }
    let domain = drop_empty(field_as_string(fields, "requestHostName"));
    insert_text(fields, &["url", "domain"], domain);
    assert(members(*fields) == put_rows(m, rows.take(7)) && same_inputs(members(*fields), m)) by {
        assert(texts(["url", "domain"]@) =~= rows[6].path);
        lemma_put_rows_step(m, rows, 6);
        lemma_inputs_survive(m, rows, 7);
    }
    let ip = drop_empty(field_as_string(fields, "requestIp"));
    insert_text(fields, &["client", "ip"], ip);
    assert(members(*fields) == put_rows(m, rows.take(8)) && same_inputs(members(*fields), m)) by {
        assert(texts(["client", "ip"]@) =~= rows[7].path);
        lemma_put_rows_step(m, rows, 7);
        lemma_inputs_survive(m, rows, 8);
    }
    let agent = field_as_string(fields, "requestAgent");
    insert_text(fields, &["user_agent", "original"], agent);
    assert(members(*fields) == put_rows(m, rows.take(9)) && same_inputs(members(*fields), m)) by {
        assert(texts(["user_agent", "original"]@) =~= rows[8].path);
        lemma_put_rows_step(m, rows, 8);
        lemma_inputs_survive(m, rows, 9);
    }
    add_request_id(fields);
    proof {
        lemma_put_rows_step(m, rows, 9);
        lemma_put_rows_step(m, rows, 10);
    }
}

/// Adds the rows for the request's identifier.
fn add_request_id(fields: &mut LogFields)
    ensures
        members(*final(fields)) == put_row(
            put_row(members(*old(fields)), request_rows(members(*old(fields)))[9]),
            request_rows(members(*old(fields)))[10],
        ),
{
    let ghost rows = request_rows(members(*fields));
    let request_id = field_as_string(fields, "requestId");
    if let Some(id) = request_id {
        insert_nested_if_absent(fields, &["http", "request", "id"], text_value(id.as_str()));
        assert(texts(["http", "request", "id"]@) =~= rows[9].path);
        let ghost before = members(*fields);
        insert_nested_if_absent(fields, &["labels"], object_value(new_fields()));
        assert(texts(["labels"]@) =~= seq!["labels"@]);
        if let Some(labels) = object_field(fields, "labels") {
            default_field(labels, "request_id", string_value(id));
        }
        proof {
            lemma_put_pair(before, "labels"@, "request_id"@, Json::Text(id@));
            assert(members(*fields) =~= put_row(before, rows[10]));
        }
    }
}

proof fn lemma_put_pair(m: Members, key: Seq<char>, inner: Seq<char>, value: Json)
    ensures
        put(m, seq![key, inner], value) == m.insert(
            key,
            Json::Object(put(object_at(m, key), seq![inner], value)),
        ),
{
    assert(seq![key, inner].drop_first() =~= seq![inner]);
}

/// The start of the logged event that its fields state.
pub fn request_instant(fields: &LogFields) -> (r: Option<UtcInstant>)
    ensures
        r == field_instant(members(*fields), "requestTimestamp"@),
        r is Some ==> r->0.ok(),
{
    parse_timestamp(get_field(fields, "requestTimestamp"))
}

/// Adds the rows that describe the event itself.
fn add_event(fields: &mut LogFields, now: UtcInstant)
    requires
        now.ok(),
    ensures
        members(*final(fields)) == put_rows(
            members(*old(fields)),
            event_rows(members(*old(fields)), now),
        ),
{
    let ghost m = members(*fields);
    let ghost rows = event_rows(m, now);
    proof {
        assert(rows.take(0) =~= Seq::empty());
        assert(rows.take(8) =~= rows);
    }
    let request_ts = request_instant(fields);
    let response_ts = parse_timestamp(get_field(fields, "responseTimestamp"));
    let start = match request_ts {
        Some(at) => at,
        None => now,
    };
    let stamp = format_rfc3339(start, 0);
    default_field(fields, "@timestamp", text_value(stamp.as_str()));
    assert(members(*fields) == put_rows(m, rows.take(1))) by {
        lemma_put_rows_step(m, rows, 0);
    }
    insert_nested_if_absent(fields, &["ecs", "version"], text_value(ECS_VERSION));
    assert(members(*fields) == put_rows(m, rows.take(2))) by {
        assert(texts(["ecs", "version"]@) =~= rows[1].path);
        lemma_put_rows_step(m, rows, 1);
    }
    insert_nested_if_absent(fields, &["log", "level"], text_value("info"));
    assert(members(*fields) == put_rows(m, rows.take(3))) by {
        assert(texts(["log", "level"]@) =~= rows[2].path);
        lemma_put_rows_step(m, rows, 2);
    }
    insert_nested_if_absent(fields, &["event", "dataset"], text_value("welog"));
    assert(members(*fields) == put_rows(m, rows.take(4))) by {
        assert(texts(["event", "dataset"]@) =~= rows[3].path);
        lemma_put_rows_step(m, rows, 3);
    }
    insert_nested_if_absent(fields, &["event", "module"], text_value("welog_rs"));
    assert(members(*fields) == put_rows(m, rows.take(5))) by {
        assert(texts(["event", "module"]@) =~= rows[4].path);
        lemma_put_rows_step(m, rows, 4);
    }
    insert_nested_if_absent(fields, &["event", "start"], string_value(stamp));
    assert(members(*fields) == put_rows(m, rows.take(6))) by {
        assert(texts(["event", "start"]@) =~= rows[5].path);
        lemma_put_rows_step(m, rows, 5);
    }
    if let Some(end) = response_ts {
        let end_text = format_rfc3339(end, 0);
        insert_nested_if_absent(fields, &["event", "end"], string_value(end_text));
        assert(texts(["event", "end"]@) =~= rows[6].path);
        if let Some(begin) = request_ts {
            if let Some(nanos) = duration_nanos(begin, end) {
                insert_nested_if_absent(fields, &["event", "duration"], number_value(nanos));
                assert(texts(["event", "duration"]@) =~= rows[7].path);
            }
        }
    }
    proof {
        lemma_put_rows_step(m, rows, 6);
        lemma_put_rows_step(m, rows, 7);
    }
}

proof fn lemma_put_rows_concat(m: Members, first: Seq<Row>, second: Seq<Row>)
    ensures
        put_rows(m, first + second) == put_rows(put_rows(m, first), second),
    decreases second.len(),
{
    if second.len() == 0 {
        assert(first + second =~= first);
    } else {
        lemma_put_rows_concat(m, first, second.drop_last());
        assert((first + second).drop_last() =~= first + second.drop_last());
    }
}

pub(crate) proof fn lemma_same_inputs_same_rows(a: Members, b: Members, now: UtcInstant)
    requires
        same_inputs(a, b),
    ensures
        event_rows(a, now) == event_rows(b, now),
        request_rows(a) == request_rows(b),
        response_rows(a) == response_rows(b),
{
    lemma_names();
    assert(event_rows(a, now) =~= event_rows(b, now));
    assert(request_rows(a) =~= request_rows(b));
    assert(response_rows(a) =~= response_rows(b));
}

pub(crate) proof fn lemma_tables_spare_inputs(m: Members, now: UtcInstant)
    ensures
        spares_inputs(event_rows(m, now)),
        spares_inputs(request_rows(m)),
        spares_inputs(response_rows(m)),
        spares_inputs(ecs_rows(m, now)),
{
    lemma_names();
}

/// Log fields with their schema fields, for an event that starts at `now` where the fields state
/// no start.
pub fn enrich_with_ecs_at(fields: LogFields, now: UtcInstant) -> (r: LogFields)
    requires
        now.ok(),
    ensures
        members(r) == enriched(members(fields), now),
{
    let ghost m = members(fields);
    let mut out = fields;
    add_event(&mut out, now);
    proof {
        lemma_tables_spare_inputs(m, now);
        let rows = event_rows(m, now);
        assert(rows.take(rows.len() as int) =~= rows);
        lemma_inputs_survive(m, rows, rows.len() as int);
        lemma_same_inputs_same_rows(members(out), m, now);
        lemma_put_rows_concat(m, rows, request_rows(m));
    }
    add_request(&mut out);
    proof {
        let rows = event_rows(m, now) + request_rows(m);
        assert(rows.take(rows.len() as int) =~= rows);
        lemma_inputs_survive(m, rows, rows.len() as int);
        lemma_same_inputs_same_rows(members(out), m, now);
        lemma_put_rows_concat(m, rows, response_rows(m));
    }
    add_response(&mut out);
    out
}

/// Log fields with their schema fields. The current time stands in for a start that the fields do
/// not state.
pub fn enrich_with_ecs(fields: LogFields) -> (r: LogFields)
    ensures
        exists|now: UtcInstant|
            now.ok() && (field_instant(members(fields), "requestTimestamp"@) is None ==> clock_gave(
                now,
            )) && members(r) == #[trigger] enriched(members(fields), now),
        field_instant(members(fields), "requestTimestamp"@) is Some ==> forall|now: UtcInstant|
            members(r) == #[trigger] enriched(members(fields), now),
{
    let now = match request_instant(&fields) {
        Some(at) => at,
        None => utc_now(),
    };
    let r = enrich_with_ecs_at(fields, now);
    assert forall|other: UtcInstant| field_instant(members(fields), "requestTimestamp"@)
        is Some implies members(r) == #[trigger] enriched(members(fields), other) by {
        assert(event_rows(members(fields), now) =~= event_rows(members(fields), other));
    }
    r
}

} // verus!
