//! What enrichment keeps, adds and leaves alone.

use vstd::prelude::*;

use crate::clock::{
    elapsed, in_range, law_duration_is_the_time_between, law_elapsed_is_latency, response_instant,
    response_secs, rfc3339_instant, rfc3339_text, Latency, UtcInstant, NANOS_PER_SEC,
};
use crate::ecs::{
    ecs_rows, enriched, event_rows, field_instant, field_text, lemma_inputs_survive,
    lemma_put_rows_step, lemma_same_inputs_same_rows, lemma_tables_spare_inputs, lookup, object_at,
    opt_text, put, put_row, put_rows, request_rows, response_rows, Row,
};
use crate::json::{member, Json, Members, Num};

verus! {

/// Two paths that part at some element: neither leads through the other.
pub open spec fn parts(p: Seq<Seq<char>>, q: Seq<Seq<char>>) -> bool {
    exists|i: int| 0 <= i < p.len() && i < q.len() && #[trigger] p[i] != q[i]
}

/// A longer path that leads through the value at `p`.
pub open spec fn leads_through(q: Seq<Seq<char>>, p: Seq<Seq<char>>) -> bool {
    p.len() < q.len() && q.take(p.len() as int) == p
}

proof fn lemma_parts_tail(p: Seq<Seq<char>>, q: Seq<Seq<char>>)
    requires
        p.len() > 0,
        q.len() > 0,
        p[0] == q[0],
        parts(p, q),
    ensures
        parts(p.drop_first(), q.drop_first()),
{
    let i = choose|i: int| 0 <= i < p.len() && i < q.len() && #[trigger] p[i] != q[i];
    assert(p.drop_first()[i - 1] != q.drop_first()[i - 1]);
}

/// A value that is put at the end of a path is found there, unless one was there before, which
/// stays.
pub proof fn law_put_is_found(m: Members, path: Seq<Seq<char>>, value: Json)
    requires
        path.len() > 0,
    ensures
        lookup(put(m, path, value), path) == Some(
            match lookup(m, path) {
                Some(before) => before,
                None => value,
            },
        ),
    decreases path.len(),
{
    if path.len() > 1 {
        law_put_is_found(object_at(m, path[0]), path.drop_first(), value);
    }
}

/// Where a path ends in a value, putting another one there changes nothing.
pub proof fn law_put_keeps_what_is_there(m: Members, path: Seq<Seq<char>>, value: Json)
    requires
        lookup(m, path) is Some,
    ensures
        put(m, path, value) == m,
    decreases path.len(),
{
    if path.len() > 1 {
        law_put_keeps_what_is_there(object_at(m, path[0]), path.drop_first(), value);
        if !m.contains_key(path[0]) || !(m[path[0]] is Object) {
            lemma_nothing_in_empty(path.drop_first());
        }
        assert(put(m, path, value) =~= m);
    }
}

proof fn lemma_nothing_in_empty(path: Seq<Seq<char>>)
    ensures
        lookup(Map::empty(), path) is None,
    decreases path.len(),
{
    if path.len() > 1 {
        lemma_nothing_in_empty(path.drop_first());
        assert(object_at(Map::empty(), path[0]) == Members::empty());
    }
}

/// Putting a value at one path changes nothing at a path that parts from it.
pub proof fn law_put_is_local(m: Members, path: Seq<Seq<char>>, value: Json, other: Seq<Seq<char>>)
    requires
        parts(path, other),
    ensures
        lookup(put(m, path, value), other) == lookup(m, other),
    decreases path.len(),
{
    if path[0] == other[0] {
        lemma_parts_tail(path, other);
        law_put_is_local(
            object_at(m, path[0]),
            path.drop_first(),
            value,
            other.drop_first(),
        );
    }
}

proof fn lemma_put_keeps_found(
    m: Members,
    path: Seq<Seq<char>>,
    value: Json,
    other: Seq<Seq<char>>,
)
    requires
        lookup(m, other) is Some,
    ensures
        lookup(put(m, path, value), other) is Some,
        !leads_through(path, other) ==> lookup(put(m, path, value), other) == lookup(m, other),
    decreases path.len(),
{
    if path.len() > 0 && path[0] == other[0] {
        if path.len() == 1 {
            if !m.contains_key(path[0]) {
                lemma_nothing_in_empty(other.drop_first());
            }
        } else if other.len() == 1 {
            assert(path.take(1) =~= other);
        } else {
            if !m.contains_key(path[0]) || !(m[path[0]] is Object) {
                lemma_nothing_in_empty(other.drop_first());
            }
            lemma_put_keeps_found(
                object_at(m, path[0]),
                path.drop_first(),
                value,
                other.drop_first(),
            );
            if leads_through(path.drop_first(), other.drop_first()) {
                assert(path.take(other.len() as int) =~= other) by {
                    assert forall|i: int| 0 <= i < other.len() implies path.take(
                        other.len() as int,
                    )[i] == other[i] by {
                        if i > 0 {
                            assert(path.drop_first().take(other.len() - 1)[i - 1]
                                == other.drop_first()[i - 1]);
                        }
                    }
                }
            }
        }
    }
}

/// Whether a row has two elements in its path where it is gentle, and at least one otherwise.
spec fn row_ok(r: Row) -> bool {
    r.path.len() > 0 && (r.gentle ==> r.path.len() == 2)
}

proof fn lemma_row_keeps_found(m: Members, r: Row, other: Seq<Seq<char>>)
    requires
        row_ok(r),
        lookup(m, other) is Some,
    ensures
        lookup(put_row(m, r), other) is Some,
        r.value is Some && leads_through(r.path, other) || lookup(put_row(m, r), other) == lookup(
            m,
            other,
        ),
{
    if r.value is Some {
        lemma_put_keeps_found(m, r.path, r.value->0, other);
        if r.gentle {
            assert(r.path =~= seq![r.path[0], r.path[1]]);
        }
    }
}

proof fn lemma_rows_keep_found(m: Members, rows: Seq<Row>, other: Seq<Seq<char>>)
    requires
        forall|i: int| 0 <= i < rows.len() ==> row_ok(#[trigger] rows[i]),
        lookup(m, other) is Some,
    ensures
        lookup(put_rows(m, rows), other) is Some,
        (forall|i: int|
            0 <= i < rows.len() && (#[trigger] rows[i]).value is Some ==> !leads_through(
                rows[i].path,
                other,
            )) ==> lookup(put_rows(m, rows), other) == lookup(m, other),
    decreases rows.len(),
{
    if rows.len() > 0 {
        let front = rows.drop_last();
        assert forall|i: int| 0 <= i < front.len() implies row_ok(#[trigger] front[i]) by {
            assert(front[i] == rows[i]);
        }
        lemma_rows_keep_found(m, front, other);
        lemma_row_keeps_found(put_rows(m, front), rows.last(), other);
        if forall|i: int|
            0 <= i < rows.len() && (#[trigger] rows[i]).value is Some ==> !leads_through(
                rows[i].path,
                other,
            ) {
            assert forall|i: int|
                0 <= i < front.len() && (#[trigger] front[i]).value is Some implies !leads_through(
                front[i].path,
                other,
            ) by {
                assert(front[i] == rows[i]);
            }
        }
    }
}

proof fn lemma_table_ok(m: Members, now: UtcInstant)
    ensures
        ecs_rows(m, now).len() == 23,
        forall|i: int| 0 <= i < 23 ==> row_ok(#[trigger] ecs_rows(m, now)[i]),
{
}

/// A value that the caller put anywhere in the fields is still there after enrichment, unless a
/// row of the table leads through it.
pub proof fn law_enrichment_keeps_values(m: Members, now: UtcInstant, path: Seq<Seq<char>>)
    requires
        lookup(m, path) is Some,
        forall|i: int|
            0 <= i < ecs_rows(m, now).len() ==> !leads_through(
                (#[trigger] ecs_rows(m, now)[i]).path,
                path,
            ),
    ensures
        lookup(enriched(m, now), path) == lookup(m, path),
{
    lemma_table_ok(m, now);
    lemma_rows_keep_found(m, ecs_rows(m, now), path);
}

proof fn lemma_rows_keep_member(m: Members, rows: Seq<Row>, key: Seq<char>)
    requires
        forall|i: int|
            0 <= i < rows.len() ==> row_ok(#[trigger] rows[i]) && rows[i].path[0] != key,
    ensures
        member(put_rows(m, rows), key) == member(m, key),
    decreases rows.len(),
{
    if rows.len() > 0 {
        let front = rows.drop_last();
        assert forall|i: int| 0 <= i < front.len() implies row_ok(#[trigger] front[i])
            && front[i].path[0] != key by {
            assert(front[i] == rows[i]);
        }
        lemma_rows_keep_member(m, front, key);
    }
}

/// A field under a name at which no row of the table starts is left alone: what is there stays,
/// and nothing is added.
pub proof fn law_enrichment_leaves_other_fields_alone(m: Members, now: UtcInstant, key: Seq<char>)
    requires
        forall|i: int|
            0 <= i < ecs_rows(m, now).len() ==> (#[trigger] ecs_rows(m, now)[i]).path[0] != key,
    ensures
        member(enriched(m, now), key) == member(m, key),
{
    lemma_table_ok(m, now);
    lemma_rows_keep_member(m, ecs_rows(m, now), key);
}

/// A row that would change nothing: it has no value, its place is taken, or it is gentle and its
/// parent is no object.
pub open spec fn settled(m: Members, r: Row) -> bool {
    ||| r.value is None
    ||| lookup(m, r.path) is Some
    ||| r.gentle && m.contains_key(r.path[0]) && !(m[r.path[0]] is Object)
}

/// Whether applying `s` leaves `r` settled.
spec fn compatible(r: Row, s: Row) -> bool {
    r.gentle ==> s.gentle || s.path[0] != r.path[0]
}

proof fn lemma_settled_row_changes_nothing(m: Members, r: Row)
    requires
        row_ok(r),
        settled(m, r),
    ensures
        put_row(m, r) == m,
{
    if r.value is Some && lookup(m, r.path) is Some {
        law_put_keeps_what_is_there(m, r.path, r.value->0);
        if r.gentle {
            assert(r.path =~= seq![r.path[0], r.path[1]]);
        }
    }
}

proof fn lemma_applied_row_is_settled(m: Members, r: Row)
    requires
        row_ok(r),
    ensures
        settled(put_row(m, r), r),
{
    if r.value is Some {
        law_put_is_found(m, r.path, r.value->0);
        if r.gentle {
            assert(r.path =~= seq![r.path[0], r.path[1]]);
        }
    }
}

proof fn lemma_stays_settled(m: Members, r: Row, s: Row)
    requires
        row_ok(r),
        row_ok(s),
        compatible(r, s),
        settled(m, r),
    ensures
        settled(put_row(m, s), r),
{
    if lookup(m, r.path) is Some {
        lemma_row_keeps_found(m, s, r.path);
    }
}

/// A table whose rows leave each other settled.
spec fn table_ok(rows: Seq<Row>) -> bool {
    forall|i: int, j: int|
        0 <= i < rows.len() && 0 <= j < rows.len() ==> row_ok(#[trigger] rows[i]) && compatible(
            rows[i],
            #[trigger] rows[j],
        )
}

proof fn lemma_all_settled(m: Members, rows: Seq<Row>, n: int)
    requires
        table_ok(rows),
        0 <= n <= rows.len(),
    ensures
        forall|i: int| 0 <= i < n ==> settled(put_rows(m, rows.take(n)), #[trigger] rows[i]),
    decreases n,
{
    if n > 0 {
        lemma_all_settled(m, rows, n - 1);
        lemma_put_rows_step(m, rows, n - 1);
        let before = put_rows(m, rows.take(n - 1));
        lemma_applied_row_is_settled(before, rows[n - 1]);
        assert forall|i: int| 0 <= i < n implies settled(
            put_rows(m, rows.take(n)),
            #[trigger] rows[i],
        ) by {
            if i < n - 1 {
                lemma_stays_settled(before, rows[i], rows[n - 1]);
            }
        }
    }
}

proof fn lemma_settled_rows_change_nothing(m: Members, rows: Seq<Row>)
    requires
        forall|i: int| 0 <= i < rows.len() ==> row_ok(#[trigger] rows[i]) && settled(m, rows[i]),
    ensures
        put_rows(m, rows) == m,
    decreases rows.len(),
{
    if rows.len() > 0 {
        let front = rows.drop_last();
        assert forall|i: int| 0 <= i < front.len() implies row_ok(#[trigger] front[i]) && settled(
            m,
            front[i],
        ) by {
            assert(front[i] == rows[i]);
        }
        lemma_settled_rows_change_nothing(m, front);
        lemma_settled_row_changes_nothing(m, rows.last());
    }
}

proof fn lemma_labels_differ()
    ensures
        "@timestamp"@ != "labels"@,
        "ecs"@ != "labels"@,
        "log"@ != "labels"@,
        "event"@ != "labels"@,
        "http"@ != "labels"@,
        "url"@ != "labels"@,
        "client"@ != "labels"@,
        "user_agent"@ != "labels"@,
        "user"@ != "labels"@,
{
    reveal_strlit("labels");
    assert("labels"@.len() == 6 && "labels"@[0] == 'l');
    reveal_strlit("@timestamp");
    assert("@timestamp"@.len() == 10 && "@timestamp"@[0] == '@');
    reveal_strlit("ecs");
    assert("ecs"@.len() == 3 && "ecs"@[0] == 'e');
    reveal_strlit("log");
    assert("log"@.len() == 3 && "log"@[0] == 'l');
    reveal_strlit("event");
    assert("event"@.len() == 5 && "event"@[0] == 'e');
    reveal_strlit("http");
    assert("http"@.len() == 4 && "http"@[0] == 'h');
    reveal_strlit("url");
    assert("url"@.len() == 3 && "url"@[0] == 'u');
    reveal_strlit("client");
    assert("client"@.len() == 6 && "client"@[0] == 'c');
    reveal_strlit("user_agent");
    assert("user_agent"@.len() == 10 && "user_agent"@[0] == 'u');
    reveal_strlit("user");
    assert("user"@.len() == 4 && "user"@[0] == 'u');
}

proof fn lemma_ecs_table_ok(m: Members, now: UtcInstant)
    ensures
        table_ok(ecs_rows(m, now)),
{
    lemma_labels_differ();
    let rows = ecs_rows(m, now);
    assert forall|i: int, j: int| 0 <= i < rows.len() && 0 <= j < rows.len() implies row_ok(
        #[trigger] rows[i],
    ) && compatible(rows[i], #[trigger] rows[j]) by {
        if i == 18 && j != 18 {
            assert(rows[j].path[0] != "labels"@);
        }
    }
}

/// Enriching fields that are enriched already changes nothing, at whatever time.
pub proof fn law_enrichment_is_idempotent(m: Members, first: UtcInstant, second: UtcInstant)
    ensures
        enriched(enriched(m, first), second) == enriched(m, first),
{
    let rows = ecs_rows(m, first);
    let out = enriched(m, first);
    let again = ecs_rows(out, second);
    lemma_ecs_table_ok(m, first);
    assert(rows.take(rows.len() as int) =~= rows);
    lemma_all_settled(m, rows, rows.len() as int);
    lemma_tables_spare_inputs(m, first);
    lemma_inputs_survive(m, rows, rows.len() as int);
    lemma_same_inputs_same_rows(out, m, second);
    assert(again.len() == rows.len());
    assert forall|i: int| 0 <= i < again.len() implies row_ok(#[trigger] again[i]) && settled(
        out,
        again[i],
    ) by {
        assert(settled(out, rows[i]));
        assert(again[i].path == rows[i].path && again[i].gentle == rows[i].gentle && (
        again[i].value is Some <==> rows[i].value is Some)) by {
            if i < 8 {
                assert(again[i] == event_rows(m, second)[i]);
                assert(rows[i] == event_rows(m, first)[i]);
            } else {
                assert(again[i] == (request_rows(m) + response_rows(m))[i - 8]);
                assert(rows[i] == (request_rows(m) + response_rows(m))[i - 8]);
            }
        }
        lemma_table_ok(m, first);
    }
    lemma_settled_rows_change_nothing(out, again);
}

/// A number that tells the names in the table's paths apart: length and first letter.
spec fn mark(name: Seq<char>) -> int {
    name.len() * 256 + name[0] as int
}

proof fn lemma_marks()
    ensures
        mark("@timestamp"@) == 2624,
        mark("body"@) == 1122,
        mark("client"@) == 1635,
        mark("content"@) == 1891,
        mark("dataset"@) == 1892,
        mark("domain"@) == 1636,
        mark("duration"@) == 2148,
        mark("ecs"@) == 869,
        mark("end"@) == 869,
        mark("event"@) == 1381,
        mark("full"@) == 1126,
        mark("headers"@) == 1896,
        mark("http"@) == 1128,
        mark("id"@) == 617,
        mark("ip"@) == 617,
        mark("labels"@) == 1644,
        mark("level"@) == 1388,
        mark("log"@) == 876,
        mark("method"@) == 1645,
        mark("mime_type"@) == 2413,
        mark("module"@) == 1645,
        mark("name"@) == 1134,
        mark("original"@) == 2159,
        mark("request"@) == 1906,
        mark("request_id"@) == 2674,
        mark("response"@) == 2162,
        mark("start"@) == 1395,
        mark("status_code"@) == 2931,
        mark("url"@) == 885,
        mark("user"@) == 1141,
        mark("user_agent"@) == 2677,
        mark("version"@) == 1910,
{
    reveal_strlit("@timestamp");
    assert("@timestamp"@.len() == 10 && "@timestamp"@[0] == '@');
    reveal_strlit("body");
    assert("body"@.len() == 4 && "body"@[0] == 'b');
    reveal_strlit("client");
    assert("client"@.len() == 6 && "client"@[0] == 'c');
    reveal_strlit("content");
    assert("content"@.len() == 7 && "content"@[0] == 'c');
    reveal_strlit("dataset");
    assert("dataset"@.len() == 7 && "dataset"@[0] == 'd');
    reveal_strlit("domain");
    assert("domain"@.len() == 6 && "domain"@[0] == 'd');
    reveal_strlit("duration");
    assert("duration"@.len() == 8 && "duration"@[0] == 'd');
    reveal_strlit("ecs");
    assert("ecs"@.len() == 3 && "ecs"@[0] == 'e');
    reveal_strlit("end");
    assert("end"@.len() == 3 && "end"@[0] == 'e');
    reveal_strlit("event");
    assert("event"@.len() == 5 && "event"@[0] == 'e');
    reveal_strlit("full");
    assert("full"@.len() == 4 && "full"@[0] == 'f');
    reveal_strlit("headers");
    assert("headers"@.len() == 7 && "headers"@[0] == 'h');
    reveal_strlit("http");
    assert("http"@.len() == 4 && "http"@[0] == 'h');
    reveal_strlit("id");
    assert("id"@.len() == 2 && "id"@[0] == 'i');
    reveal_strlit("ip");
    assert("ip"@.len() == 2 && "ip"@[0] == 'i');
    reveal_strlit("labels");
    assert("labels"@.len() == 6 && "labels"@[0] == 'l');
    reveal_strlit("level");
    assert("level"@.len() == 5 && "level"@[0] == 'l');
    reveal_strlit("log");
    assert("log"@.len() == 3 && "log"@[0] == 'l');
    reveal_strlit("method");
    assert("method"@.len() == 6 && "method"@[0] == 'm');
    reveal_strlit("mime_type");
    assert("mime_type"@.len() == 9 && "mime_type"@[0] == 'm');
    reveal_strlit("module");
    assert("module"@.len() == 6 && "module"@[0] == 'm');
    reveal_strlit("name");
    assert("name"@.len() == 4 && "name"@[0] == 'n');
    reveal_strlit("original");
    assert("original"@.len() == 8 && "original"@[0] == 'o');
    reveal_strlit("request");
    assert("request"@.len() == 7 && "request"@[0] == 'r');
    reveal_strlit("request_id");
    assert("request_id"@.len() == 10 && "request_id"@[0] == 'r');
    reveal_strlit("response");
    assert("response"@.len() == 8 && "response"@[0] == 'r');
    reveal_strlit("start");
    assert("start"@.len() == 5 && "start"@[0] == 's');
    reveal_strlit("status_code");
    assert("status_code"@.len() == 11 && "status_code"@[0] == 's');
    reveal_strlit("url");
    assert("url"@.len() == 3 && "url"@[0] == 'u');
    reveal_strlit("user");
    assert("user"@.len() == 4 && "user"@[0] == 'u');
    reveal_strlit("user_agent");
    assert("user_agent"@.len() == 10 && "user_agent"@[0] == 'u');
    reveal_strlit("version");
    assert("version"@.len() == 7 && "version"@[0] == 'v');
}

/// The marks along the path of a row of the table, with 0 behind its end.
spec fn marks(i: int) -> (int, int, int, int) {
    if i == 0 {
        (2624, 0, 0, 0)
    } else if i == 1 {
        (869, 1910, 0, 0)
    } else if i == 2 {
        (876, 1388, 0, 0)
    } else if i == 3 {
        (1381, 1892, 0, 0)
    } else if i == 4 {
        (1381, 1645, 0, 0)
    } else if i == 5 {
        (1381, 1395, 0, 0)
    } else if i == 6 {
        (1381, 869, 0, 0)
    } else if i == 7 {
        (1381, 2148, 0, 0)
    } else if i == 8 {
        (1128, 1906, 1645, 0)
    } else if i == 9 {
        (1128, 1906, 2413, 0)
    } else if i == 10 {
        (1128, 1906, 1122, 1891)
    } else if i == 11 {
        (1128, 1906, 1896, 0)
    } else if i == 12 {
        (1128, 1910, 0, 0)
    } else if i == 13 {
        (885, 1126, 0, 0)
    } else if i == 14 {
        (885, 1636, 0, 0)
    } else if i == 15 {
        (1635, 617, 0, 0)
    } else if i == 16 {
        (2677, 2159, 0, 0)
    } else if i == 17 {
        (1128, 1906, 617, 0)
    } else if i == 18 {
        (1644, 2674, 0, 0)
    } else if i == 19 {
        (1128, 2162, 2931, 0)
    } else if i == 20 {
        (1128, 2162, 1122, 1891)
    } else if i == 21 {
        (1128, 2162, 1896, 0)
    } else {
        (1141, 1134, 0, 0)
    }
}

proof fn lemma_row_marks(m: Members, now: UtcInstant, i: int)
    requires
        0 <= i < 23,
    ensures
        ({
            let path = ecs_rows(m, now)[i].path;
            &&& path.len() >= 1 && mark(path[0]) == marks(i).0
            &&& if path.len() >= 2 {
                mark(path[1]) == marks(i).1
            } else {
                marks(i).1 == 0
            }
            &&& if path.len() >= 3 {
                mark(path[2]) == marks(i).2
            } else {
                marks(i).2 == 0
            }
            &&& if path.len() >= 4 {
                mark(path[3]) == marks(i).3
            } else {
                marks(i).3 == 0
            }
        }),
{
    lemma_marks();
}

proof fn lemma_marks_part(i: int, j: int)
    requires
        0 <= i < 23,
        0 <= j < 23,
        i != j,
    ensures
        ({
            let a = marks(i);
            let b = marks(j);
            ||| a.0 != b.0
            ||| a.1 != 0 && b.1 != 0 && a.1 != b.1
            ||| a.2 != 0 && b.2 != 0 && a.2 != b.2
            ||| a.3 != 0 && b.3 != 0 && a.3 != b.3
        }),
{
}

proof fn lemma_rows_part(m: Members, now: UtcInstant, i: int, j: int)
    requires
        0 <= i < 23,
        0 <= j < 23,
        i != j,
    ensures
        parts(ecs_rows(m, now)[i].path, ecs_rows(m, now)[j].path),
{
    let p = ecs_rows(m, now)[i].path;
    let q = ecs_rows(m, now)[j].path;
    lemma_row_marks(m, now, i);
    lemma_row_marks(m, now, j);
    lemma_marks_part(i, j);
    if p[0] != q[0] {
    } else if p.len() >= 2 && q.len() >= 2 && p[1] != q[1] {
    } else if p.len() >= 3 && q.len() >= 3 && p[2] != q[2] {
    } else {
        assert(p[3] != q[3]);
    }
}

proof fn lemma_row_is_local(m: Members, r: Row, other: Seq<Seq<char>>)
    requires
        row_ok(r),
        parts(r.path, other),
    ensures
        lookup(put_row(m, r), other) == lookup(m, other),
{
    if r.value is Some {
        law_put_is_local(m, r.path, r.value->0, other);
        if r.gentle {
            assert(r.path =~= seq![r.path[0], r.path[1]]);
        }
    }
}

proof fn lemma_value_after_rows(m: Members, now: UtcInstant, i: int, n: int)
    requires
        0 <= i < 23,
        0 <= n <= 23,
        i != 18 || !(m.contains_key("labels"@) && !(m["labels"@] is Object)),
    ensures
        lookup(put_rows(m, ecs_rows(m, now).take(n)), ecs_rows(m, now)[i].path) == (if n <= i {
            lookup(m, ecs_rows(m, now)[i].path)
        } else {
            match lookup(m, ecs_rows(m, now)[i].path) {
                Some(before) => Some(before),
                None => ecs_rows(m, now)[i].value,
            }
        }),
    decreases n,
{
    let rows = ecs_rows(m, now);
    lemma_table_ok(m, now);
    if n > 0 {
        lemma_value_after_rows(m, now, i, n - 1);
        lemma_put_rows_step(m, rows, n - 1);
        let before = put_rows(m, rows.take(n - 1));
        if n - 1 == i {
            if rows[i].value is Some {
                law_put_is_found(before, rows[i].path, rows[i].value->0);
            }
            if i == 18 {
                lemma_labels_differ();
                assert forall|j: int| 0 <= j < 18 implies row_ok(#[trigger] rows.take(18)[j])
                    && rows.take(18)[j].path[0] != "labels"@ by {
                    assert(rows.take(18)[j] == rows[j]);
                }
                lemma_rows_keep_member(m, rows.take(18), "labels"@);
                assert(member(before, "labels"@) == member(m, "labels"@));
            }
        } else {
            lemma_rows_part(m, now, n - 1, i);
            lemma_row_is_local(before, rows[n - 1], rows[i].path);
        }
    } else {
        assert(rows.take(0) =~= Seq::empty());
    }
}

/// At the place of every row but the gentle one, enriched fields hold the value that was there,
/// and where there was none the row's value, if it has one.
pub proof fn law_enrichment_fills_the_table(m: Members, now: UtcInstant, i: int)
    requires
        0 <= i < ecs_rows(m, now).len(),
        !ecs_rows(m, now)[i].gentle,
    ensures
        lookup(enriched(m, now), ecs_rows(m, now)[i].path) == (match lookup(
            m,
            ecs_rows(m, now)[i].path,
        ) {
            Some(before) => Some(before),
            None => ecs_rows(m, now)[i].value,
        }),
{
    lemma_table_ok(m, now);
    lemma_value_after_rows(m, now, i, 23);
    assert(ecs_rows(m, now).take(23) =~= ecs_rows(m, now));
}

/// Enriched fields carry the request's identifier as a label, unless they had such a label before,
/// which stays, or had something other than an object in place of the labels.
pub proof fn law_enrichment_labels_the_request(m: Members, now: UtcInstant)
    requires
        !(m.contains_key("labels"@) && !(m["labels"@] is Object)),
    ensures
        lookup(enriched(m, now), seq!["labels"@, "request_id"@]) == (match lookup(
            m,
            seq!["labels"@, "request_id"@],
        ) {
            Some(before) => Some(before),
            None => opt_text(field_text(m, "requestId"@)),
        }),
{
    lemma_value_after_rows(m, now, 18, 23);
    assert(ecs_rows(m, now).take(23) =~= ecs_rows(m, now));
}

/// A path whose first name is absent leads nowhere.
pub proof fn law_nothing_under_an_absent_name(m: Members, path: Seq<Seq<char>>)
    requires
        path.len() > 0,
        !m.contains_key(path[0]),
    ensures
        lookup(m, path) is None,
{
    assert(object_at(m, path[0]) == Members::empty());
    lemma_nothing_in_empty(path.drop_first());
}

proof fn lemma_heads(m: Members, now: UtcInstant, i: int)
    requires
        0 <= i < ecs_rows(m, now).len(),
    ensures
        ecs_rows(m, now)[i].path[0].len() > 0,
        ecs_rows(m, now)[i].path[0][0] != 't',
        ecs_rows(m, now)[i].path[0][0] != 'r',
        ecs_rows(m, now)[i].path[0][0] != 'g',
{
    lemma_table_ok(m, now);
    reveal_strlit("@timestamp");
    reveal_strlit("ecs");
    reveal_strlit("log");
    reveal_strlit("event");
    reveal_strlit("http");
    reveal_strlit("url");
    reveal_strlit("client");
    reveal_strlit("user_agent");
    reveal_strlit("labels");
    reveal_strlit("user");
}

/// The fields that the logs of requests and calls set are in the enriched fields as they were:
/// their names start with the letters g, r or t, and no row of the table starts with such a name.
pub proof fn law_enrichment_keeps_logged_fields(m: Members, now: UtcInstant, key: Seq<char>)
    requires
        key.len() > 0,
        key[0] == 'g' || key[0] == 'r' || key[0] == 't',
    ensures
        member(enriched(m, now), key) == member(m, key),
{
    lemma_table_ok(m, now);
    assert forall|i: int| 0 <= i < ecs_rows(m, now).len() implies (#[trigger] ecs_rows(
        m,
        now,
    )[i]).path[0] != key by {
        lemma_heads(m, now, i);
    }
    law_enrichment_leaves_other_fields_alone(m, now, key);
}

/// Enriched fields name the request in each place where the schema wants it, where the fields
/// named it and had nothing of their own in these places.
pub proof fn law_request_is_named(m: Members, now: UtcInstant, request_id: Seq<char>)
    requires
        member(m, "requestId"@) == Some(Json::Text(request_id)),
        !m.contains_key("http"@),
        !m.contains_key("labels"@),
    ensures
        lookup(enriched(m, now), seq!["http"@, "request"@, "id"@]) == Some(Json::Text(request_id)),
        lookup(enriched(m, now), seq!["labels"@, "request_id"@]) == Some(Json::Text(request_id)),
{
    law_nothing_under_an_absent_name(m, seq!["http"@, "request"@, "id"@]);
    law_nothing_under_an_absent_name(m, seq!["labels"@, "request_id"@]);
    law_enrichment_fills_the_table(m, now, 17);
    assert(ecs_rows(m, now)[17] == request_rows(m)[9]);
    law_enrichment_labels_the_request(m, now);
}

/// The duration of an event, as enriched fields state it, is the latency, where the fields state
/// the times of the request and of the response that came after that latency, and state no
/// duration of their own.
pub proof fn law_event_duration_is_the_latency(
    m: Members,
    now: UtcInstant,
    start: UtcInstant,
    latency: Latency,
)
    requires
        field_instant(m, "requestTimestamp"@) == Some(start),
        field_instant(m, "responseTimestamp"@) == Some(response_instant(start, latency)),
        start.ok(),
        start.nanos < NANOS_PER_SEC,
        latency.ok(),
        latency.fits(),
        latency.total_nanos() <= i64::MAX,
        in_range(response_secs(start, latency)),
        lookup(m, seq!["event"@, "duration"@]) is None,
    ensures
        lookup(enriched(m, now), seq!["event"@, "duration"@]) == Some(
            Json::Number(Num::Unsigned(latency.total_nanos() as u64)),
        ),
{
    law_elapsed_is_latency(start, latency);
    law_enrichment_fills_the_table(m, now, 7);
    assert(ecs_rows(m, now)[7] == event_rows(m, now)[7]);
}

/// Whether a record has at a path what the fields had there, and this value where they had nothing.
pub open spec fn gets(
    m: Members,
    record: Members,
    path: Seq<Seq<char>>,
    value: Option<Json>,
) -> bool {
    lookup(record, path) == (if lookup(m, path) is Some {
        lookup(m, path)
    } else {
        value
    })
}

/// A field that is a text.
pub open spec fn text_field(m: Members, key: Seq<char>) -> Option<Json> {
    if m.contains_key(key) && m[key] is Text {
        Some(m[key])
    } else {
        None
    }
}

/// A field that is a text and not empty.
pub open spec fn filled_text_field(m: Members, key: Seq<char>) -> Option<Json> {
    if m.contains_key(key) && m[key] is Text && m[key]->Text_0.len() > 0 {
        Some(m[key])
    } else {
        None
    }
}

/// A field that is an object.
pub open spec fn object_field_of(m: Members, key: Seq<char>) -> Option<Json> {
    if m.contains_key(key) && m[key] is Object {
        Some(m[key])
    } else {
        None
    }
}

/// A field that is a number.
pub open spec fn number_field(m: Members, key: Seq<char>) -> Option<Json> {
    if m.contains_key(key) && m[key] is Number {
        Some(m[key])
    } else {
        None
    }
}

/// The time that a field holds as RFC 3339 text.
pub open spec fn time_field(m: Members, key: Seq<char>) -> Option<(i64, u32)> {
    if m.contains_key(key) && m[key] is Text {
        rfc3339_instant(m[key]->Text_0)
    } else {
        None
    }
}

/// Whether a record says of the event when it started, in UTC, and what kind of event it is.
pub open spec fn describes_event(m: Members, record: Members, now: UtcInstant) -> bool {
    let start = match time_field(m, "requestTimestamp"@) {
        Some((secs, nanos)) => Json::Text(rfc3339_text(secs, nanos, 0)),
        None => Json::Text(rfc3339_text(now.secs, now.nanos, 0)),
    };
    &&& gets(m, record, seq!["@timestamp"@], Some(start))
    &&& gets(m, record, seq!["ecs"@, "version"@], Some(Json::Text("9.2.0"@)))
    &&& gets(m, record, seq!["log"@, "level"@], Some(Json::Text("info"@)))
    &&& gets(m, record, seq!["event"@, "dataset"@], Some(Json::Text("welog"@)))
    &&& gets(m, record, seq!["event"@, "module"@], Some(Json::Text("welog_rs"@)))
    &&& gets(m, record, seq!["event"@, "start"@], Some(start))
}

/// What the record says of the event: when it started, which is the request's time in UTC, and the
/// given time where the fields state none; the version of the schema, the level, the data set and
/// the module.
pub proof fn law_record_describes_the_event(m: Members, now: UtcInstant)
    ensures
        describes_event(m, enriched(m, now), now),
{
    let start = match time_field(m, "requestTimestamp"@) {
        Some((secs, nanos)) => Json::Text(rfc3339_text(secs, nanos, 0)),
        None => Json::Text(rfc3339_text(now.secs, now.nanos, 0)),
    };
    lemma_table_ok(m, now);
    law_enrichment_fills_the_table(m, now, 0);
    assert(ecs_rows(m, now)[0].path =~= seq!["@timestamp"@]);
    assert(ecs_rows(m, now)[0].value == (Some(start)));
    law_enrichment_fills_the_table(m, now, 1);
    assert(ecs_rows(m, now)[1].path =~= seq!["ecs"@, "version"@]);
    assert(ecs_rows(m, now)[1].value == (Some(Json::Text("9.2.0"@))));
    law_enrichment_fills_the_table(m, now, 2);
    assert(ecs_rows(m, now)[2].path =~= seq!["log"@, "level"@]);
    assert(ecs_rows(m, now)[2].value == (Some(Json::Text("info"@))));
    law_enrichment_fills_the_table(m, now, 3);
    assert(ecs_rows(m, now)[3].path =~= seq!["event"@, "dataset"@]);
    assert(ecs_rows(m, now)[3].value == (Some(Json::Text("welog"@))));
    law_enrichment_fills_the_table(m, now, 4);
    assert(ecs_rows(m, now)[4].path =~= seq!["event"@, "module"@]);
    assert(ecs_rows(m, now)[4].value == (Some(Json::Text("welog_rs"@))));
    law_enrichment_fills_the_table(m, now, 5);
    assert(ecs_rows(m, now)[5].path =~= seq!["event"@, "start"@]);
    assert(ecs_rows(m, now)[5].value == (Some(start)));
}

/// Whether a record says of the event when it ended, in UTC, and how long it took.
pub open spec fn describes_end(m: Members, record: Members) -> bool {
    let start = time_field(m, "requestTimestamp"@);
    let end = time_field(m, "responseTimestamp"@);
    &&& gets(
        m,
        record,
        seq!["event"@, "end"@],
        if end is Some {
            Some(Json::Text(rfc3339_text((end->0).0, (end->0).1, 0)))
        } else {
            None
        },
    )
    &&& start is None || end is None ==> gets(
        m,
        record,
        seq!["event"@, "duration"@],
        None,
    )
    &&& start is Some && end is Some ==> ({
        let took = elapsed(
            UtcInstant { secs: (start->0).0, nanos: (start->0).1 },
            UtcInstant { secs: (end->0).0, nanos: (end->0).1 },
        );
        gets(
            m,
            record,
            seq!["event"@, "duration"@],
            if 0 <= took <= 0x7fff_ffff_ffff_ffff {
                Some(Json::Number(Num::Unsigned(took as u64)))
            } else {
                None
            },
        )
    })
    &&& start is Some && end is Some && (start->0).1 < 1_000_000_000 && (end->0).1
        < 1_000_000_000 ==> ({
        let between = ((end->0).0 * 1_000_000_000 + (end->0).1) - ((start->0).0
            * 1_000_000_000 + (start->0).1);
        gets(
            m,
            record,
            seq!["event"@, "duration"@],
            if 0 <= between <= 0x7fff_ffff_ffff_ffff {
                Some(Json::Number(Num::Unsigned(between as u64)))
            } else {
                None
            },
        )
    })
}

/// What the record says of the end of the event: the response's time in UTC, and how long the event
/// took, from the request's time to the response's, where the fields state both and the response
/// does not come first.
pub proof fn law_record_describes_the_end(m: Members, now: UtcInstant)
    ensures
        describes_end(m, enriched(m, now)),
{
    lemma_table_ok(m, now);
    law_enrichment_fills_the_table(m, now, 6);
    assert(ecs_rows(m, now)[6].path =~= seq!["event"@, "end"@]);
    law_enrichment_fills_the_table(m, now, 7);
    assert(ecs_rows(m, now)[7].path =~= seq!["event"@, "duration"@]);
    let start = time_field(m, "requestTimestamp"@);
    let end = time_field(m, "responseTimestamp"@);
    if start is Some && end is Some && (start->0).1 < 1_000_000_000 && (end->0).1 < 1_000_000_000 {
        law_duration_is_the_time_between(
            UtcInstant { secs: (start->0).0, nanos: (start->0).1 },
            UtcInstant { secs: (end->0).0, nanos: (end->0).1 },
        );
    }
}

/// Whether a record says of the request what its fields say, where the schema wants it.
pub open spec fn describes_request(m: Members, record: Members) -> bool {
    &&& gets(m, record, seq!["http"@, "request"@, "method"@], text_field(m, "requestMethod"@))
    &&& gets(
        m,
        record,
        seq!["http"@, "request"@, "mime_type"@],
        text_field(m, "requestContentType"@),
    )
    &&& gets(
        m,
        record,
        seq!["http"@, "request"@, "body"@, "content"@],
        text_field(m, "requestBodyString"@),
    )
    &&& gets(m, record, seq!["http"@, "request"@, "headers"@], object_field_of(m, "requestHeader"@))
    &&& gets(m, record, seq!["http"@, "version"@], text_field(m, "requestProtocol"@))
    &&& gets(m, record, seq!["url"@, "full"@], text_field(m, "requestUrl"@))
    &&& gets(m, record, seq!["url"@, "domain"@], filled_text_field(m, "requestHostName"@))
    &&& gets(m, record, seq!["client"@, "ip"@], filled_text_field(m, "requestIp"@))
    &&& gets(m, record, seq!["user_agent"@, "original"@], text_field(m, "requestAgent"@))
    &&& gets(m, record, seq!["http"@, "request"@, "id"@], text_field(m, "requestId"@))
}

/// What the record says of the request, in the places where the schema wants it: each from the one
/// field that tells it.
pub proof fn law_record_describes_the_request(m: Members, now: UtcInstant)
    ensures
        describes_request(m, enriched(m, now)),
{
    lemma_table_ok(m, now);
    law_enrichment_fills_the_table(m, now, 8);
    assert(ecs_rows(m, now)[8].path =~= seq!["http"@, "request"@, "method"@]);
    assert(ecs_rows(m, now)[8].value == (text_field(m, "requestMethod"@)));
    law_enrichment_fills_the_table(m, now, 9);
    assert(ecs_rows(m, now)[9].path =~= seq!["http"@, "request"@, "mime_type"@]);
    assert(ecs_rows(m, now)[9].value == (text_field(m, "requestContentType"@)));
    law_enrichment_fills_the_table(m, now, 10);
    assert(ecs_rows(m, now)[10].path =~= seq!["http"@, "request"@, "body"@, "content"@]);
    assert(ecs_rows(m, now)[10].value == (text_field(m, "requestBodyString"@)));
    law_enrichment_fills_the_table(m, now, 11);
    assert(ecs_rows(m, now)[11].path =~= seq!["http"@, "request"@, "headers"@]);
    assert(ecs_rows(m, now)[11].value == (object_field_of(m, "requestHeader"@)));
    law_enrichment_fills_the_table(m, now, 12);
    assert(ecs_rows(m, now)[12].path =~= seq!["http"@, "version"@]);
    assert(ecs_rows(m, now)[12].value == (text_field(m, "requestProtocol"@)));
    law_enrichment_fills_the_table(m, now, 13);
    assert(ecs_rows(m, now)[13].path =~= seq!["url"@, "full"@]);
    assert(ecs_rows(m, now)[13].value == (text_field(m, "requestUrl"@)));
    law_enrichment_fills_the_table(m, now, 14);
    assert(ecs_rows(m, now)[14].path =~= seq!["url"@, "domain"@]);
    assert(ecs_rows(m, now)[14].value == (filled_text_field(m, "requestHostName"@)));
    law_enrichment_fills_the_table(m, now, 15);
    assert(ecs_rows(m, now)[15].path =~= seq!["client"@, "ip"@]);
    assert(ecs_rows(m, now)[15].value == (filled_text_field(m, "requestIp"@)));
    law_enrichment_fills_the_table(m, now, 16);
    assert(ecs_rows(m, now)[16].path =~= seq!["user_agent"@, "original"@]);
    assert(ecs_rows(m, now)[16].value == (text_field(m, "requestAgent"@)));
    law_enrichment_fills_the_table(m, now, 17);
    assert(ecs_rows(m, now)[17].path =~= seq!["http"@, "request"@, "id"@]);
    assert(ecs_rows(m, now)[17].value == (text_field(m, "requestId"@)));
}

/// Whether a record says of the response what its fields say, where the schema wants it.
pub open spec fn describes_response(m: Members, record: Members) -> bool {
    &&& gets(
        m,
        record,
        seq!["http"@, "response"@, "status_code"@],
        number_field(m, "responseStatus"@),
    )
    &&& gets(
        m,
        record,
        seq!["http"@, "response"@, "body"@, "content"@],
        text_field(m, "responseBodyString"@),
    )
    &&& gets(
        m,
        record,
        seq!["http"@, "response"@, "headers"@],
        object_field_of(m, "responseHeader"@),
    )
    &&& gets(m, record, seq!["user"@, "name"@], text_field(m, "responseUser"@))
}

/// What the record says of the response, in the places where the schema wants it: each from the one
/// field that tells it.
pub proof fn law_record_describes_the_response(m: Members, now: UtcInstant)
    ensures
        describes_response(m, enriched(m, now)),
{
    lemma_table_ok(m, now);
    law_enrichment_fills_the_table(m, now, 19);
    assert(ecs_rows(m, now)[19].path =~= seq!["http"@, "response"@, "status_code"@]);
    assert(ecs_rows(m, now)[19].value == (number_field(m, "responseStatus"@)));
    law_enrichment_fills_the_table(m, now, 20);
    assert(ecs_rows(m, now)[20].path =~= seq!["http"@, "response"@, "body"@, "content"@]);
    assert(ecs_rows(m, now)[20].value == (text_field(m, "responseBodyString"@)));
    law_enrichment_fills_the_table(m, now, 21);
    assert(ecs_rows(m, now)[21].path =~= seq!["http"@, "response"@, "headers"@]);
    assert(ecs_rows(m, now)[21].value == (object_field_of(m, "responseHeader"@)));
    law_enrichment_fills_the_table(m, now, 22);
    assert(ecs_rows(m, now)[22].path =~= seq!["user"@, "name"@]);
    assert(ecs_rows(m, now)[22].value == (text_field(m, "responseUser"@)));
}

/// The record has the request's identifier as a label. Labels that are no object stay as they are.
pub proof fn law_record_labels_the_request(m: Members, now: UtcInstant)
    ensures
        m.contains_key("labels"@) && !(m["labels"@] is Object) ==> enriched(m, now).contains_key(
            "labels"@,
        ) && enriched(m, now)["labels"@] == m["labels"@],
        !(m.contains_key("labels"@) && !(m["labels"@] is Object)) ==> gets(
            m,
            enriched(m, now),
            seq!["labels"@, "request_id"@],
            text_field(m, "requestId"@),
        ),
{
    if m.contains_key("labels"@) && !(m["labels"@] is Object) {
        let rows = ecs_rows(m, now);
        lemma_table_ok(m, now);
        lemma_labels_differ();
        assert forall|j: int| 0 <= j < 18 implies row_ok(#[trigger] rows.take(18)[j])
            && rows.take(18)[j].path[0] != "labels"@ by {
            assert(rows.take(18)[j] == rows[j]);
        }
        lemma_rows_keep_member(m, rows.take(18), "labels"@);
        lemma_put_rows_step(m, rows, 18);
        let before = put_rows(m, rows.take(18));
        assert(put_row(before, rows[18]) == before);
        lemma_put_rows_step(m, rows, 19);
        lemma_put_rows_step(m, rows, 20);
        lemma_put_rows_step(m, rows, 21);
        lemma_put_rows_step(m, rows, 22);
        assert(rows.take(23) =~= rows);
        assert(member(enriched(m, now), "labels"@) == member(before, "labels"@));
    } else {
        law_enrichment_labels_the_request(m, now);
    }
}

/// A record has under every other name than the ten of the schema what the fields had there, and
/// nothing where they had nothing.
pub proof fn law_record_has_no_other_fields(m: Members, now: UtcInstant, key: Seq<char>)
    requires
        key != "@timestamp"@,
        key != "ecs"@,
        key != "log"@,
        key != "event"@,
        key != "http"@,
        key != "url"@,
        key != "client"@,
        key != "user_agent"@,
        key != "labels"@,
        key != "user"@,
    ensures
        enriched(m, now).contains_key(key) <==> m.contains_key(key),
        m.contains_key(key) ==> enriched(m, now)[key] == m[key],
{
    lemma_table_ok(m, now);
    assert forall|i: int| 0 <= i < ecs_rows(m, now).len() implies (#[trigger] ecs_rows(
        m,
        now,
    )[i]).path[0] != key by {}
    law_enrichment_leaves_other_fields_alone(m, now, key);
    assert(member(enriched(m, now), key) == member(m, key));
}

/// A path leads to the member of its only name, and otherwise through the object under its first
/// name; it leads nowhere where something else is there.
pub proof fn law_path_leads_through_objects(m: Members, key: Seq<char>, rest: Seq<Seq<char>>)
    ensures
        m.contains_key(key) ==> lookup(m, seq![key]) == Some(m[key]),
        !m.contains_key(key) ==> lookup(m, seq![key] + rest) is None,
        rest.len() > 0 && m.contains_key(key) ==> lookup(m, seq![key] + rest) == (match m[key] {
            Json::Object(inner) => lookup(inner, rest),
            _ => None,
        }),
{
    let path = seq![key] + rest;
    assert(path.drop_first() =~= rest);
    lemma_nothing_in_empty(rest);
    if !m.contains_key(key) {
        law_nothing_under_an_absent_name(m, path);
    }
}

/// The text of a field is there only where the field is a text.
pub proof fn law_only_text_is_read_from_a_field(m: Members, key: Seq<char>)
    ensures
        m.contains_key(key) && m[key] is Text ==> field_text(m, key) == Some(m[key]->Text_0),
        !(m.contains_key(key) && m[key] is Text) ==> field_text(m, key) is None,
{
}

/// The fields of a record that the log itself set: those whose names start with the letters g, r or
/// t, and no name of the schema does.
pub open spec fn logged_part(record: Members) -> Members {
    Map::new(
        |key: Seq<char>|
            record.contains_key(key) && key.len() > 0 && (key[0] == 'g' || key[0] == 'r' || key[0]
                == 't'),
        |key: Seq<char>| record[key],
    )
}

/// Fields whose names all start with the letters g, r or t are found again in their record.
pub proof fn law_logged_fields_are_found_again(m: Members, now: UtcInstant)
    requires
        forall|key: Seq<char>| #[trigger]
            m.contains_key(key) ==> key.len() > 0 && (key[0] == 'g' || key[0] == 'r' || key[0]
                == 't'),
    ensures
        logged_part(enriched(m, now)) == m,
{
    let part = logged_part(enriched(m, now));
    assert forall|key: Seq<char>|
        #![trigger part.contains_key(key)]
        #![trigger m.contains_key(key)]
        (part.contains_key(key) <==> m.contains_key(key)) && (m.contains_key(key) ==> part[key]
            == m[key]) by {
        if key.len() > 0 && (key[0] == 'g' || key[0] == 'r' || key[0] == 't') {
            law_enrichment_keeps_logged_fields(m, now, key);
            assert(member(enriched(m, now), key) == member(m, key));
        }
    }
    assert(part =~= m);
}

} // verus!
