//! The calls to other services that a request makes, as they are kept until the request is logged.

use vstd::prelude::*;

use crate::json::{json, jsons, members, object_value, Json, LogFields, Members};

verus! {

/// The most calls that are kept for a request.
pub const MAX_TARGET_LOGS: usize = 1000;

/// The members of each entry.
pub open spec fn entries(log: Seq<LogFields>) -> Seq<Members> {
    Seq::new(log.len(), |i: int| members(log[i]))
}

/// A log with one more entry, where there is room for it.
pub open spec fn appended(log: Seq<Members>, entry: Members) -> Seq<Members> {
    if log.len() < MAX_TARGET_LOGS {
        log.push(entry)
    } else {
        log
    }
}

/// The JSON array of a log's entries.
pub open spec fn target_array(log: Seq<Members>) -> Json {
    Json::Array(Seq::new(log.len(), |i: int| Json::Object(log[i])))
}

/// Adds an entry, where there is room for it.
pub fn append_target(log: &mut Vec<LogFields>, entry: LogFields)
    ensures
        entries(final(log)@) == appended(entries(old(log)@), members(entry)),
{
    if log.len() < MAX_TARGET_LOGS {
        log.push(entry);
    }
    assert(entries(log@) =~= appended(entries(old(log)@), members(entry)));
}

/// Takes all entries out, in order, each as a JSON object.
pub fn read_client_log(log: &mut Vec<LogFields>) -> (r: Vec<serde_json::Value>)
    ensures
        final(log)@.len() == 0,
        Json::Array(jsons(r@)) == target_array(entries(old(log)@)),
{
    let mut taken: Vec<LogFields> = Vec::new();
    std::mem::swap(&mut taken, log);
    let ghost all = taken@;
    let mut out: Vec<serde_json::Value> = Vec::new();
    for entry in it: taken
        invariant
            it.seq() == all,
            out@.len() == it.index(),
            forall|i: int|
                0 <= i < out@.len() ==> json(#[trigger] out@[i]) == Json::Object(members(all[i])),
    {
        out.push(object_value(entry));
    }
    assert(jsons(out@) =~= Seq::new(
        entries(all).len(),
        |i: int| Json::Object(entries(all)[i]),
    ));
    out
}

/// A log with entries added one after the other.
pub open spec fn appended_all(log: Seq<Members>, more: Seq<Members>) -> Seq<Members>
    decreases more.len(),
{
    if more.len() == 0 {
        log
    } else {
        appended(appended_all(log, more.drop_last()), more.last())
    }
}

/// Of all calls that a request makes, the first thousand are kept, in order.
pub proof fn law_first_thousand_calls_are_kept(log: Seq<Members>, more: Seq<Members>)
    requires
        log.len() <= MAX_TARGET_LOGS,
    ensures
        appended_all(log, more) == (if log.len() + more.len() <= MAX_TARGET_LOGS {
            log + more
        } else {
            (log + more).take(MAX_TARGET_LOGS as int)
        }),
    decreases more.len(),
{
    if more.len() == 0 {
        assert(log + more =~= log);
    } else {
        law_first_thousand_calls_are_kept(log, more.drop_last());
        let front = log + more.drop_last();
        assert(front.push(more.last()) =~= log + more);
        if front.len() > MAX_TARGET_LOGS {
            assert(front.take(MAX_TARGET_LOGS as int) =~= (log + more).take(
                MAX_TARGET_LOGS as int,
            ));
        } else if front.len() == MAX_TARGET_LOGS {
            assert(front =~= (log + more).take(MAX_TARGET_LOGS as int));
        }
    }
}

/// Up to a thousand calls are kept, each behind those that came before it, and a further one
/// changes nothing.
pub proof fn law_call_is_kept_behind_the_others(log: Seq<Members>, entry: Members)
    ensures
        log.len() < 1000 ==> appended(log, entry).len() == log.len() + 1 && appended(
            log,
            entry,
        ).last() == entry && appended(log, entry).drop_last() == log,
        log.len() >= 1000 ==> appended(log, entry) == log,
{
    if log.len() < 1000 {
        assert(appended(log, entry).drop_last() =~= log);
    }
}

/// The array of calls has an object for each call, in order, with the members of that call.
pub proof fn law_array_holds_each_call(log: Seq<LogFields>)
    ensures
        target_array(entries(log)) matches Json::Array(items) && items.len() == log.len() && forall|
            i: int,
        |
            0 <= i < log.len() ==> #[trigger] items[i] == Json::Object(members(log[i])),
{
}

} // verus!
