//! The fallback file: one line of JSON for each log that could not be sent, oldest first, with the
//! oldest lines dropped when the file gets too large.

use vstd::prelude::*;
use vstd::slice::slice_subrange;
use vstd::utf8::{
    length_of_first_scalar, pop_first_scalar, valid_first_scalar, valid_utf8, valid_utf8_concat,
};

use crate::json::{
    clone_fields, json_bytes, max_depth, members, object_value, opt_bytes, opt_str, parsed_json,
    portable, set_field, text_value, to_json_bytes, Json, LogFields, Members,
};
use crate::text::is_utf8;

verus! {

/// The size that the fallback file may have: 1 GiB.
pub const FALLBACK_MAX_BYTES: u64 = 1_073_741_824;

/// Where the fallback file is.
pub const FALLBACK_LOG_PATH: &'static str = "logs.txt";

/// The line feed.
pub const LINE_FEED: u8 = 10;

/// The length of the first line, with its line feed where it has one.
pub open spec fn line_len(content: Seq<u8>) -> nat
    decreases content.len(),
{
    if content.len() == 0 {
        0
    } else if content[0] == LINE_FEED {
        1
    } else {
        1 + line_len(content.drop_first())
    }
}

/// The first line ends at the first line feed, or at the end of the content.
pub proof fn law_first_line(content: Seq<u8>)
    ensures
        line_len(content) <= content.len(),
        content.len() > 0 ==> line_len(content) > 0,
        forall|i: int| 0 <= i < line_len(content) - 1 ==> content[i] != LINE_FEED,
        0 < line_len(content) < content.len() ==> content[line_len(content) - 1] == LINE_FEED,
    decreases content.len(),
{
    if content.len() > 0 && content[0] != LINE_FEED {
        let rest = content.drop_first();
        law_first_line(rest);
        assert forall|i: int| 0 <= i < line_len(content) - 1 implies content[i] != LINE_FEED by {
            if i > 0 {
                assert(rest[i - 1] == content[i]);
            }
        }
        if 0 < line_len(content) < content.len() {
            if rest.len() > 0 {
                assert(content[line_len(content) - 1] == rest[line_len(rest) - 1]);
            }
        }
    }
}

/// Content without its oldest lines, so many that `free` bytes are freed once one more line is
/// dropped: the line that reaches `free` is kept.
pub open spec fn trimmed(content: Seq<u8>, free: int) -> Seq<u8>
    decreases content.len(),
{
    proof {
        law_first_line(content);
    }
    if content.len() == 0 || line_len(content) >= free {
        content
    } else {
        trimmed(content.skip(line_len(content) as int), free - line_len(content))
    }
}

/// Content without its oldest lines, so many that `free` bytes are freed: the line that reaches
/// `free` is dropped too.
pub open spec fn fitted(content: Seq<u8>, free: int) -> Seq<u8>
    decreases content.len(),
{
    proof {
        law_first_line(content);
    }
    if content.len() == 0 || free <= 0 {
        content
    } else {
        fitted(content.skip(line_len(content) as int), free - line_len(content))
    }
}

/// Making room line by line: how many bytes are still to be freed.
#[derive(Clone, Copy, Debug, PartialEq, Eq, Structural)]
pub struct Trimmer {
    pub left: u64,
}

impl Trimmer {
    pub fn new(bytes_to_free: u64) -> (r: Self)
        ensures
            r.left == bytes_to_free,
    {
        Trimmer { left: bytes_to_free }
    }

    /// What is kept of the content that is still to come.
    pub open spec fn keeps(self, rest: Seq<u8>) -> Seq<u8> {
        fitted(rest, self.left as int)
    }

    /// The state after a line of this length, and whether the line is kept.
    pub open spec fn after(self, len: u64) -> (Trimmer, bool) {
        if self.left == 0 {
            (self, true)
        } else if len >= self.left {
            (Trimmer { left: 0 }, false)
        } else {
            (Trimmer { left: (self.left - len) as u64 }, false)
        }
    }

    /// Takes the next line, and says whether it is kept.
    pub fn keep_line(&mut self, len: u64) -> (r: bool)
        ensures
            (*final(self), r) == old(self).after(len),
    {
        if self.left == 0 {
            true
        } else {
            self.left = if len >= self.left {
                0
            } else {
                self.left - len
            };
            false
        }
    }
}

/// Taking lines one by one keeps what making room keeps: the next line, where it is kept, and what
/// is kept of the rest.
pub proof fn law_line_by_line(t: Trimmer, rest: Seq<u8>)
    requires
        rest.len() > 0,
        line_len(rest) <= u64::MAX,
    ensures
        t.keeps(rest) == (if t.after(line_len(rest) as u64).1 {
            rest.take(line_len(rest) as int)
        } else {
            Seq::empty()
        }) + t.after(line_len(rest) as u64).0.keeps(rest.skip(line_len(rest) as int)),
{
    law_first_line(rest);
    let n = line_len(rest) as int;
    assert(rest.take(n) + rest.skip(n) =~= rest);
    let tail = fitted(rest.skip(n), t.left - n);
    assert(Seq::<u8>::empty() + tail =~= tail);
}

/// Where the line that starts at `from` ends.
fn line_end(content: &[u8], from: usize) -> (r: usize)
    requires
        from < content@.len(),
    ensures
        r == from + line_len(content@.skip(from as int)),
        from < r <= content@.len(),
{
    let mut i: usize = from;
    while i < content.len() && content[i] != LINE_FEED
        invariant
            from <= i <= content@.len(),
            from < content@.len(),
            from + line_len(content@.skip(from as int)) == i + line_len(content@.skip(i as int)),
        decreases content@.len() - i,
    {
        assert(content@.skip(i as int).drop_first() =~= content@.skip(i + 1));
        i = i + 1;
    }
    proof {
        law_first_line(content@.skip(from as int));
    }
    if i < content.len() {
        i + 1
    } else {
        i
    }
}

/// Why lines could not be told apart: the content is not text.
#[derive(Clone, Copy, Debug, PartialEq, Eq, Structural)]
pub struct InvalidData;

/// Text without its oldest lines. The line that reaches `bytes_to_free` is kept, and all lines
/// behind it. Content that is not text is an error.
pub fn trim_oldest_lines(content: &[u8], bytes_to_free: u64) -> (r: Result<Vec<u8>, InvalidData>)
    ensures
        match r {
            Ok(kept) => valid_utf8(content@) && kept@ == trimmed(content@, bytes_to_free as int),
            Err(_) => !valid_utf8(content@),
        },
{
    if !is_utf8(content) {
        return Err(InvalidData);
    }
    let mut left: u64 = bytes_to_free;
    let mut at: usize = 0;
    assert(content@.skip(0) =~= content@);
    while at < content.len()
        invariant
            at <= content@.len(),
            valid_utf8(content@),
            trimmed(content@.skip(at as int), left as int) == trimmed(
                content@,
                bytes_to_free as int,
            ),
        decreases content@.len() - at,
    {
        let end = line_end(content, at);
        let len: u64 = (end - at) as u64;
        assert(content@.skip(at as int).skip(len as int) =~= content@.skip(end as int));
        if len >= left {
            let mut out: Vec<u8> = Vec::new();
            out.extend_from_slice(slice_subrange(content, at, content.len()));
            assert(out@ =~= content@.skip(at as int));
            return Ok(out);
        }
        left = left - len;
        at = end;
    }
    assert(content@.skip(at as int) =~= Seq::empty());
    Ok(Vec::new())
}

/// Text without its oldest lines, so many that `bytes_to_free` are freed, and no more. Content that
/// is not text is an error.
pub fn drop_oldest_lines(content: &[u8], bytes_to_free: u64) -> (r: Result<Vec<u8>, InvalidData>)
    ensures
        match r {
            Ok(kept) => valid_utf8(content@) && kept@ == fitted(content@, bytes_to_free as int),
            Err(_) => !valid_utf8(content@),
        },
{
    if !is_utf8(content) {
        return Err(InvalidData);
    }
    let mut out: Vec<u8> = Vec::new();
    let mut trimmer = Trimmer::new(bytes_to_free);
    let mut at: usize = 0;
    assert(content@.skip(0) =~= content@);
    assert(out@ + trimmer.keeps(content@) =~= trimmer.keeps(content@));
    while at < content.len()
        invariant
            at <= content@.len(),
            out@ + trimmer.keeps(content@.skip(at as int)) == fitted(
                content@,
                bytes_to_free as int,
            ),
        decreases content@.len() - at,
    {
        let end = line_end(content, at);
        let ghost before = trimmer;
        let ghost rest = content@.skip(at as int);
        let ghost kept = out@;
        proof {
            law_line_by_line(trimmer, rest);
        }
        if trimmer.keep_line((end - at) as u64) {
            out.extend_from_slice(slice_subrange(content, at, end));
        }
        proof {
            let n = line_len(rest) as int;
            assert(rest.skip(n) =~= content@.skip(end as int));
            assert(rest.take(n) =~= content@.subrange(at as int, end as int));
            let head = if before.after(n as u64).1 {
                rest.take(n)
            } else {
                Seq::empty()
            };
            assert(out@ =~= kept + head);
            let tail = trimmer.keeps(content@.skip(end as int));
            assert(out@ + tail =~= kept + (head + tail));
        }
        at = end;
    }
    assert(content@.skip(at as int) =~= Seq::empty());
    assert(out@ + Seq::empty() =~= out@);
    Ok(out)
}

/// What to do with the fallback file for one more line.
#[derive(Clone, Copy, Debug, PartialEq, Eq, Structural)]
pub enum FallbackPlan {
    /// Leave the file as it is, or absent.
    Skip,
    /// Append the line.
    Append,
    /// Drop whole oldest lines until so many bytes are free, then append the line.
    TrimThenAppend(u64),
}

/// What to do for a line of `len` bytes with a file of `size` bytes that may have `max`.
pub open spec fn plan(len: int, size: int, max: int) -> FallbackPlan {
    if len == 0 || len > max {
        FallbackPlan::Skip
    } else if size + len <= max {
        FallbackPlan::Append
    } else {
        FallbackPlan::TrimThenAppend((size + len - max) as u64)
    }
}

/// What to do for a line of `len` bytes. A line that is empty or larger than the file may be is
/// skipped, and oldest lines are dropped where the file would get too large.
pub fn plan_fallback(len: u64, size: u64, max: u64) -> (r: FallbackPlan)
    requires
        size + len <= u64::MAX,
    ensures
        r == plan(len as int, size as int, max as int),
{
    if len == 0 || len > max {
        FallbackPlan::Skip
    } else if size + len <= max {
        FallbackPlan::Append
    } else {
        FallbackPlan::TrimThenAppend(size + len - max)
    }
}

/// The content of a file, and none where it is absent.
pub open spec fn content_of(file: Option<Seq<u8>>) -> Seq<u8> {
    match file {
        Some(content) => content,
        None => Seq::empty(),
    }
}

/// The file after a line was written to it.
pub open spec fn written(file: Option<Seq<u8>>, line: Seq<u8>, max: int) -> Option<Seq<u8>> {
    let content = content_of(file);
    match plan(line.len() as int, content.len() as int, max) {
        FallbackPlan::Skip => file,
        FallbackPlan::Append => Some(content + line),
        FallbackPlan::TrimThenAppend(free) => Some(fitted(content, free as int) + line),
    }
}

/// Writes a line to the fallback file, of which the content is at hand. A file that is absent is
/// made where a line goes into it. Where oldest lines have to go and the content is not text, that
/// is an error, and the file stays as it is.
pub fn write_fallback(file: &mut Option<Vec<u8>>, line: &[u8], max: u64) -> (r: Result<
    (),
    InvalidData,
>)
    requires
        content_of(opt_bytes(*old(file))).len() + line@.len() <= u64::MAX,
    ensures
        r is Err <==> !valid_utf8(content_of(opt_bytes(*old(file)))) && plan(
            line@.len() as int,
            content_of(opt_bytes(*old(file))).len() as int,
            max as int,
        ) is TrimThenAppend,
        r is Err ==> *final(file) == *old(file),
        r is Ok ==> opt_bytes(*final(file)) == written(opt_bytes(*old(file)), line@, max as int),
        r is Ok && 0 < line@.len() <= max ==> *final(file) is Some && (*final(file))->0@.len()
            <= max,
{
    let ghost before = opt_bytes(*file);
    proof {
        if 0 < line@.len() <= max {
            law_fallback_file_size(before, line@, max as int);
        }
    }
    let size: u64 = match &*file {
        Some(content) => content.len() as u64,
        None => 0,
    };
    match plan_fallback(line.len() as u64, size, max) {
        FallbackPlan::Skip => {},
        FallbackPlan::Append => {
            match file {
                Some(content) => {
                    content.extend_from_slice(line);
                },
                None => {
                    let mut out: Vec<u8> = Vec::new();
                    out.extend_from_slice(line);
                    *file = Some(out);
                },
            }
            assert(content_of(opt_bytes(*file)) =~= content_of(before) + line@);
        },
        FallbackPlan::TrimThenAppend(free) => {
            if let Some(content) = &*file {
                let mut out: Vec<u8> = match drop_oldest_lines(content.as_slice(), free) {
                    Ok(kept) => kept,
                    Err(e) => {
                        return Err(e);
                    },
                };
                let ghost kept = out@;
                out.extend_from_slice(line);
                assert(out@ =~= kept + line@);
                *file = Some(out);
            }
        },
    }
    Ok(())
}

/// The fields of a log in the fallback file: those of the log, and why it could not be sent.
pub open spec fn fallback_members(m: Members, hook_err: Option<Seq<char>>) -> Members {
    match hook_err {
        Some(err) => m.insert("hook_error"@, Json::Text(err)),
        None => m,
    }
}

/// The line for a document: the document with a line feed at its end, and nothing where there is
/// no document.
pub open spec fn line_of(document: Option<Seq<u8>>) -> Seq<u8> {
    match document {
        Some(data) => if data.len() > 0 && data.last() == LINE_FEED {
            data
        } else {
            data.push(LINE_FEED)
        },
        None => Seq::empty(),
    }
}

/// Whether bytes are one whole line: a line feed at their end, and none before it.
pub open spec fn is_line(bytes: Seq<u8>) -> bool {
    &&& bytes.len() > 0
    &&& bytes.last() == LINE_FEED
    &&& !bytes.drop_last().contains(LINE_FEED)
}

/// The line for a document that was written, and no bytes where writing it failed.
pub fn fallback_line(document: Option<Vec<u8>>) -> (r: Vec<u8>)
    ensures
        r@ == line_of(opt_bytes(document)),
{
    match document {
        Some(mut data) => {
            let n = data.len();
            if n == 0 || data[n - 1] != LINE_FEED {
                data.push(LINE_FEED);
            }
            data
        },
        None => Vec::new(),
    }
}

/// The line of a log in the fallback file: one line of JSON, from which the fields can be read
/// again.
pub fn build_fallback_bytes(fields: &LogFields, hook_err: Option<&str>) -> (r: Vec<u8>)
    ensures
        r@ == line_of(
            json_bytes(Json::Object(fallback_members(members(*fields), opt_str(hook_err)))),
        ),
        is_line(r@),
        valid_utf8(r@),
        portable(
            Json::Object(fallback_members(members(*fields), opt_str(hook_err))),
            max_depth(),
        ) ==> parsed_json(r@) == Some(
            Json::Object(fallback_members(members(*fields), opt_str(hook_err))),
        ),
{
    let mut map = clone_fields(fields);
    if let Some(err) = hook_err {
        set_field(&mut map, "hook_error", text_value(err));
    }
    let data = to_json_bytes(&object_value(map));
    let line = fallback_line(data);
    proof {
        let document = data->0@;
        if document.last() == LINE_FEED {
            assert(document.contains(document[document.len() - 1]));
        }
        assert(document.push(LINE_FEED).drop_last() =~= document);
        lemma_line_feed_is_text();
        valid_utf8_concat(document, seq![LINE_FEED]);
        assert(document + seq![LINE_FEED] =~= document.push(LINE_FEED));
    }
    line
}

/// Whether content is made of whole lines.
pub open spec fn whole_lines(content: Seq<u8>) -> bool {
    content.len() == 0 || content.last() == LINE_FEED
}

/// Trimming keeps the end of the content, from the start of a line on.
pub proof fn law_trimming_keeps_whole_lines(content: Seq<u8>, free: int)
    ensures
        trimmed(content, free).len() <= content.len(),
        trimmed(content, free) == content.skip(content.len() - trimmed(content, free).len()),
        0 < trimmed(content, free).len() < content.len() ==> content[content.len() - trimmed(
            content,
            free,
        ).len() - 1] == LINE_FEED,
        whole_lines(content) ==> whole_lines(trimmed(content, free)),
    decreases content.len(),
{
    law_first_line(content);
    if content.len() == 0 || line_len(content) >= free {
        assert(content.skip(0) =~= content);
    } else {
        let n = line_len(content) as int;
        let rest = content.skip(n);
        law_trimming_keeps_whole_lines(rest, free - n);
        let kept = trimmed(rest, free - n);
        assert(content.skip(content.len() - kept.len()) =~= rest.skip(rest.len() - kept.len()));
        if 0 < kept.len() < rest.len() {
            assert(rest[rest.len() - kept.len() - 1] == content[content.len() - kept.len() - 1]);
        }
    }
}

/// Trimming removes less than `free`, or nothing, and with one more line it would have removed
/// `free` or more.
pub proof fn law_trimming_stops_at_the_first_line_that_suffices(content: Seq<u8>, free: int)
    ensures
        trimmed(content, free) == content || content.len() - trimmed(content, free).len() < free,
        trimmed(content, free).len() > 0 ==> content.len() - trimmed(content, free).len()
            + line_len(trimmed(content, free)) >= free,
    decreases content.len(),
{
    law_first_line(content);
    if content.len() > 0 && line_len(content) < free {
        let n = line_len(content) as int;
        law_trimming_stops_at_the_first_line_that_suffices(content.skip(n), free - n);
    }
}

/// Making room keeps the end of the content, from the start of a line on.
pub proof fn law_making_room_keeps_whole_lines(content: Seq<u8>, free: int)
    ensures
        ends_with_lines(content, fitted(content, free)),
        whole_lines(content) ==> whole_lines(fitted(content, free)),
    decreases content.len(),
{
    law_first_line(content);
    if content.len() == 0 || free <= 0 {
        assert(content.skip(0) =~= content);
    } else {
        let n = line_len(content) as int;
        let rest = content.skip(n);
        law_making_room_keeps_whole_lines(rest, free - n);
        let kept = fitted(rest, free - n);
        assert(content.skip(content.len() - kept.len()) =~= rest.skip(rest.len() - kept.len()));
        if 0 < kept.len() < rest.len() {
            assert(rest[rest.len() - kept.len() - 1] == content[content.len() - kept.len() - 1]);
        }
    }
}

/// Making room frees as much as is asked for, where there is as much, and drops only the one line
/// more that trimming keeps.
pub proof fn law_making_room_frees_enough(content: Seq<u8>, free: int)
    requires
        0 < free <= content.len(),
    ensures
        content.len() - fitted(content, free).len() >= free,
        fitted(content, free) == trimmed(content, free).skip(
            line_len(trimmed(content, free)) as int,
        ),
    decreases content.len(),
{
    law_first_line(content);
    let n = line_len(content) as int;
    let rest = content.skip(n);
    if n < free {
        law_making_room_frees_enough(rest, free - n);
    } else {
        assert(fitted(rest, free - n) == rest);
    }
}

/// A line feed is text.
proof fn lemma_line_feed_is_text()
    ensures
        valid_utf8(seq![LINE_FEED]),
{
    let chars = seq!['\n'];
    assert(vstd::utf8::is_ascii_chars(chars));
    vstd::utf8::is_ascii_chars_encode_utf8(chars);
    vstd::utf8::encode_utf8_valid_utf8(chars);
    assert(vstd::utf8::encode_utf8(chars) =~= seq![LINE_FEED]);
}

/// Text stays text when its first lines are taken away.
proof fn lemma_text_after_line_feed(content: Seq<u8>, at: int)
    requires
        valid_utf8(content),
        0 <= at < content.len(),
        content[at] == LINE_FEED,
    ensures
        valid_utf8(content.skip(at + 1)),
    decreases content.len(),
{
    let n = length_of_first_scalar(content);
    let rest = pop_first_scalar(content);
    assert(valid_first_scalar(content));
    assert(content[at] & 0x80 == 0 && content[at] & 0xC0 != 0x80) by {
        let b = content[at];
        assert(b == 10u8 ==> b & 0x80 == 0 && b & 0xC0 != 0x80) by (bit_vector);
    }
    if at < n {
        assert(n == 1);
        assert(content.skip(at + 1) =~= rest);
    } else {
        assert(rest =~= content.skip(n));
        lemma_text_after_line_feed(rest, at - n);
        assert(rest.skip(at - n + 1) =~= content.skip(at + 1));
    }
}

/// The fallback file stays text, where it is and the line is.
pub proof fn law_fallback_file_stays_text(file: Option<Seq<u8>>, line: Seq<u8>, max: int)
    requires
        valid_utf8(content_of(file)),
        valid_utf8(line),
        content_of(file).len() + line.len() <= u64::MAX,
    ensures
        valid_utf8(content_of(written(file, line, max))),
{
    if 0 < line.len() <= max {
        let before = content_of(file);
        law_newest_line_is_last(file, line, max);
        let kept = content_of(written(file, line, max)).len() - line.len();
        let tail = before.skip(before.len() - kept);
        assert(valid_utf8(tail)) by {
            if kept == 0 {
                assert(tail =~= Seq::empty());
            } else if kept == before.len() {
                assert(tail =~= before);
            } else {
                lemma_text_after_line_feed(before, before.len() - kept - 1);
            }
        }
        valid_utf8_concat(tail, line);
    }
}

/// A line that is not empty and not larger than the file may be is the end of the file after it
/// was written, and what stands before it is the end of what the file held, from the start of a
/// line on.
pub proof fn law_newest_line_is_last(file: Option<Seq<u8>>, line: Seq<u8>, max: int)
    requires
        0 < line.len() <= max,
        content_of(file).len() + line.len() <= u64::MAX,
    ensures
        ({
            let before = content_of(file);
            let after = content_of(written(file, line, max));
            let kept = after.len() - line.len();
            &&& written(file, line, max) is Some
            &&& 0 <= kept <= before.len()
            &&& after == before.skip(before.len() - kept) + line
            &&& 0 < kept < before.len() ==> before[before.len() - kept - 1] == LINE_FEED
            &&& before.len() + line.len() <= max ==> kept == before.len()
        }),
{
    let before = content_of(file);
    if before.len() + line.len() > max {
        law_making_room_keeps_whole_lines(before, before.len() + line.len() - max);
    } else {
        assert(before.skip(0) =~= before);
    }
}

/// A file of whole lines stays one.
pub proof fn law_fallback_file_stays_whole(file: Option<Seq<u8>>, line: Seq<u8>, max: int)
    requires
        whole_lines(content_of(file)),
        is_line(line),
        content_of(file).len() + line.len() <= u64::MAX,
    ensures
        whole_lines(content_of(written(file, line, max))),
{
    if 0 < line.len() <= max {
        law_newest_line_is_last(file, line, max);
        assert(content_of(written(file, line, max)).last() == line.last());
    }
}

/// After a line was written that is not skipped, the file is no larger than it may be, however
/// large it was. A file that is no larger than it may be stays so.
pub proof fn law_fallback_file_size(file: Option<Seq<u8>>, line: Seq<u8>, max: int)
    requires
        content_of(file).len() + line.len() <= u64::MAX,
    ensures
        0 < line.len() <= max ==> content_of(written(file, line, max)).len() <= max,
        content_of(file).len() <= max ==> content_of(written(file, line, max)).len() <= max,
{
    let before = content_of(file);
    if 0 < line.len() <= max && before.len() + line.len() > max {
        law_making_room_frees_enough(before, before.len() + line.len() - max);
    }
}

/// The file after lines were written to it one after the other.
pub open spec fn written_all(
    file: Option<Seq<u8>>,
    lines: Seq<Seq<u8>>,
    max: int,
) -> Option<Seq<u8>>
    decreases lines.len(),
{
    if lines.len() == 0 {
        file
    } else {
        written(written_all(file, lines.drop_last(), max), lines.last(), max)
    }
}

/// The lines that are not skipped, one behind the other.
pub open spec fn accepted(lines: Seq<Seq<u8>>, max: int) -> Seq<u8>
    decreases lines.len(),
{
    if lines.len() == 0 {
        Seq::empty()
    } else {
        let front = accepted(lines.drop_last(), max);
        if 0 < lines.last().len() <= max {
            front + lines.last()
        } else {
            front
        }
    }
}

/// Lines, one behind the other.
pub open spec fn all_lines(lines: Seq<Seq<u8>>) -> Seq<u8>
    decreases lines.len(),
{
    if lines.len() == 0 {
        Seq::empty()
    } else {
        all_lines(lines.drop_last()) + lines.last()
    }
}

/// Lines that fit all together are not skipped.
pub(crate) proof fn lemma_lines_that_fit_are_accepted(lines: Seq<Seq<u8>>, max: int)
    requires
        forall|i: int| 0 <= i < lines.len() ==> (#[trigger] lines[i]).len() > 0,
        all_lines(lines).len() <= max,
    ensures
        accepted(lines, max) == all_lines(lines),
    decreases lines.len(),
{
    if lines.len() > 0 {
        let front = lines.drop_last();
        assert forall|i: int| 0 <= i < front.len() implies (#[trigger] front[i]).len() > 0 by {
            assert(front[i] == lines[i]);
        }
        lemma_lines_that_fit_are_accepted(front, max);
        assert(lines.last() == lines[lines.len() - 1]);
    }
}

/// Lines that fit behind what the file holds are all in it, in order, and nothing is lost.
pub proof fn law_lines_that_fit_are_all_kept(
    file: Option<Seq<u8>>,
    lines: Seq<Seq<u8>>,
    max: int,
)
    requires
        content_of(file).len() + accepted(lines, max).len() <= max,
    ensures
        content_of(written_all(file, lines, max)) == content_of(file) + accepted(lines, max),
    decreases lines.len(),
{
    if lines.len() == 0 {
        assert(content_of(file) + Seq::empty() =~= content_of(file));
    } else {
        let front = accepted(lines.drop_last(), max);
        law_lines_that_fit_are_all_kept(file, lines.drop_last(), max);
        assert(content_of(file) + (front + lines.last()) =~= content_of(file) + front
            + lines.last());
    }
}

/// Whether `tail` is the end of `all`, from the start of a line on.
pub open spec fn ends_with_lines(all: Seq<u8>, tail: Seq<u8>) -> bool {
    &&& tail.len() <= all.len()
    &&& tail == all.skip(all.len() - tail.len())
    &&& 0 < tail.len() < all.len() ==> all[all.len() - tail.len() - 1] == LINE_FEED
}

/// After any number of lines were written to a file that was absent, it holds the newest of the
/// lines that are not skipped, whole and in order, and is no larger than it may be.
pub proof fn law_file_holds_the_newest_lines(lines: Seq<Seq<u8>>, max: int)
    requires
        forall|i: int| 0 <= i < lines.len() ==> is_line(#[trigger] lines[i]),
        accepted(lines, max).len() <= u64::MAX,
    ensures
        whole_lines(accepted(lines, max)),
        ends_with_lines(accepted(lines, max), content_of(written_all(None, lines, max))),
        0 <= max ==> content_of(written_all(None, lines, max)).len() <= max,
    decreases lines.len(),
{
    if lines.len() == 0 {
        assert(Seq::<u8>::empty().skip(0) =~= Seq::<u8>::empty());
    } else {
        let front = lines.drop_last();
        let line = lines.last();
        assert forall|i: int| 0 <= i < front.len() implies is_line(#[trigger] front[i]) by {
            assert(front[i] == lines[i]);
        }
        law_file_holds_the_newest_lines(front, max);
        let file = written_all(None, front, max);
        let before = content_of(file);
        let all = accepted(front, max);
        if line.len() <= max {
            law_fallback_file_size(file, line, max);
            law_newest_line_is_last(file, line, max);
            let after = content_of(written(file, line, max));
            let kept = after.len() - line.len();
            assert(after =~= (all + line).skip(all.len() - kept));
            assert((all + line).last() == line.last());
            if 0 < kept < before.len() {
                assert(all[all.len() - kept - 1] == before[before.len() - kept - 1]);
            }
            if kept == 0 && all.len() > 0 {
                assert(all.last() == LINE_FEED);
            }
        }
    }
}

/// The kept log has the fields of the record, each as it was, and the error under `hook_error`.
pub proof fn law_kept_log_has_the_record_and_the_error(
    m: Members,
    error: Seq<char>,
    key: Seq<char>,
)
    ensures
        fallback_members(m, Some(error)).contains_key("hook_error"@),
        fallback_members(m, Some(error))["hook_error"@] == Json::Text(error),
        key != "hook_error"@ ==> (fallback_members(m, Some(error)).contains_key(key)
            <==> m.contains_key(key)),
        key != "hook_error"@ && m.contains_key(key) ==> fallback_members(m, Some(error))[key]
            == m[key],
        fallback_members(m, None) == m,
{
}

/// The line for a document is the document and one line feed, which is not added twice; there is no
/// line where there is no document.
pub proof fn law_line_is_the_document_and_a_line_feed(document: Seq<u8>)
    ensures
        line_of(None).len() == 0,
        line_of(Some(document)).last() == 10,
        document.len() == 0 || document.last() != 10 ==> line_of(Some(document)).drop_last()
            == document,
        document.len() > 0 && document.last() == 10 ==> line_of(Some(document)) == document,
{
    assert(document.push(10u8).drop_last() =~= document);
}

/// A line is skipped exactly where it is empty or larger than the file may be; it is appended where
/// both fit; otherwise so many bytes are freed that they do.
pub proof fn law_plan_makes_the_line_fit(len: u64, size: u64, max: u64)
    requires
        size + len <= u64::MAX,
    ensures
        (match plan(len as int, size as int, max as int) {
            FallbackPlan::Skip => len == 0 || len > max,
            FallbackPlan::Append => 0 < len && size + len <= max,
            FallbackPlan::TrimThenAppend(free) => 0 < len <= max && 0 < free && size - free + len
                == max,
        }),
{
}

/// A line that is empty or larger than the file may be leaves the file as it is, and absent where
/// it was; any other line makes the file where it was absent, and where it fits, it stands behind
/// all that was there.
pub proof fn law_line_is_appended_or_skipped(file: Option<Seq<u8>>, line: Seq<u8>, max: int)
    requires
        content_of(file).len() + line.len() <= u64::MAX,
    ensures
        line.len() == 0 || line.len() > max ==> written(file, line, max) == file,
        0 < line.len() <= max ==> written(file, line, max) is Some,
        0 < line.len() && content_of(file).len() + line.len() <= max ==> written(file, line, max)
            == Some(content_of(file) + line),
        content_of(None).len() == 0,
        file is Some ==> content_of(file) == file->0,
{
}

/// No more is dropped than the new line needs: with the last of the dropped lines still there, the
/// file would be larger than it may be.
pub proof fn law_only_what_is_needed_is_dropped(content: Seq<u8>, free: int)
    requires
        0 < free <= content.len(),
    ensures
        exists|start: int| #[trigger]
            is_line_at(content, start, content.len() - fitted(content, free).len()) && start < free,
    decreases content.len(),
{
    law_first_line(content);
    let n = line_len(content) as int;
    let rest = content.skip(n);
    if n < free {
        law_only_what_is_needed_is_dropped(rest, free - n);
        let end = rest.len() - fitted(rest, free - n).len();
        let start = choose|start: int| #[trigger]
            is_line_at(rest, start, end) && start < free - n;
        assert(content.len() - fitted(content, free).len() == end + n);
        assert forall|i: int| start + n <= i < end + n - 1 implies content[i] != 10 by {
            assert(rest[i - n] == content[i]);
        }
        assert(is_line_at(content, start + n, content.len() - fitted(content, free).len())) by {
            if start > 0 {
                assert(rest[start - 1] == content[start + n - 1]);
            }
            if end < rest.len() {
                assert(rest[end - 1] == content[end + n - 1]);
            }
        }
    } else {
        assert(fitted(rest, free - n) == rest);
        assert(is_line_at(content, 0, content.len() - fitted(content, free).len()));
    }
}

/// Whether a line of the content starts and ends here: behind a line feed or at the start, at the
/// next line feed or at the end.
pub open spec fn is_line_at(content: Seq<u8>, start: int, end: int) -> bool {
    &&& 0 <= start < end <= content.len()
    &&& start > 0 ==> content[start - 1] == 10
    &&& end < content.len() ==> content[end - 1] == 10
    &&& forall|i: int| start <= i < end - 1 ==> content[i] != 10
}

/// Where lines have to go for a new one, no more go than it needs: with the last of them still
/// there, the file would be larger than it may be.
pub proof fn law_no_line_goes_without_need(file: Option<Seq<u8>>, line: Seq<u8>, max: int)
    requires
        0 < line.len() <= max,
        content_of(file).len() + line.len() <= u64::MAX,
        content_of(file).len() + line.len() > max,
    ensures
        ({
            let before = content_of(file);
            let gone = before.len() + line.len() - content_of(written(file, line, max)).len();
            exists|start: int| #[trigger]
                is_line_at(before, start, gone) && before.len() - start + line.len() > max
        }),
{
    let before = content_of(file);
    let free = before.len() + line.len() - max;
    law_only_what_is_needed_is_dropped(before, free);
    let gone = before.len() + line.len() - content_of(written(file, line, max)).len();
    assert(gone == before.len() - fitted(before, free).len());
}

} // verus!
