//! Sending a log to Elasticsearch: the request, and what a reply means.

use vstd::prelude::*;
use vstd::utf8::encode_utf8;

use crate::text::{
    base64_text, concat2, concat3, decimal, digits, encode_base64, law_base64_tells_bytes_apart,
    law_digits_tell_the_number, law_trimming_removes_only_the_character, trim_end,
    without_trailing,
};

verus! {

/// A document to be posted.
#[derive(Debug)]
pub struct ElasticRequest {
    pub url: String,
    /// The `Authorization` header, where there is one.
    pub authorization: Option<String>,
    pub body: serde_json::Value,
}

/// What came of posting a document.
#[derive(Debug)]
pub enum ElasticReply {
    /// A response with this status.
    Answered(u16),
    /// A status that the client reports as an error.
    Refused(u16),
    /// No response, and why.
    Failed(String),
}

/// What the `Display` impl of `http::StatusCode` writes: the code and its name.
pub uninterp spec fn status_text(code: u16) -> Seq<char>;

/// Whether a number can be a status code.
pub open spec fn is_status(code: u16) -> bool {
    100 <= code < 1000
}

/// Whether a reply has a status that can be one.
pub open spec fn reply_ok(reply: ElasticReply) -> bool {
    reply matches ElasticReply::Answered(code) ==> is_status(code)
}

/// The address of the documents of an index, for a day. Slashes at the end of the base do not
/// count.
pub open spec fn document_url(base: Seq<char>, index: Seq<char>, date: Seq<char>) -> Seq<char> {
    trim_end(base, '/') + "/"@ + (index + "-"@ + date) + "/_doc"@
}

/// The header for a user and a password.
pub open spec fn basic_auth(user: Seq<char>, password: Seq<char>) -> Seq<char> {
    "Basic "@ + base64_text(encode_utf8(user + ":"@ + password))
}

/// Why a reply means that the document was not taken; nothing where it was.
pub open spec fn refusal(reply: ElasticReply) -> Option<Seq<char>> {
    match reply {
        ElasticReply::Answered(code) => if 200 <= code < 300 {
            None
        } else {
            Some("Elasticsearch HTTP error: "@ + status_text(code))
        },
        ElasticReply::Refused(code) => Some(
            "Elasticsearch HTTP error: "@ + decimal(code as nat),
        ),
        ElasticReply::Failed(err) => Some("Elasticsearch request error: "@ + err@),
    }
}

/// Whether a document was taken: the error, where it was not.
pub open spec fn outcome_is(r: Result<(), String>, error: Option<Seq<char>>) -> bool {
    match r {
        Ok(_) => error is None,
        Err(e) => error == Some(e@),
    }
}

/// The `Display` impl of `http::StatusCode`. The names of the codes are left to the name
/// `status_text`.
#[verifier::external_body]
pub(crate) fn display_status(code: u16) -> (r: String)
    requires
        is_status(code),
    ensures
        r@ == status_text(code),
{
    http::StatusCode::from_u16(code).unwrap().to_string()
}

/// The address of the documents of an index, for a day.
pub(crate) fn build_url(base: &str, index: &str, date: &str) -> (r: String)
    ensures
        r@ == document_url(base@, index@, date@),
{
    let name = concat3(index, "-", date);
    let front = concat3(without_trailing(base, '/'), "/", name.as_str());
    concat2(front.as_str(), "/_doc")
}

/// The header for a user and a password.
pub(crate) fn build_auth(user: &str, password: &str) -> (r: String)
    ensures
        r@ == basic_auth(user@, password@),
{
    let credentials = concat3(user, ":", password);
    let encoded = encode_base64(credentials.as_str().as_bytes());
    concat2("Basic ", encoded.as_str())
}

/// Whether a reply means that the document was taken, and why not where it was not. Only a status
/// from 200 to 299 means that it was.
pub fn elastic_outcome(reply: ElasticReply) -> (r: Result<(), String>)
    requires
        reply_ok(reply),
    ensures
        outcome_is(r, refusal(reply)),
        r is Ok <==> (reply matches ElasticReply::Answered(code) && 200 <= code && code < 300),
{
    match reply {
        ElasticReply::Answered(code) => if 200 <= code && code < 300 {
            Ok(())
        } else {
            Err(concat2("Elasticsearch HTTP error: ", display_status(code).as_str()))
        },
        ElasticReply::Refused(code) => Err(
            concat2("Elasticsearch HTTP error: ", digits(code).as_str()),
        ),
        ElasticReply::Failed(err) => Err(
            concat2("Elasticsearch request error: ", err.as_str()),
        ),
    }
}

/// A document was taken only where the reply is an answer with a status from 200 to 299. A status
/// that the client reports as an error, whatever its number, and a failed request mean that it was
/// not.
pub proof fn law_only_success_means_taken(reply: ElasticReply)
    ensures
        refusal(reply) is None <==> (reply matches ElasticReply::Answered(code) && 200 <= code
            && code < 300),
        reply is Refused ==> refusal(reply) is Some,
        reply is Failed ==> refusal(reply) is Some,
{
}

/// Whether a text is a start with something behind it.
pub open spec fn goes_on(text: Seq<char>, start: Seq<char>, end: Seq<char>) -> bool {
    &&& text.len() == start.len() + end.len()
    &&& text.take(start.len() as int) == start
    &&& text.skip(start.len() as int) == end
}

proof fn lemma_goes_on(start: Seq<char>, end: Seq<char>)
    ensures
        goes_on(start + end, start, end),
{
    assert((start + end).take(start.len() as int) =~= start);
    assert((start + end).skip(start.len() as int) =~= end);
}

/// The error for a document that was not taken says what came back: the status, the digits of a
/// status that the client reports as an error, or why the request failed.
pub proof fn law_error_says_what_came_back(reply: ElasticReply)
    requires
        !(reply matches ElasticReply::Answered(code) && 200 <= code && code < 300),
    ensures
        refusal(reply) is Some,
        (match reply {
            ElasticReply::Answered(code) => goes_on(
                refusal(reply)->0,
                "Elasticsearch HTTP error: "@,
                status_text(code),
            ),
            ElasticReply::Refused(code) => goes_on(
                refusal(reply)->0,
                "Elasticsearch HTTP error: "@,
                decimal(code as nat),
            ),
            ElasticReply::Failed(err) => goes_on(
                refusal(reply)->0,
                "Elasticsearch request error: "@,
                err@,
            ),
        }),
{
    match reply {
        ElasticReply::Answered(code) => {
            lemma_goes_on("Elasticsearch HTTP error: "@, status_text(code));
        },
        ElasticReply::Refused(code) => {
            lemma_goes_on("Elasticsearch HTTP error: "@, decimal(code as nat));
        },
        ElasticReply::Failed(err) => {
            lemma_goes_on("Elasticsearch request error: "@, err@);
        },
    }
}

/// The error tells the statuses apart that the client reports as errors.
pub proof fn law_errors_tell_statuses_apart(a: u16, b: u16)
    requires
        refusal(ElasticReply::Refused(a)) == refusal(ElasticReply::Refused(b)),
    ensures
        a == b,
{
    law_error_says_what_came_back(ElasticReply::Refused(a));
    law_error_says_what_came_back(ElasticReply::Refused(b));
    lemma_digits_tell_apart(a as nat, b as nat);
}

proof fn lemma_digits_tell_apart(a: nat, b: nat)
    requires
        decimal(a) == decimal(b),
    ensures
        a == b,
    decreases a,
{
    law_digits_tell_the_number(a);
    law_digits_tell_the_number(b);
    if a >= 10 && b >= 10 {
        lemma_digits_tell_apart(a / 10, b / 10);
    } else if a >= 10 {
        law_digits_tell_the_number(a / 10);
        assert(decimal(a).len() == decimal(a / 10).len() + 1);
    } else if b >= 10 {
        law_digits_tell_the_number(b / 10);
        assert(decimal(b).len() == decimal(b / 10).len() + 1);
    }
}

/// A document is posted below the base, whose slashes at the end do not count, into the index whose
/// name is the prefix, a hyphen and the day.
pub proof fn law_document_goes_to_the_index_of_the_day(
    base: Seq<char>,
    slashes: Seq<char>,
    index: Seq<char>,
    date: Seq<char>,
)
    requires
        base.len() > 0 ==> base.last() != '/',
        forall|i: int| 0 <= i < slashes.len() ==> #[trigger] slashes[i] == '/',
    ensures
        document_url(base + slashes, index, date) == base + "/"@ + index + "-"@ + date + "/_doc"@,
{
    let all = base + slashes;
    let kept = trim_end(all, '/');
    law_trimming_removes_only_the_character(all, '/');
    if kept.len() > base.len() {
        assert(kept.last() == all[kept.len() - 1]);
        assert(all[kept.len() - 1] == slashes[kept.len() - 1 - base.len()]);
    }
    if kept.len() < base.len() {
        assert(all[base.len() - 1] == base.last());
    }
    assert(kept =~= base);
    assert(document_url(all, index, date) =~= base + "/"@ + index + "-"@ + date + "/_doc"@);
}

/// The header for credentials holds user, colon and password in base64, and tells them apart from
/// all others.
pub proof fn law_header_holds_the_credentials(
    user: Seq<char>,
    password: Seq<char>,
    other_user: Seq<char>,
    other_password: Seq<char>,
)
    ensures
        goes_on(
            basic_auth(user, password),
            "Basic "@,
            base64_text(encode_utf8(user + ":"@ + password)),
        ),
        basic_auth(user, password) == basic_auth(other_user, other_password) ==> user + ":"@
            + password == other_user + ":"@ + other_password,
{
    let a = encode_utf8(user + ":"@ + password);
    let b = encode_utf8(other_user + ":"@ + other_password);
    lemma_goes_on("Basic "@, base64_text(a));
    lemma_goes_on("Basic "@, base64_text(b));
    law_base64_tells_bytes_apart(a, b);
    vstd::utf8::encode_utf8_decode_utf8(user + ":"@ + password);
    vstd::utf8::encode_utf8_decode_utf8(other_user + ":"@ + other_password);
}

} // verus!
