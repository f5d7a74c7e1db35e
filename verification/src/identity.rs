//! Who and which: fresh request identifiers and the user that runs the process.

use vstd::prelude::*;

use crate::headers::is_visible_text;

verus! {

/// Whether a character is a hexadecimal digit in lower case.
pub open spec fn is_lower_hex(c: char) -> bool {
    ('0' <= c && c <= '9') || ('a' <= c && c <= 'f')
}

/// The text of a random identifier: groups of 8, 4, 4, 4 and 12 hexadecimal digits with hyphens
/// between them, with the version 4 and the variant marked in it.
pub open spec fn is_uuid_text(text: Seq<char>) -> bool {
    &&& text.len() == 36
    &&& forall|i: int|
        0 <= i < 36 ==> if i == 8 || i == 13 || i == 18 || i == 23 {
            #[trigger] text[i] == '-'
        } else {
            is_lower_hex(text[i])
        }
    &&& text[14] == '4'
    &&& text[19] == '8' || text[19] == '9' || text[19] == 'a' || text[19] == 'b'
}

/// The text of a random identifier is visible ASCII.
pub proof fn law_uuid_text_is_visible(text: Seq<char>)
    requires
        is_uuid_text(text),
    ensures
        is_visible_text(text),
{
}

/// `uuid::Uuid::new_v4` as text: an identifier of this form. Its digits are random.
#[verifier::external_body]
pub(crate) fn fresh_request_id() -> (r: String)
    ensures
        is_uuid_text(r@),
{
    uuid::Uuid::new_v4().to_string()
}

/// Whether an identifier is a fresh one: a call of `fresh_request_id` gives it.
pub open(crate) spec fn is_fresh(id: Seq<char>) -> bool {
    exists|drawn: String| #[trigger] call_ensures(fresh_request_id, (), drawn) && drawn@ == id
}

/// A fresh identifier is drawn, not made up, and has the form of a random one.
pub(crate) proof fn law_fresh_id_is_drawn(id: Seq<char>)
    requires
        is_fresh(id),
    ensures
        exists|drawn: String| #[trigger]
            call_ensures(fresh_request_id, (), drawn) && drawn@ == id,
        is_uuid_text(id),
{
}

/// Whether the system tells this user, and whether the user is empty where it tells none: a call
/// of `current_user` gives it.
pub open(crate) spec fn is_told_user(user: Seq<char>) -> bool {
    exists|told: Option<String>| #[trigger]
        call_ensures(current_user, (), told) && user == (match told {
            Some(name) => name@,
            None => Seq::empty(),
        })
}

/// The user that is logged is the one that the system tells, and empty only where it tells none.
pub(crate) proof fn law_user_is_told(user: Seq<char>)
    requires
        is_told_user(user),
    ensures
        exists|told: Option<String>| #[trigger]
            call_ensures(current_user, (), told) && (match told {
                Some(name) => user == name@,
                None => user.len() == 0,
            }),
{
}

/// `whoami::username`: the name of the user, nothing where the system does not tell. It depends on
/// the machine and is not specified.
#[verifier::external_body]
pub(crate) fn current_user() -> (r: Option<String>) {
    whoami::username().ok()
}

} // verus!
