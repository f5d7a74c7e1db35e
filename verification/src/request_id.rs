//! The name under which requests and responses carry their identifier.

use vstd::prelude::*;

use crate::generalkey::REQUEST_ID_HEADER;
use crate::headers::{first_value, is_plain_name, values_of, visible_text, HeaderLine};
use crate::metadata::is_binary_name;
use crate::text::lower;

verus! {

/// The header, in lower case.
pub const REQUEST_ID_NAME: &'static str = "x-request-id";

/// The identifier that lines carry: the text of the first one under the name, where it is visible
/// ASCII.
pub open spec fn carried_id(lines: Seq<HeaderLine>) -> Option<Seq<char>> {
    match first_value(lines, REQUEST_ID_NAME@) {
        Some(value) => visible_text(value),
        None => None,
    }
}

/// The name is a plain one for text, and the header's in lower case.
pub(crate) proof fn lemma_request_id_name()
    ensures
        is_plain_name(REQUEST_ID_NAME@),
        !is_binary_name(REQUEST_ID_NAME@),
        lower(REQUEST_ID_HEADER@) == REQUEST_ID_NAME@,
{
    reveal_strlit("x-request-id");
    reveal_strlit("X-Request-ID");
    reveal_strlit("-bin");
    let name = REQUEST_ID_NAME@;
    assert(name.len() == 12);
    assert(name[0] == 'x' && name[1] == '-' && name[2] == 'r' && name[3] == 'e' && name[4] == 'q'
        && name[5] == 'u' && name[6] == 'e' && name[7] == 's' && name[8] == 't' && name[9] == '-'
        && name[10] == 'i' && name[11] == 'd');
    assert("-bin"@.len() == 4 && "-bin"@[0] == '-');
    assert(name.skip(8)[0] == 't');
    assert(lower(REQUEST_ID_HEADER@) =~= name);
}

/// Lines carry an identifier exactly where they have a value under `x-request-id` and the first one
/// is readable, and the identifier is its text.
pub proof fn law_first_readable_value_is_the_id(lines: Seq<HeaderLine>)
    ensures
        values_of(lines, "x-request-id"@).len() == 0 ==> carried_id(lines) is None,
        values_of(lines, "x-request-id"@).len() > 0 ==> carried_id(lines) == visible_text(
            values_of(lines, "x-request-id"@)[0],
        ),
{
}

} // verus!
