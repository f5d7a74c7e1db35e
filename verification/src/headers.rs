//! HTTP headers, and the calls into http.

use vstd::prelude::*;

use crate::json::{
    members, new_fields, opt_string, set_field, string_value, Json, LogFields, Members,
};
use crate::text::{lower, same_ignoring_case, text_or_empty};

verus! {

/// A header line: the name in lower case, and the bytes of the value.
pub struct HeaderLine {
    pub name: Seq<char>,
    pub value: Seq<u8>,
}

#[verifier::external_type_specification]
#[verifier::external_body]
#[verifier::reject_recursive_types(T)]
pub struct ExHeaderMap<T>(http::HeaderMap<T>);

#[verifier::external_type_specification]
#[verifier::external_body]
pub struct ExHeaderValue(http::HeaderValue);

/// The lines that a header map holds, in the order in which it hands them out.
pub uninterp spec fn header_lines(h: http::HeaderMap<http::HeaderValue>) -> Seq<HeaderLine>;

/// The most names with which a header map surely takes one more. A header map has no more than
/// 32768 slots, one for each name; with a fifth of them taken it may want more than it can have,
/// and then takes no more names. How many values a name has does not matter.
pub const MAX_HEADER_NAMES: usize = 6553;

/// The names that lines have.
pub open spec fn names_in(lines: Seq<HeaderLine>) -> Set<Seq<char>> {
    lines.map_values(|line: HeaderLine| line.name).to_set()
}

/// There are no more names than lines.
pub proof fn law_no_more_names_than_lines(lines: Seq<HeaderLine>)
    ensures
        names_in(lines).len() <= lines.len(),
{
    lines.map_values(|line: HeaderLine| line.name).lemma_cardinality_of_set();
}

/// Whether a byte is a visible ASCII character, a space or a tab.
pub open spec fn is_visible(b: u8) -> bool {
    (32 <= b && b < 127) || b == 9
}

/// The text of a header value: its characters where all of them are visible ASCII.
pub open spec fn visible_text(value: Seq<u8>) -> Option<Seq<char>> {
    if forall|i: int| 0 <= i < value.len() ==> is_visible(#[trigger] value[i]) {
        Some(Seq::new(value.len(), |i: int| value[i] as char))
    } else {
        None
    }
}

/// Whether a text can be the value of a header: no control characters but the tab.
pub open spec fn is_header_text(text: Seq<char>) -> bool {
    forall|i: int|
        0 <= i < vstd::utf8::encode_utf8(text).len() ==> {
            let b = #[trigger] vstd::utf8::encode_utf8(text)[i];
            (32 <= b && b != 127) || b == 9
        }
}

/// Whether a text can be read back from a header: visible ASCII, spaces and tabs.
pub open spec fn is_visible_text(text: Seq<char>) -> bool {
    forall|i: int|
        0 <= i < text.len() ==> {
            let c = #[trigger] text[i];
            (' ' <= c && c <= '~') || c == '\t'
        }
}

/// A text of visible ASCII can be the value of a header, and is read back from it.
pub proof fn law_visible_text_is_read_back(text: Seq<char>)
    requires
        is_visible_text(text),
    ensures
        is_header_text(text),
        visible_text(vstd::utf8::encode_utf8(text)) == Some(text),
{
    let bytes = vstd::utf8::encode_utf8(text);
    assert(vstd::utf8::is_ascii_chars(text)) by {
        assert forall|i: int| 0 <= i < text.len() implies '\0' <= #[trigger] text[i]
            && text[i] <= '\u{7f}' by {}
    }
    vstd::utf8::is_ascii_chars_encode_utf8(text);
    assert forall|i: int| 0 <= i < bytes.len() implies is_visible(#[trigger] bytes[i]) by {
        assert(bytes[i] == text[i] as u8);
        assert((' ' <= text[i] && text[i] <= '~') || text[i] == '\t');
    }
    assert(visible_text(bytes)->0 =~= text);
}

/// The text that is read from a header is visible ASCII.
pub proof fn law_text_that_is_read_is_visible(value: Seq<u8>)
    requires
        visible_text(value) is Some,
    ensures
        is_visible_text(visible_text(value)->0),
{
    let text = visible_text(value)->0;
    assert forall|i: int| 0 <= i < text.len() implies {
        let c = #[trigger] text[i];
        (' ' <= c && c <= '~') || c == '\t'
    } by {
        assert(is_visible(value[i]));
    }
}

/// The values under a name, in order.
pub open spec fn values_of(lines: Seq<HeaderLine>, name: Seq<char>) -> Seq<Seq<u8>>
    decreases lines.len(),
{
    if lines.len() == 0 {
        Seq::empty()
    } else {
        let front = values_of(lines.drop_last(), name);
        if lines.last().name == name {
            front.push(lines.last().value)
        } else {
            front
        }
    }
}

/// The first value under a name.
pub open spec fn first_value(lines: Seq<HeaderLine>, name: Seq<char>) -> Option<Seq<u8>> {
    if values_of(lines, name).len() > 0 {
        Some(values_of(lines, name)[0])
    } else {
        None
    }
}

/// Lines in which `name` has just this value, and every other name what it had.
pub open spec fn holds_only(
    lines: Seq<HeaderLine>,
    before: Seq<HeaderLine>,
    name: Seq<char>,
    value: Seq<u8>,
) -> bool {
    &&& values_of(lines, name) == seq![value]
    &&& forall|other: Seq<char>|
        other != name ==> #[trigger] values_of(lines, other) == values_of(before, other)
}

/// A header line as the library reads it: the name, and the text of the value where it is visible
/// ASCII.
pub struct HeaderText {
    pub name: String,
    pub text: Option<String>,
}

/// `http::HeaderMap::iter`, each name by `HeaderName::as_str` and each value by
/// `HeaderValue::to_str`: all lines, with their texts.
#[verifier::external_body]
pub(crate) fn header_texts(headers: &http::HeaderMap<http::HeaderValue>) -> (r: Vec<HeaderText>)
    ensures
        r@.len() == header_lines(*headers).len(),
        forall|i: int|
            0 <= i < r@.len() ==> (#[trigger] r@[i]).name@ == header_lines(*headers)[i].name
                && opt_string(r@[i].text) == visible_text(header_lines(*headers)[i].value),
{
    headers
        .iter()
        .map(
            |(name, value)|
                HeaderText {
                    name: name.as_str().to_string(),
                    text: value.to_str().ok().map(|s| s.to_string()),
                },
        )
        .collect()
}

/// `http::HeaderMap::get` by a name in lower case, the value by `HeaderValue::to_str`: nothing
/// where the map has no such line, and otherwise the text of the first one.
#[verifier::external_body]
pub(crate) fn header_get(
    headers: &http::HeaderMap<http::HeaderValue>,
    name: &'static str,
) -> (r: Option<Option<String>>)
    requires
        is_plain_name(name@),
    ensures
        r is Some <==> first_value(header_lines(*headers), name@) is Some,
        r is Some ==> opt_string(r->0) == visible_text(
            first_value(header_lines(*headers), name@)->0,
        ),
{
    headers.get(name).map(|value| value.to_str().ok().map(|s| s.to_string()))
}

/// `http::HeaderValue::from_str`: whether it accepts the text.
#[verifier::external_body]
pub(crate) fn is_header_value(text: &str) -> (r: bool)
    ensures
        r == is_header_text(text@),
{
    http::HeaderValue::from_str(text).is_ok()
}

/// Whether a text is a name that `http::HeaderName::from_static` accepts: lower case letters,
/// digits and hyphens.
pub open spec fn is_plain_name(name: Seq<char>) -> bool {
    &&& 0 < name.len() < 64
    &&& forall|i: int|
        0 <= i < name.len() ==> {
            let c = #[trigger] name[i];
            ('a' <= c && c <= 'z') || ('0' <= c && c <= '9') || c == '-'
        }
}

/// `http::HeaderMap::try_insert`: the name has just this value, and every other name keeps its
/// values; a map that has no room for another name reports that and stays as it is. Which maps have
/// no room depends on how the names are hashed, and is not specified but for maps with few names,
/// which have room.
#[verifier::external_body]
pub(crate) fn header_insert(
    headers: &mut http::HeaderMap<http::HeaderValue>,
    name: &'static str,
    value: &str,
) -> (r: bool)
    requires
        is_plain_name(name@),
        is_header_text(value@),
    ensures
        names_in(header_lines(*old(headers))).len() <= MAX_HEADER_NAMES ==> r,
        r ==> holds_only(
            header_lines(*final(headers)),
            header_lines(*old(headers)),
            name@,
            vstd::utf8::encode_utf8(value@),
        ),
        !r ==> header_lines(*final(headers)) == header_lines(*old(headers)),
{
    let value = http::HeaderValue::from_str(value).unwrap();
    headers.try_insert(http::HeaderName::from_static(name), value).is_ok()
}

/// The first line whose name is `name`, up to case.
pub open spec fn find_line(lines: Seq<HeaderLine>, name: Seq<char>) -> Option<HeaderLine>
    decreases lines.len(),
{
    if lines.len() == 0 {
        None
    } else if lower(lines[0].name) == lower(name) {
        Some(lines[0])
    } else {
        find_line(lines.drop_first(), name)
    }
}

/// The text of the first line whose name is `name`, up to case.
pub open spec fn line_text(lines: Seq<HeaderLine>, name: Seq<char>) -> Option<Seq<char>> {
    match find_line(lines, name) {
        Some(line) => visible_text(line.value),
        None => None,
    }
}

/// The text of the first header called `name`, in whatever case; nothing where there is no such
/// header, or where its value is not visible ASCII.
pub(crate) fn find_text(headers: &http::HeaderMap<http::HeaderValue>, name: &str) -> (r: Option<
    String,
>)
    ensures
        opt_string(r) == line_text(header_lines(*headers), name@),
{
    let items = header_texts(headers);
    let ghost lines = header_lines(*headers);
    let mut i: usize = 0;
    assert(lines.skip(0) =~= lines);
    while i < items.len()
        invariant
            i <= items@.len(),
            lines == header_lines(*headers),
            items@.len() == lines.len(),
            forall|j: int|
                0 <= j < items@.len() ==> (#[trigger] items@[j]).name@ == lines[j].name
                    && opt_string(items@[j].text) == visible_text(lines[j].value),
            find_line(lines, name@) == find_line(lines.skip(i as int), name@),
        decreases items@.len() - i,
    {
        assert(lines.skip(i as int).drop_first() =~= lines.skip(i + 1));
        if same_ignoring_case(items[i].name.as_str(), name) {
            return match &items[i].text {
                Some(text) => Some(text.clone()),
                None => None,
            };
        }
        i = i + 1;
    }
    None
}

/// The members of the JSON object for header lines: each name with the text of its last value, and
/// with the empty text for a value that is not visible ASCII.
pub open spec fn header_members(lines: Seq<HeaderLine>) -> Members
    decreases lines.len(),
{
    if lines.len() == 0 {
        Map::empty()
    } else {
        header_members(lines.drop_last()).insert(
            lines.last().name,
            Json::Text(text_or_empty(visible_text(lines.last().value))),
        )
    }
}

/// Headers as a JSON object. A name that comes more than once keeps its last value; a value that
/// is not visible ASCII becomes the empty text.
pub fn header_to_map(headers: &http::HeaderMap<http::HeaderValue>) -> (r: LogFields)
    ensures
        members(r) == header_members(header_lines(*headers)),
{
    let items = header_texts(headers);
    let ghost lines = header_lines(*headers);
    let mut map = new_fields();
    let mut i: usize = 0;
    assert(lines.take(0) =~= Seq::empty());
    while i < items.len()
        invariant
            i <= items@.len(),
            lines == header_lines(*headers),
            items@.len() == lines.len(),
            forall|j: int|
                0 <= j < items@.len() ==> (#[trigger] items@[j]).name@ == lines[j].name
                    && opt_string(items@[j].text) == visible_text(lines[j].value),
            members(map) == header_members(lines.take(i as int)),
        decreases items@.len() - i,
    {
        let text = match &items[i].text {
            Some(t) => t.clone(),
            None => String::new(),
        };
        set_field(&mut map, items[i].name.as_str(), string_value(text));
        assert(lines.take(i + 1).drop_last() =~= lines.take(i as int));
        i = i + 1;
    }
    assert(lines.take(i as int) =~= lines);
    map
}

/// A header map as a JSON object has a member for each name that has a value, and for no other,
/// and it is the text of the name's last value.
pub proof fn law_header_map_keeps_the_last_value(lines: Seq<HeaderLine>, name: Seq<char>)
    ensures
        header_members(lines).contains_key(name) <==> values_of(lines, name).len() > 0,
        values_of(lines, name).len() > 0 ==> header_members(lines)[name] == Json::Text(
            text_or_empty(visible_text(values_of(lines, name).last())),
        ),
    decreases lines.len(),
{
    if lines.len() > 0 {
        law_header_map_keeps_the_last_value(lines.drop_last(), name);
    }
}

/// Whether the bytes of a value are visible ASCII, and the text has their characters.
pub open spec fn reads_as(value: Seq<u8>, text: Seq<char>) -> bool {
    &&& text.len() == value.len()
    &&& forall|k: int|
        0 <= k < value.len() ==> (#[trigger] value[k] == 9 || 32 <= value[k] <= 126) && text[k]
            as int == value[k]
}

/// Whether a name has a text in headers: the first line of that name, in whatever case, reads as
/// it.
pub open spec fn tells(lines: Seq<HeaderLine>, name: Seq<char>, text: Seq<char>) -> bool {
    exists|i: int|
        0 <= i < lines.len() && lower((#[trigger] lines[i]).name) == lower(name) && reads_as(
            lines[i].value,
            text,
        ) && forall|j: int| 0 <= j < i ==> lower((#[trigger] lines[j]).name) != lower(name)
}

/// Whether a name has no text in headers.
pub open spec fn is_silent(lines: Seq<HeaderLine>, name: Seq<char>) -> bool {
    forall|text: Seq<char>| !#[trigger] tells(lines, name, text)
}

/// A value is readable exactly where its bytes are visible ASCII, and is read as their characters.
pub proof fn law_value_is_read_byte_by_byte(value: Seq<u8>, text: Seq<char>)
    ensures
        visible_text(value) == Some(text) <==> reads_as(value, text),
{
    if reads_as(value, text) {
        assert forall|i: int| 0 <= i < value.len() implies is_visible(#[trigger] value[i]) by {}
        assert(visible_text(value)->0 =~= text);
    }
    if visible_text(value) == Some(text) {
        assert forall|k: int| 0 <= k < value.len() implies (#[trigger] value[k] == 9 || 32
            <= value[k] <= 126) && text[k] as int == value[k] by {
            assert(is_visible(value[k]));
        }
    }
}

/// The text of a header is that of the first line of its name, in whatever case, where that line is
/// readable; otherwise there is none, whatever further lines say.
pub proof fn law_first_line_of_a_name_counts(
    lines: Seq<HeaderLine>,
    name: Seq<char>,
    text: Seq<char>,
)
    ensures
        line_text(lines, name) == Some(text) <==> tells(lines, name, text),
    decreases lines.len(),
{
    if lines.len() > 0 {
        let rest = lines.drop_first();
        law_value_is_read_byte_by_byte(lines[0].value, text);
        law_first_line_of_a_name_counts(rest, name, text);
        if lower(lines[0].name) != lower(name) {
            if tells(lines, name, text) {
                let i = choose|i: int|
                    0 <= i < lines.len() && lower((#[trigger] lines[i]).name) == lower(name)
                        && reads_as(lines[i].value, text) && forall|j: int|
                        0 <= j < i ==> lower((#[trigger] lines[j]).name) != lower(name);
                assert(rest[i - 1] == lines[i]);
                assert forall|j: int| 0 <= j < i - 1 implies lower((#[trigger] rest[j]).name)
                    != lower(name) by {
                    assert(rest[j] == lines[j + 1]);
                }
            }
            if tells(rest, name, text) {
                let i = choose|i: int|
                    0 <= i < rest.len() && lower((#[trigger] rest[i]).name) == lower(name)
                        && reads_as(rest[i].value, text) && forall|j: int|
                        0 <= j < i ==> lower((#[trigger] rest[j]).name) != lower(name);
                assert(lines[i + 1] == rest[i]);
                assert forall|j: int| 0 <= j < i + 1 implies lower((#[trigger] lines[j]).name)
                    != lower(name) by {
                    if j > 0 {
                        assert(rest[j - 1] == lines[j]);
                    }
                }
            }
        } else if line_text(lines, name) == Some(text) {
            assert(lower(lines[0].name) == lower(name) && reads_as(lines[0].value, text));
        } else if tells(lines, name, text) {
            let i = choose|i: int|
                0 <= i < lines.len() && lower((#[trigger] lines[i]).name) == lower(name)
                    && reads_as(lines[i].value, text) && forall|j: int|
                    0 <= j < i ==> lower((#[trigger] lines[j]).name) != lower(name);
            assert(i == 0) by {
                if i > 0 {
                    assert(lower(lines[0].name) != lower(name));
                }
            }
        }
    }
}

/// The values under a name keep their order: those of the first lines come before those of the
/// others, and a line gives its value to its own name alone.
pub proof fn law_values_keep_their_order(
    first: Seq<HeaderLine>,
    more: Seq<HeaderLine>,
    line: HeaderLine,
    name: Seq<char>,
)
    ensures
        values_of(first + more, name) == values_of(first, name) + values_of(more, name),
        values_of(seq![line], name) == (if line.name == name {
            seq![line.value]
        } else {
            Seq::empty()
        }),
    decreases more.len(),
{
    assert(seq![line].drop_last() =~= Seq::empty());
    assert(values_of(Seq::empty(), name) == Seq::<Seq<u8>>::empty());
    assert(values_of(seq![line], name) =~= (if line.name == name {
        seq![line.value]
    } else {
        Seq::empty()
    }));
    if more.len() == 0 {
        assert(first + more =~= first);
        assert(values_of(first, name) + values_of(more, name) =~= values_of(first, name));
    } else {
        law_values_keep_their_order(first, more.drop_last(), line, name);
        assert((first + more).drop_last() =~= first + more.drop_last());
        assert(values_of(first + more, name) =~= values_of(first, name) + values_of(more, name));
    }
}

} // verus!
