//! gRPC metadata, and the calls into tonic.

use vstd::prelude::*;

use crate::headers::{
    first_value, holds_only, is_header_text, is_plain_name, names_in, values_of, visible_text,
    HeaderLine, MAX_HEADER_NAMES,
};
use crate::json::{
    array_value, json, jsons, members, new_fields, opt_string, set_field, string_value, text_value,
    Json, LogFields, Members,
};
use crate::text::{base64_text, encode_base64, lower, or_empty, text_or_empty};

verus! {

#[verifier::external_type_specification]
#[verifier::external_body]
pub struct ExMetadataMap(tonic::metadata::MetadataMap);

/// The lines that metadata hold, in the order in which they are handed out. The value of a binary
/// line is the base64 text that goes over the wire.
pub uninterp spec fn metadata_lines(m: tonic::metadata::MetadataMap) -> Seq<HeaderLine>;

/// Whether a name marks its values as binary.
pub open spec fn is_binary_name(name: Seq<char>) -> bool {
    name.len() >= 4 && name.skip(name.len() - 4) == "-bin"@
}

/// The characters that bytes stand for one by one.
pub open spec fn chars_of(bytes: Seq<u8>) -> Seq<char> {
    Seq::new(bytes.len(), |i: int| bytes[i] as char)
}

/// Whether a character may stand in a header name: a letter, a digit, or one of
/// ``!#$%&'*+-.^_`|~``.
pub open spec fn is_name_char(c: char) -> bool {
    ||| ('a' <= c && c <= 'z')
    ||| ('A' <= c && c <= 'Z')
    ||| ('0' <= c && c <= '9')
    ||| c == '!'
    ||| ('#' <= c && c <= '\'')
    ||| c == '*' || c == '+' || c == '-' || c == '.'
    ||| ('^' <= c && c <= '`')
    ||| c == '|' || c == '~'
}

/// The most bytes that a header name may have.
pub const MAX_NAME_BYTES: usize = 65535;

/// The metadata key for ASCII values that bytes stand for: a header name, in lower case, that does
/// not mark its values as binary.
pub open spec fn metadata_key_of(bytes: Seq<u8>) -> Option<Seq<char>> {
    let key = lower(chars_of(bytes));
    if 0 < bytes.len() <= MAX_NAME_BYTES && (forall|i: int|
        0 <= i < bytes.len() ==> is_name_char(#[trigger] bytes[i] as char)) && !is_binary_name(
        key,
    ) {
        Some(key)
    } else {
        None
    }
}

/// Bytes that spell a plain name that does not mark its values as binary are that key.
pub proof fn law_plain_name_is_a_key(bytes: Seq<u8>)
    requires
        is_plain_name(chars_of(bytes)),
        !is_binary_name(chars_of(bytes)),
    ensures
        metadata_key_of(bytes) == Some(chars_of(bytes)),
{
    let name = chars_of(bytes);
    assert(lower(name) =~= name);
    assert forall|i: int| 0 <= i < bytes.len() implies is_name_char(
        #[trigger] bytes[i] as char,
    ) by {
        let c = name[i];
        assert(('a' <= c && c <= 'z') || ('0' <= c && c <= '9') || c == '-');
    }
}

/// The value of a metadata line.
pub enum MetadataText {
    /// The text, where it is visible ASCII.
    Ascii(Option<String>),
    /// The base64 text of the binary value, byte by byte.
    Binary(Vec<u8>),
}

/// A metadata line.
pub struct MetadataItem {
    pub key: String,
    pub value: MetadataText,
}

/// Whether an item is what a line says.
pub open spec fn item_shows(item: MetadataItem, line: HeaderLine) -> bool {
    &&& item.key@ == line.name
    &&& match item.value {
        MetadataText::Ascii(text) => !is_binary_name(line.name) && opt_string(text)
            == visible_text(line.value),
        MetadataText::Binary(bytes) => is_binary_name(line.name) && bytes@ == line.value,
    }
}

/// tonic's `MetadataMap::iter`, each key by `MetadataKey::as_str`, an ASCII value by `to_str` and
/// a binary one by `as_encoded_bytes`: all lines.
#[verifier::external_body]
pub(crate) fn metadata_items(md: &tonic::metadata::MetadataMap) -> (r: Vec<MetadataItem>)
    ensures
        r@.len() == metadata_lines(*md).len(),
        forall|i: int|
            0 <= i < r@.len() ==> item_shows(#[trigger] r@[i], metadata_lines(*md)[i]),
{
    md.iter().map(|line| match line {
        tonic::metadata::KeyAndValueRef::Ascii(key, value) => MetadataItem {
            key: key.as_str().to_string(),
            value: MetadataText::Ascii(value.to_str().ok().map(|s| s.to_string())),
        },
        tonic::metadata::KeyAndValueRef::Binary(key, value) => MetadataItem {
            key: key.as_str().to_string(),
            value: MetadataText::Binary(value.as_encoded_bytes().to_vec()),
        },
    }).collect()
}

/// tonic's `MetadataMap::get` by an ASCII key, the value by `to_str`: nothing where there is no
/// such line, and otherwise the text of the first one.
#[verifier::external_body]
pub(crate) fn metadata_get(md: &tonic::metadata::MetadataMap, key: &str) -> (r: Option<
    Option<String>,
>)
    requires
        is_plain_name(key@),
        !is_binary_name(key@),
    ensures
        r is Some <==> first_value(metadata_lines(*md), key@) is Some,
        r is Some ==> opt_string(r->0) == visible_text(
            first_value(metadata_lines(*md), key@)->0,
        ),
{
    md.get(key).map(|value| value.to_str().ok().map(|s| s.to_string()))
}

/// tonic's `MetadataKey::from_bytes` for an ASCII value, the key by `as_str`: the header name in
/// lower case. Bytes that are no header name, too many bytes and a name that marks binary values
/// are errors.
#[verifier::external_body]
pub(crate) fn metadata_key(bytes: &[u8]) -> (r: Option<String>)
    ensures
        opt_string(r) == metadata_key_of(bytes@),
{
    let key = tonic::metadata::MetadataKey::<tonic::metadata::Ascii>::from_bytes(bytes).ok()?;
    Some(key.as_str().to_string())
}

/// tonic's `MetadataValue::try_from` for a text: whether it accepts the text.
#[verifier::external_body]
pub(crate) fn is_metadata_value(text: &str) -> (r: bool)
    ensures
        r == is_header_text(text@),
{
    tonic::metadata::AsciiMetadataValue::try_from(text).is_ok()
}

/// `http::HeaderMap::try_insert` on the header map of metadata, by tonic's
/// `MetadataMap::into_headers` and back by `from_headers`: the key has just this value, and every
/// other key keeps its values; metadata that have no room for another key report that and stay as
/// they are. Which have no room depends on how the keys are hashed, and is not specified but for
/// metadata with few keys, which have room.
#[verifier::external_body]
pub(crate) fn metadata_try_insert(
    md: &mut tonic::metadata::MetadataMap,
    key: &str,
    value: &str,
) -> (r: bool)
    requires
        is_plain_name(key@),
        !is_binary_name(key@),
        is_header_text(value@),
    ensures
        names_in(metadata_lines(*old(md))).len() <= MAX_HEADER_NAMES ==> r,
        r ==> holds_only(
            metadata_lines(*final(md)),
            metadata_lines(*old(md)),
            key@,
            vstd::utf8::encode_utf8(value@),
        ),
        !r ==> metadata_lines(*final(md)) == metadata_lines(*old(md)),
{
    let name = http::HeaderName::from_bytes(key.as_bytes()).unwrap();
    let value = http::HeaderValue::from_str(value).unwrap();
    let mut headers = std::mem::take(md).into_headers();
    let done = headers.try_insert(name, value).is_ok();
    *md = tonic::metadata::MetadataMap::from_headers(headers);
    done
}

/// The text of a metadata line in a log: that of an ASCII value, empty where it is not visible
/// ASCII or where none is to be read, and the base64 text of a binary value as it goes over the
/// wire.
pub open spec fn logged_text(line: HeaderLine, unreadable: bool) -> Seq<char> {
    if is_binary_name(line.name) {
        base64_text(line.value)
    } else if unreadable {
        Seq::empty()
    } else {
        text_or_empty(visible_text(line.value))
    }
}

/// The texts under a key, in order.
pub open spec fn logged_texts(lines: Seq<HeaderLine>, key: Seq<char>, unreadable: bool) -> Seq<
    Seq<char>,
>
    decreases lines.len(),
{
    if lines.len() == 0 {
        Seq::empty()
    } else {
        let front = logged_texts(lines.drop_last(), key, unreadable);
        if lines.last().name == key {
            front.push(logged_text(lines.last(), unreadable))
        } else {
            front
        }
    }
}

/// The JSON value for the texts under a key: one text as it is, and several as an array.
pub open spec fn texts_json(texts: Seq<Seq<char>>) -> Json {
    if texts.len() == 1 {
        Json::Text(texts[0])
    } else {
        Json::Array(Seq::new(texts.len(), |i: int| Json::Text(texts[i])))
    }
}

/// The members of the JSON object for metadata: each key with its texts.
pub open spec fn metadata_members(lines: Seq<HeaderLine>, unreadable: bool) -> Members {
    Map::new(
        |key: Seq<char>| logged_texts(lines, key, unreadable).len() > 0,
        |key: Seq<char>| texts_json(logged_texts(lines, key, unreadable)),
    )
}

/// The texts under one key.
struct Group {
    key: String,
    texts: Vec<String>,
}

/// The characters of each text.
spec fn views(texts: Seq<String>) -> Seq<Seq<char>> {
    Seq::new(texts.len(), |i: int| texts[i]@)
}

/// Groups that hold the texts of all lines: each key once, and each with all its texts.
spec fn groups_hold(groups: Seq<Group>, lines: Seq<HeaderLine>, unreadable: bool) -> bool {
    &&& forall|i: int, j: int|
        0 <= i < j < groups.len() ==> (#[trigger] groups[i]).key@ != (#[trigger] groups[j]).key@
    &&& forall|i: int|
        0 <= i < groups.len() ==> views((#[trigger] groups[i]).texts@) == logged_texts(
            lines,
            groups[i].key@,
            unreadable,
        ) && groups[i].texts@.len() > 0
    &&& forall|key: Seq<char>|
        (#[trigger] logged_texts(lines, key, unreadable)).len() > 0 ==> exists|i: int|
            0 <= i < groups.len() && (#[trigger] groups[i]).key@ == key
}

/// The group of a key, where there is one.
fn find_group(groups: &Vec<Group>, key: &String) -> (r: Option<usize>)
    ensures
        match r {
            Some(i) => i < groups@.len() && groups@[i as int].key@ == key@,
            None => forall|j: int| 0 <= j < groups@.len() ==> (#[trigger] groups@[j]).key@ != key@,
        },
{
    let mut i: usize = 0;
    while i < groups.len()
        invariant
            i <= groups@.len(),
            forall|j: int| 0 <= j < i ==> (#[trigger] groups@[j]).key@ != key@,
        decreases groups@.len() - i,
    {
        if groups[i].key == *key {
            return Some(i);
        }
        i = i + 1;
    }
    None
}

proof fn lemma_group_grew(
    before: Seq<Group>,
    after: Seq<Group>,
    at: int,
    lines: Seq<HeaderLine>,
    unreadable: bool,
)
    requires
        lines.len() > 0,
        groups_hold(before, lines.drop_last(), unreadable),
        0 <= at < before.len() == after.len(),
        before[at].key@ == lines.last().name,
        after[at].key@ == before[at].key@,
        views(after[at].texts@) == views(before[at].texts@).push(
            logged_text(lines.last(), unreadable),
        ),
        forall|i: int| 0 <= i < before.len() && i != at ==> #[trigger] after[i] == before[i],
    ensures
        groups_hold(after, lines, unreadable),
{
    assert(views(after[at].texts@).len() == after[at].texts@.len());
    assert forall|i: int, j: int| 0 <= i < j < after.len() implies (#[trigger] after[i]).key@ != (
    #[trigger] after[j]).key@ by {
        assert(before[i].key@ != before[j].key@);
    }
    assert forall|i: int| 0 <= i < after.len() implies views((#[trigger] after[i]).texts@)
        == logged_texts(lines, after[i].key@, unreadable) && after[i].texts@.len() > 0 by {
        assert(views(before[i].texts@) == logged_texts(
            lines.drop_last(),
            before[i].key@,
            unreadable,
        ));
        if i != at {
            assert(before[i].key@ != before[at].key@) by {
                if i < at {
                    assert(before[i].key@ != before[at].key@);
                } else {
                    assert(before[at].key@ != before[i].key@);
                }
            }
        }
    }
    assert forall|key: Seq<char>|
        (#[trigger] logged_texts(lines, key, unreadable)).len() > 0 implies exists|i: int|
        0 <= i < after.len() && (#[trigger] after[i]).key@ == key by {
        if key == lines.last().name {
            assert(after[at].key@ == key);
        } else {
            assert(logged_texts(lines.drop_last(), key, unreadable).len() > 0);
            let i = choose|i: int| 0 <= i < before.len() && (#[trigger] before[i]).key@ == key;
            assert(after[i].key@ == key);
        }
    }
}

proof fn lemma_group_added(
    before: Seq<Group>,
    group: Group,
    lines: Seq<HeaderLine>,
    unreadable: bool,
)
    requires
        lines.len() > 0,
        groups_hold(before, lines.drop_last(), unreadable),
        forall|j: int| 0 <= j < before.len() ==> (#[trigger] before[j]).key@ != group.key@,
        group.key@ == lines.last().name,
        views(group.texts@) == seq![logged_text(lines.last(), unreadable)],
    ensures
        groups_hold(before.push(group), lines, unreadable),
{
    let after = before.push(group);
    assert(views(group.texts@).len() == group.texts@.len());
    assert(logged_texts(lines.drop_last(), group.key@, unreadable).len() == 0) by {
        if logged_texts(lines.drop_last(), group.key@, unreadable).len() > 0 {
            let i = choose|i: int|
                0 <= i < before.len() && (#[trigger] before[i]).key@ == group.key@;
            assert(before[i].key@ != group.key@);
        }
    }
    assert forall|i: int| 0 <= i < after.len() implies views((#[trigger] after[i]).texts@)
        == logged_texts(lines, after[i].key@, unreadable) && after[i].texts@.len() > 0 by {
        if i < before.len() {
            assert(views(before[i].texts@) == logged_texts(
                lines.drop_last(),
                before[i].key@,
                unreadable,
            ));
        } else {
            assert(logged_texts(lines, group.key@, unreadable) =~= seq![
                logged_text(lines.last(), unreadable),
            ]);
        }
    }
    assert forall|key: Seq<char>|
        (#[trigger] logged_texts(lines, key, unreadable)).len() > 0 implies exists|i: int|
        0 <= i < after.len() && (#[trigger] after[i]).key@ == key by {
        if key == group.key@ {
            assert(after[before.len() as int].key@ == key);
        } else {
            assert(logged_texts(lines.drop_last(), key, unreadable).len() > 0);
            let i = choose|i: int| 0 <= i < before.len() && (#[trigger] before[i]).key@ == key;
            assert(after[i].key@ == key);
        }
    }
}

/// Adds the text of the last of some lines to the group of its key.
fn add_text(
    groups: &mut Vec<Group>,
    key: String,
    text: String,
    Ghost(lines): Ghost<Seq<HeaderLine>>,
    Ghost(unreadable): Ghost<bool>,
)
    requires
        lines.len() > 0,
        groups_hold(old(groups)@, lines.drop_last(), unreadable),
        key@ == lines.last().name,
        text@ == logged_text(lines.last(), unreadable),
    ensures
        groups_hold(final(groups)@, lines, unreadable),
{
    let ghost before = groups@;
    match find_group(groups, &key) {
        Some(i) => {
            let ghost texts = groups@[i as int].texts@;
            groups[i].texts.push(text);
            proof {
                assert(views(texts.push(text)) =~= views(texts).push(text@));
                lemma_group_grew(before, groups@, i as int, lines, unreadable);
            }
        },
        None => {
            let mut texts: Vec<String> = Vec::new();
            texts.push(text);
            let group = Group { key, texts };
            proof {
                assert(views(group.texts@) =~= seq![text@]);
                lemma_group_added(before, group, lines, unreadable);
            }
            groups.push(group);
        },
    }
}

/// The JSON value for the texts of a group.
fn group_value(texts: Vec<String>) -> (r: serde_json::Value)
    requires
        texts@.len() > 0,
    ensures
        json(r) == texts_json(views(texts@)),
{
    if texts.len() == 1 {
        return text_value(texts[0].as_str());
    }
    let ghost all = texts@;
    let mut items: Vec<serde_json::Value> = Vec::new();
    for text in it: texts
        invariant
            it.seq() == all,
            items@.len() == it.index(),
            forall|i: int|
                0 <= i < items@.len() ==> json(#[trigger] items@[i]) == Json::Text(all[i]@),
    {
        items.push(string_value(text));
    }
    assert(jsons(items@) =~= Seq::new(views(all).len(), |i: int| Json::Text(views(all)[i])));
    array_value(items)
}

/// Metadata as a JSON object: each key with its text, and with an array of its texts where it has
/// several. A binary value is base64 text, and a text that is not visible ASCII is empty, as are
/// all texts where `unreadable` says so.
pub fn metadata_to_map(md: &tonic::metadata::MetadataMap, unreadable: bool) -> (r: LogFields)
    ensures
        members(r) == metadata_members(metadata_lines(*md), unreadable),
{
    let ghost lines = metadata_lines(*md);
    let items = metadata_items(md);
    let ghost all = items@;
    let mut groups: Vec<Group> = Vec::new();
    assert(lines.take(0) =~= Seq::empty());
    for item in it: items
        invariant
            it.seq() == all,
            lines == metadata_lines(*md),
            all.len() == lines.len(),
            forall|i: int| 0 <= i < all.len() ==> item_shows(#[trigger] all[i], lines[i]),
            groups_hold(groups@, lines.take(it.index() as int), unreadable),
    {
        let ghost n = it.index();
        let text = match item.value {
            MetadataText::Ascii(text) => if unreadable {
                String::new()
            } else {
                or_empty(text)
            },
            MetadataText::Binary(bytes) => encode_base64(bytes.as_slice()),
        };
        proof {
            assert(item_shows(all[n as int], lines[n as int]));
            assert(lines.take(n + 1).drop_last() =~= lines.take(n as int));
            assert(lines.take(n + 1).last() == lines[n as int]);
        }
        add_text(
            &mut groups,
            item.key,
            text,
            Ghost(lines.take(n + 1)),
            Ghost(unreadable),
        );
    }
    assert(lines.take(lines.len() as int) =~= lines);
    let ghost held = groups@;
    let mut map = new_fields();
    for group in it: groups
        invariant
            it.seq() == held,
            groups_hold(held, lines, unreadable),
            forall|key: Seq<char>| #[trigger]
                members(map).contains_key(key) <==> exists|i: int|
                    0 <= i < it.index() && (#[trigger] held[i]).key@ == key,
            forall|i: int|
                0 <= i < it.index() ==> members(map)[(#[trigger] held[i]).key@] == texts_json(
                    views(held[i].texts@),
                ),
    {
        let ghost n = it.index() as int;
        let ghost before = members(map);
        set_field(&mut map, group.key.as_str(), group_value(group.texts));
        proof {
            assert forall|key: Seq<char>| #[trigger]
                members(map).contains_key(key) <==> exists|i: int|
                    0 <= i < n + 1 && (#[trigger] held[i]).key@ == key by {
                if key == held[n].key@ {
                } else if before.contains_key(key) {
                    let i = choose|i: int| 0 <= i < n && (#[trigger] held[i]).key@ == key;
                    assert(0 <= i < n + 1 && held[i].key@ == key);
                }
            }
        }
    }
    proof {
        assert forall|key: Seq<char>| #[trigger]
            members(map).contains_key(key) <==> metadata_members(
                lines,
                unreadable,
            ).contains_key(key) by {
            if members(map).contains_key(key) {
                let i = choose|i: int| 0 <= i < held.len() && (#[trigger] held[i]).key@ == key;
                assert(views(held[i].texts@).len() == held[i].texts@.len());
            }
        }
        assert(members(map) =~= metadata_members(lines, unreadable));
    }
    map
}

/// Metadata as a JSON object have a member for each key that has a value, and for no other: one
/// text for one value, and an array of as many texts for several.
pub proof fn law_metadata_map_has_every_value(
    lines: Seq<HeaderLine>,
    key: Seq<char>,
    unreadable: bool,
)
    ensures
        metadata_members(lines, unreadable).contains_key(key) <==> values_of(lines, key).len() > 0,
        logged_texts(lines, key, unreadable).len() == values_of(lines, key).len(),
        forall|i: int|
            0 <= i < values_of(lines, key).len() ==> #[trigger] logged_texts(
                lines,
                key,
                unreadable,
            )[i] == logged_text(
                HeaderLine { name: key, value: values_of(lines, key)[i] },
                unreadable,
            ),
    decreases lines.len(),
{
    if lines.len() > 0 {
        law_metadata_map_has_every_value(lines.drop_last(), key, unreadable);
    }
}

/// The member for a key comes from the values under that key alone. A key with one value has one
/// text, and a key with several has an array of as many texts, in order. The text of a key that
/// ends in `-bin` is the base64 text of the value; that of another key is the value as it reads,
/// and empty where it is not readable or where none is to be read.
pub proof fn law_member_has_the_texts_of_the_key(
    lines: Seq<HeaderLine>,
    key: Seq<char>,
    unreadable: bool,
)
    ensures
        ({
            let values = values_of(lines, key);
            let m = metadata_members(lines, unreadable);
            &&& values.len() == 0 ==> !m.contains_key(key)
            &&& values.len() > 0 ==> m.contains_key(key)
            &&& values.len() == 1 ==> m[key] is Text && is_text_of(
                m[key]->Text_0,
                key,
                values[0],
                unreadable,
            )
            &&& values.len() > 1 ==> m[key] is Array && m[key]->Array_0.len() == values.len()
            &&& values.len() > 1 ==> forall|i: int|
                0 <= i < values.len() ==> (#[trigger] m[key]->Array_0[i]) is Text && is_text_of(
                    m[key]->Array_0[i]->Text_0,
                    key,
                    values[i],
                    unreadable,
                )
        }),
{
    let values = values_of(lines, key);
    let texts = logged_texts(lines, key, unreadable);
    law_metadata_map_has_every_value(lines, key, unreadable);
    assert forall|i: int| 0 <= i < values.len() implies is_text_of(
        #[trigger] texts[i],
        key,
        values[i],
        unreadable,
    ) by {
        lemma_binary_names(key);
        assert(texts[i] == logged_text(HeaderLine { name: key, value: values[i] }, unreadable));
    }
    if values.len() == 1 {
        assert(is_text_of(texts[0], key, values[0], unreadable));
    }
}

/// Whether a text is that of a value under a key.
pub open spec fn is_text_of(
    text: Seq<char>,
    key: Seq<char>,
    value: Seq<u8>,
    unreadable: bool,
) -> bool {
    if ends_in_bin(key) {
        text == base64_text(value)
    } else if !unreadable && visible_text(value) is Some {
        text == visible_text(value)->0
    } else {
        text.len() == 0
    }
}

/// Whether the last four characters of a name are a hyphen and `bin`.
pub open spec fn ends_in_bin(name: Seq<char>) -> bool {
    &&& name.len() >= 4
    &&& name[name.len() - 4] == '-'
    &&& name[name.len() - 3] == 'b'
    &&& name[name.len() - 2] == 'i'
    &&& name[name.len() - 1] == 'n'
}

proof fn lemma_binary_names(name: Seq<char>)
    ensures
        is_binary_name(name) <==> ends_in_bin(name),
{
    reveal_strlit("-bin");
    if ends_in_bin(name) {
        assert(name.skip(name.len() - 4) =~= "-bin"@);
    }
    if is_binary_name(name) {
        let tail = name.skip(name.len() - 4);
        assert(tail[0] == '-' && tail[1] == 'b' && tail[2] == 'i' && tail[3] == 'n');
    }
}

} // verus!
