use vstd::prelude::*;
use crate::json::{JsonObject, JsonValue, JsonView, json_document, member_views, parse_document};
use crate::text::{
    chars_of, contains_chars, contains_text, decode_utf8_lossy, join, join_texts, remove_char,
    same_text, string_of, texts_of, utf8_lossy, without_char,
};

verus! {

/// Keys that name where the file lay on the server, not a tag of the image.
pub open spec fn is_location_key(key: Seq<char>) -> bool {
    key == "SourceFile"@ || key == "Directory"@ || key == "FileName"@
}

/// ExifTool's placeholder for a value that holds binary data.
pub open spec fn marks_binary(s: Seq<char>) -> bool {
    contains_text(s, "Binary data"@) || contains_text(s, "(Binary"@)
}

/// The texts among the items of an array, in order; other items are skipped.
pub open spec fn array_texts(items: Seq<JsonValue>) -> Seq<Seq<char>>
    decreases items.len(),
{
    if items.len() == 0 {
        Seq::empty()
    } else {
        let earlier = array_texts(items.drop_last());
        match items.last() {
            JsonValue::String(s) => earlier.push(s@),
            _ => earlier,
        }
    }
}

/// What a tag's value becomes in a report. Location keys and binary
/// placeholders are dropped (`Null`); quotes are taken out of texts; an array
/// becomes its texts joined by `", "`, or is dropped when it holds no text;
/// any other value stays as it is.
pub open spec fn normalize_view(key: Seq<char>, value: JsonView) -> JsonView {
    if is_location_key(key) {
        JsonView::Null
    } else {
        match value {
            JsonView::Str(s) => if marks_binary(s) {
                JsonView::Null
            } else {
                JsonView::Str(remove_char(s, '"'))
            },
            JsonView::Array(items) => {
                let texts = array_texts(items);
                if texts.len() == 0 {
                    JsonView::Null
                } else {
                    JsonView::Str(join_texts(texts, ", "@))
                }
            },
            _ => value,
        }
    }
}

/// The texts among the items of an array, in order.
fn texts_in(items: &Vec<JsonValue>) -> (r: Vec<String>)
    ensures
        texts_of(r@) == array_texts(items@),
{
    let mut out: Vec<String> = Vec::new();
    let n = items.len();
    let mut i: usize = 0;
    while i < n
        invariant
            n == items@.len(),
            i <= n,
            texts_of(out@) == array_texts(items@.take(i as int)),
        decreases n - i,
    {
        let ghost next = items@.take(i + 1);
        assert(next.drop_last() =~= items@.take(i as int));
        assert(next.last() == items@[i as int]);
        match &items[i] {
            JsonValue::String(s) => {
                out.push(s.clone());
                assert(texts_of(out@) =~= array_texts(next));
            },
            _ => {},
        }
        i = i + 1;
    }
    assert(items@.take(n as int) =~= items@);
    out
}

/// Normalizes the value of the tag `key` for a report: `Null` means that the
/// tag is left out.
pub fn normalize_value(key: &str, value: JsonValue) -> (r: JsonValue)
    ensures
        r@ == normalize_view(key@, value@),
{
    if same_text(key, "SourceFile") || same_text(key, "Directory") || same_text(key, "FileName") {
        return JsonValue::Null;
    }
    match value {
        JsonValue::String(s) => {
            let chars = chars_of(s.as_str());
            let data_marker = chars_of("Binary data");
            let open_marker = chars_of("(Binary");
            if contains_chars(&chars, &data_marker) || contains_chars(&chars, &open_marker) {
                return JsonValue::Null;
            }
            JsonValue::String(without_char(s.as_str(), '"'))
        },
        JsonValue::Array(items) => {
            if items.len() == 0 {
                return JsonValue::Null;
            }
            let texts = texts_in(&items);
            if texts.len() == 0 {
                JsonValue::Null
            } else {
                JsonValue::String(join(&texts, ", "))
            }
        },
        other => other,
    }
}

/// The text after the first `:` of a key, if it has one.
pub open spec fn text_after_colon(key: Seq<char>) -> Option<Seq<char>>
    decreases key.len(),
{
    if key.len() == 0 {
        None
    } else if key[0] == ':' {
        Some(key.drop_first())
    } else {
        text_after_colon(key.drop_first())
    }
}

/// The tag name of a key: the key without a group prefix up to its first `:`.
pub open spec fn tag_name(key: Seq<char>) -> Seq<char> {
    match text_after_colon(key) {
        Some(rest) => rest,
        None => key,
    }
}

/// Returns the tag name of a key: the key without a group prefix up to its
/// first `:`.
pub fn strip_group(key: &str) -> (r: String)
    ensures
        r@ == tag_name(key@),
{
    let chars = chars_of(key);
    let n = chars.len();
    let mut i: usize = 0;
    assert(key@.subrange(0, n as int) =~= key@);
    while i < n && chars[i] != ':'
        invariant
            n == chars@.len(),
            chars@ == key@,
            i <= n,
            text_after_colon(key@) == text_after_colon(key@.subrange(i as int, n as int)),
        decreases n - i,
    {
        assert(key@.subrange(i as int, n as int).drop_first() =~= key@.subrange(i + 1, n as int));
        i = i + 1;
    }
    if i < n {
        assert(key@.subrange(i as int, n as int).drop_first() =~= key@.subrange(i + 1, n as int));
        let mut rest: Vec<char> = Vec::new();
        let mut j: usize = i + 1;
        while j < n
            invariant
                n == chars@.len(),
                chars@ == key@,
                i < n,
                i + 1 <= j <= n,
                rest@ == key@.subrange(i + 1, j as int),
            decreases n - j,
        {
            rest.push(chars[j]);
            assert(key@.subrange(i + 1, j + 1) =~= key@.subrange(i + 1, j as int).push(key@[j as int]));
            j = j + 1;
        }
        string_of(&rest)
    } else {
        string_of(&chars)
    }
}

/// The report that a list of tags gives: each tag under its name without group
/// prefix, with its normalized value; dropped values leave no entry, and a
/// later tag overrides an earlier one of the same name.
pub open spec fn normalized_tags(list: Seq<(Seq<char>, JsonView)>) -> Map<Seq<char>, JsonView>
    decreases list.len(),
{
    if list.len() == 0 {
        Map::empty()
    } else {
        let earlier = normalized_tags(list.drop_last());
        let key = list.last().0;
        let value = normalize_view(key, list.last().1);
        if value is Null {
            earlier
        } else {
            earlier.insert(tag_name(key), value)
        }
    }
}

/// Normalizes every tag that ExifTool reported, in order.
pub fn normalize_metadata(metadata: JsonObject) -> (r: JsonObject)
    ensures
        r@ == normalized_tags(metadata.members()),
{
    let ghost all = metadata.members();
    let entries = metadata.into_entries();
    let mut cleaned = JsonObject::new();
    for entry in it: entries
        invariant
            member_views(it.seq()) == all,
            cleaned@ == normalized_tags(all.take(it.index() as int)),
    {
        let (key, value) = entry;
        let ghost index = it.index();
        let ghost next = all.take(index + 1);
        assert(next.drop_last() =~= all.take(index as int));
        assert(next.last() == (key@, value@));
        let normalized = normalize_value(key.as_str(), value);
        match normalized {
            JsonValue::Null => {},
            other => {
                let name = strip_group(key.as_str());
                cleaned.insert(name, other);
            },
        }
    }
    assert(all.take(all.len() as int) =~= all);
    cleaned
}

/// The tag set in ExifTool's JSON report of one file: the object that stands
/// first in the report's top-level array, if there is one.
pub open spec fn first_report_object(report: Option<JsonValue>) -> Option<JsonObject> {
    match report {
        Some(JsonValue::Array(items)) => if items@.len() > 0 {
            match items@[0] {
                JsonValue::Object(o) => Some(o),
                _ => None,
            }
        } else {
            None
        },
        _ => None,
    }
}

/// Takes the tags of the first file out of ExifTool's JSON report; a report
/// that could not be read (`None`) or has no such object gives no tags.
pub fn tags_of_report(report: Option<JsonValue>) -> (r: JsonObject)
    ensures
        match first_report_object(report) {
            Some(o) => r == o,
            None => r.members().len() == 0,
        },
{
    match report {
        Some(JsonValue::Array(items)) => {
            let mut items = items;
            if items.len() > 0 {
                match items.remove(0) {
                    JsonValue::Object(o) => o,
                    _ => JsonObject::new(),
                }
            } else {
                JsonObject::new()
            }
        },
        _ => JsonObject::new(),
    }
}

/// A report never carries a `Null` value: dropped values leave no entry.
pub proof fn lemma_report_has_no_null(list: Seq<(Seq<char>, JsonView)>, name: Seq<char>)
    requires
        normalized_tags(list).dom().contains(name),
    ensures
        !(normalized_tags(list)[name] is Null),
    decreases list.len(),
{
    if list.len() > 0 {
        let key = list.last().0;
        let value = normalize_view(key, list.last().1);
        if value is Null || tag_name(key) != name {
            lemma_report_has_no_null(list.drop_last(), name);
        }
    }
}

/// The keys that name where the file lay (`SourceFile`, `Directory`,
/// `FileName`) add nothing to a report, wherever they stand.
pub proof fn lemma_location_keys_ignored(
    list: Seq<(Seq<char>, JsonView)>,
    key: Seq<char>,
    value: JsonView,
)
    requires
        is_location_key(key),
    ensures
        normalized_tags(list.push((key, value))) == normalized_tags(list),
{
    assert(list.push((key, value)).drop_last() =~= list);
}

/// A text value is reported without any double quote.
pub proof fn lemma_reported_text_has_no_quote(key: Seq<char>, s: Seq<char>)
    requires
        normalize_view(key, JsonView::Str(s)) matches JsonView::Str(t),
    ensures
        normalize_view(key, JsonView::Str(s)) matches JsonView::Str(t) && !t.contains('"'),
{
    broadcast use vstd::seq_lib::group_filter_ensures;

    let t = remove_char(s, '"');
    if t.contains('"') {
        let i = choose|i: int| 0 <= i < t.len() && t[i] == '"';
        assert(t[i] != '"');
    }
}

/// The tag that comes later in ExifTool's report decides the value under its
/// name, unless its own value is dropped.
pub proof fn lemma_later_tag_wins(list: Seq<(Seq<char>, JsonView)>, key: Seq<char>, value: JsonView)
    requires
        !(normalize_view(key, value) is Null),
    ensures
        normalized_tags(list.push((key, value)))[tag_name(key)] == normalize_view(key, value),
        normalized_tags(list.push((key, value))).dom().contains(tag_name(key)),
{
    assert(list.push((key, value)).drop_last() =~= list);
}

/// The report that a parsed ExifTool document gives: the normalized tags of
/// the object that stands first in its top-level array, or no tags.
pub open spec fn document_tags(document: Option<JsonView>) -> Map<Seq<char>, JsonView> {
    match document {
        Some(JsonView::Array(items)) => if items.len() > 0 && items[0] is Object {
            normalized_tags(items[0]->Object_0.members())
        } else {
            Map::empty()
        },
        _ => Map::empty(),
    }
}

/// Reads ExifTool's JSON output (`exiftool -j`) and gives the normalized tags
/// of the first file; output that is not a JSON document gives no tags.
pub fn report_tags(stdout: &[u8]) -> (r: JsonObject)
    ensures
        r@ == document_tags(json_document(utf8_lossy(stdout@))),
{
    let text = decode_utf8_lossy(stdout);
    let report = parse_document(text.as_str());
    let tags = tags_of_report(report);
    assert(tags.members().len() == 0 ==> tags.members() =~= Seq::<(Seq<char>, JsonView)>::empty());
    normalize_metadata(tags)
}

/// Taking a character out of a text that does not hold it leaves the text as
/// it is.
proof fn lemma_remove_absent_char(s: Seq<char>, c: char)
    requires
        !s.contains(c),
    ensures
        remove_char(s, c) == s,
    decreases s.len(),
{
    reveal(Seq::filter);
    if s.len() > 0 {
        let rest = s.drop_last();
        assert(!rest.contains(c)) by {
            if rest.contains(c) {
                let i = choose|i: int| 0 <= i < rest.len() && rest[i] == c;
                assert(s[i] == c);
            }
        }
        lemma_remove_absent_char(rest, c);
        assert(s[s.len() - 1] != c);
        assert(rest.push(s.last()) =~= s);
    }
}

/// Taking out the double quotes is filtering on "not a double quote".
proof fn lemma_remove_quote_is_filter(s: Seq<char>)
    ensures
        remove_char(s, '"') == s.filter(|c: char| c != '"'),
    decreases s.len(),
{
    reveal(Seq::filter);
    if s.len() > 0 {
        lemma_remove_quote_is_filter(s.drop_last());
    }
}

/// A text that is neither under a location key nor a binary placeholder is
/// reported with exactly its double quotes taken out: every other character,
/// an apostrophe included, stays, in order. A text without double quotes is
/// reported as it is.
pub proof fn lemma_text_loses_only_double_quotes(key: Seq<char>, s: Seq<char>)
    requires
        !is_location_key(key),
        !marks_binary(s),
    ensures
        normalize_view(key, JsonView::Str(s)) == JsonView::Str(s.filter(|c: char| c != '"')),
        !s.contains('"') ==> normalize_view(key, JsonView::Str(s)) == JsonView::Str(s),
{
    lemma_remove_quote_is_filter(s);
    if !s.contains('"') {
        lemma_remove_absent_char(s, '"');
    }
}

/// Whether a JSON value is a text.
pub open spec fn is_text(v: JsonValue) -> bool {
    v is String
}

/// The characters of a JSON text.
pub open spec fn text_chars(v: JsonValue) -> Seq<char> {
    match v {
        JsonValue::String(s) => s@,
        _ => Seq::empty(),
    }
}

/// The texts of an array are all of its text items, in order: one for each
/// text item, none for any other item.
pub proof fn lemma_array_texts_are_the_text_items(items: Seq<JsonValue>)
    ensures
        array_texts(items) == items.filter(|v: JsonValue| is_text(v)).map_values(
            |v: JsonValue| text_chars(v),
        ),
        array_texts(items).len() == items.filter(|v: JsonValue| is_text(v)).len(),
    decreases items.len(),
{
    reveal(Seq::filter);
    if items.len() > 0 {
        lemma_array_texts_are_the_text_items(items.drop_last());
        let rest = items.drop_last().filter(|v: JsonValue| is_text(v));
        if is_text(items.last()) {
            assert(rest.push(items.last()).map_values(|v: JsonValue| text_chars(v))
                =~= rest.map_values(|v: JsonValue| text_chars(v)).push(text_chars(items.last())));
        }
    } else {
        assert(items.filter(|v: JsonValue| is_text(v)) =~= Seq::<JsonValue>::empty());
    }
}

/// Appending a text item to an array appends its text to the array's texts;
/// appending any other item leaves them as they are.
pub proof fn lemma_array_texts_push(items: Seq<JsonValue>, item: JsonValue)
    ensures
        is_text(item) ==> array_texts(items.push(item)) == array_texts(items).push(text_chars(item)),
        !is_text(item) ==> array_texts(items.push(item)) == array_texts(items),
{
    assert(items.push(item).drop_last() =~= items);
}

} // verus!
