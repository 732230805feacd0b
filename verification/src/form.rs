use vstd::prelude::*;
use crate::metadata_type::{MetadataType, type_for_parameter};
use crate::text::{decode_utf8, same_text, texts_of, trim, trim_spec};

verus! {

/// The three operations of the service.
#[derive(Debug, Clone, Copy, PartialEq, Eq, Structural)]
pub enum Operation {
    Read,
    Write,
    Delete,
}

/// What a field of an upload form carries for an operation.
#[derive(Debug, Clone, Copy, PartialEq, Eq, Structural)]
pub enum FieldRole {
    /// The image itself.
    File,
    /// The metadata group to work on.
    Type,
    /// The tag values to write, as a JSON object of strings.
    Metadata,
    /// The tags to delete, as a JSON array of strings.
    Tags,
    /// A field that the operation does not read.
    Ignored,
}

/// The role of a form field with the given name for an operation.
pub open spec fn field_role_spec(op: Operation, name: Seq<char>) -> FieldRole {
    if name == "file"@ {
        FieldRole::File
    } else if name == "type"@ {
        FieldRole::Type
    } else if name == "metadata"@ && op == Operation::Write {
        FieldRole::Metadata
    } else if name == "tags"@ && op == Operation::Delete {
        FieldRole::Tags
    } else {
        FieldRole::Ignored
    }
}

/// Returns the role of a form field with the given name for an operation.
pub fn field_role(op: Operation, name: &str) -> (r: FieldRole)
    ensures
        r == field_role_spec(op, name@),
{
    if same_text(name, "file") {
        FieldRole::File
    } else if same_text(name, "type") {
        FieldRole::Type
    } else if same_text(name, "metadata") && op == Operation::Write {
        FieldRole::Metadata
    } else if same_text(name, "tags") && op == Operation::Delete {
        FieldRole::Tags
    } else {
        FieldRole::Ignored
    }
}

/// What `serde_json::from_str::<Vec<String>>` gives for a text: the strings of
/// a JSON array of strings, or `None` when the text is no such array.
pub uninterp spec fn json_text_list(text: Seq<char>) -> Option<Seq<Seq<char>>>;

/// Calls `serde_json::from_str::<Vec<String>>`. Claimed: it succeeds or fails
/// depending on the text alone, and what it yields is named `json_text_list`;
/// the JSON grammar is left unstated.
#[verifier::external_body]
fn parse_text_list(text: &str) -> (r: Option<Vec<String>>)
    ensures
        r is Some <==> json_text_list(text@) is Some,
        r matches Some(list) ==> texts_of(list@) == json_text_list(text@)->0,
{
    match serde_json::from_str::<Vec<String>>(text) {
        Ok(list) => Some(list),
        Err(_) => None,
    }
}

/// What `serde_json::from_str::<HashMap<String, String>>` gives for a text:
/// the name-to-text map of a JSON object of strings (a later member
/// overriding an earlier one of the same name), or `None` when the text is no
/// such object.
pub uninterp spec fn json_text_map(text: Seq<char>) -> Option<Map<Seq<char>, Seq<char>>>;

/// No two pairs share a name.
pub open spec fn pair_names_distinct(pairs: Seq<(String, String)>) -> bool {
    forall|i: int, j: int|
        0 <= i < pairs.len() && 0 <= j < pairs.len() && i != j ==> #[trigger] pairs[i].0@
            != #[trigger] pairs[j].0@
}

/// The map from name to text that a list of pairs sets up.
pub open spec fn pairs_map(pairs: Seq<(String, String)>) -> Map<Seq<char>, Seq<char>>
    decreases pairs.len(),
{
    if pairs.len() == 0 {
        Map::empty()
    } else {
        pairs_map(pairs.drop_last()).insert(pairs.last().0@, pairs.last().1@)
    }
}

/// Calls `serde_json::from_str::<HashMap<String, String>>` and lists the
/// resulting map's pairs. Claimed: it succeeds or fails depending on the text
/// alone; the map it yields is named `json_text_map`, and the pairs are that
/// map's, each name once. Their order follows the hash map's walk, which
/// changes from process to process, so it is left unstated.
#[verifier::external_body]
fn parse_text_map(text: &str) -> (r: Option<Vec<(String, String)>>)
    ensures
        r is Some <==> json_text_map(text@) is Some,
        r matches Some(pairs) ==> pair_names_distinct(pairs@) && pairs_map(pairs@)
            == json_text_map(text@)->0,
{
    match serde_json::from_str::<std::collections::HashMap<String, String>>(text) {
        Ok(map) => Some(map.into_iter().collect()),
        Err(_) => None,
    }
}

/// What the fields of an upload form have told so far.
pub struct UploadForm {
    /// An image came with the form.
    pub has_file: bool,
    /// The image's file name as the client gave it, or empty.
    pub original_filename: String,
    /// The metadata group to work on.
    pub metadata_type: MetadataType,
    /// The tags to delete, if the form named them.
    pub tags: Option<Vec<String>>,
    /// The tag values to write.
    pub tag_values: Vec<(String, String)>,
}

impl UploadForm {
    /// A form of which no field has been read: no file, no name, every group,
    /// no tags, no values.
    pub fn new() -> (r: UploadForm)
        ensures
            !r.has_file,
            r.original_filename@.len() == 0,
            r.metadata_type == MetadataType::All,
            r.tags is None,
            r.tag_values@.len() == 0,
    {
        UploadForm {
            has_file: false,
            original_filename: String::new(),
            metadata_type: MetadataType::All,
            tags: None,
            tag_values: Vec::new(),
        }
    }

    /// Takes in a file field: the form now has a file, and takes the field's
    /// file name if it gives one.
    pub fn accept_file(&mut self, filename: Option<String>)
        ensures
            final(self).has_file,
            match filename {
                Some(name) => final(self).original_filename@ == name@,
                None => final(self).original_filename == old(self).original_filename,
            },
            final(self).metadata_type == old(self).metadata_type,
            final(self).tags == old(self).tags,
            final(self).tag_values == old(self).tag_values,
    {
        self.has_file = true;
        match filename {
            Some(name) => {
                self.original_filename = name;
            },
            None => {},
        }
    }

    /// Takes in the content of a `type` field: when it is UTF-8, the group it
    /// names once trimmed of white space; otherwise nothing changes.
    pub fn accept_type(&mut self, data: Vec<u8>)
        ensures
            final(self).metadata_type == if vstd::utf8::valid_utf8(data@) {
                type_for_parameter(trim_spec(vstd::utf8::decode_utf8(data@)))
            } else {
                old(self).metadata_type
            },
            final(self).has_file == old(self).has_file,
            final(self).original_filename == old(self).original_filename,
            final(self).tags == old(self).tags,
            final(self).tag_values == old(self).tag_values,
    {
        match decode_utf8(data) {
            Some(text) => {
                let trimmed = trim(text.as_str());
                self.metadata_type = MetadataType::from(trimmed.as_str());
            },
            None => {},
        }
    }

    /// Takes in the content of a `tags` field: when it is UTF-8 holding a JSON
    /// array of strings, those are the tags; otherwise nothing changes.
    pub fn accept_tags(&mut self, data: Vec<u8>)
        ensures
            ({
                let ok = vstd::utf8::valid_utf8(data@) && json_text_list(
                    vstd::utf8::decode_utf8(data@),
                ) is Some;
                &&& ok ==> (final(self).tags matches Some(list) && texts_of(list@) == json_text_list(
                    vstd::utf8::decode_utf8(data@),
                )->0)
                &&& !ok ==> final(self).tags == old(self).tags
            }),
            final(self).has_file == old(self).has_file,
            final(self).original_filename == old(self).original_filename,
            final(self).metadata_type == old(self).metadata_type,
            final(self).tag_values == old(self).tag_values,
    {
        match decode_utf8(data) {
            Some(text) => match parse_text_list(text.as_str()) {
                Some(list) => {
                    self.tags = Some(list);
                },
                None => {},
            },
            None => {},
        }
    }

    /// Takes in the content of a `metadata` field: when it is UTF-8 holding a
    /// JSON object of strings, those are the tag values; otherwise nothing
    /// changes.
    pub fn accept_metadata(&mut self, data: Vec<u8>)
        ensures
            ({
                let ok = vstd::utf8::valid_utf8(data@) && json_text_map(
                    vstd::utf8::decode_utf8(data@),
                ) is Some;
                &&& ok ==> pair_names_distinct(final(self).tag_values@) && pairs_map(
                    final(self).tag_values@,
                ) == json_text_map(vstd::utf8::decode_utf8(data@))->0
                &&& !ok ==> final(self).tag_values == old(self).tag_values
            }),
            final(self).has_file == old(self).has_file,
            final(self).original_filename == old(self).original_filename,
            final(self).metadata_type == old(self).metadata_type,
            final(self).tags == old(self).tags,
    {
        match decode_utf8(data) {
            Some(text) => match parse_text_map(text.as_str()) {
                Some(pairs) => {
                    self.tag_values = pairs;
                },
                None => {},
            },
            None => {},
        }
    }
}

/// Every operation reads a `file` field as the image and a `type` field as the
/// group; a `metadata` field counts for a write alone and a `tags` field for a
/// delete alone.
pub proof fn lemma_field_roles(op: Operation)
    ensures
        field_role_spec(op, "file"@) == FieldRole::File,
        field_role_spec(op, "type"@) == FieldRole::Type,
        field_role_spec(op, "metadata"@) == (if op == Operation::Write {
            FieldRole::Metadata
        } else {
            FieldRole::Ignored
        }),
        field_role_spec(op, "tags"@) == (if op == Operation::Delete {
            FieldRole::Tags
        } else {
            FieldRole::Ignored
        }),
{
    reveal_strlit("file");
    reveal_strlit("type");
    reveal_strlit("metadata");
    reveal_strlit("tags");
    assert("type"@ != "file"@) by {
        assert("type"@[0] != "file"@[0]);
    }
    assert("metadata"@ != "file"@ && "metadata"@ != "type"@) by {
        assert("metadata"@.len() == 8);
    }
    assert("tags"@ != "file"@ && "tags"@ != "type"@ && "tags"@ != "metadata"@) by {
        assert("tags"@[0] == 't' && "tags"@[1] == 'a' && "type"@[1] == 'y');
        assert("tags"@.len() == 4);
    }
}

} // verus!
