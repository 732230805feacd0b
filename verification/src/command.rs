use vstd::prelude::*;
use crate::metadata_type::{MetadataType, lemma_selectors_follow_prefix};
use crate::text::texts_of;

verus! {

/// The options that delete the named tags of a group, or the whole group when
/// no tags are named.
pub open spec fn deletion_options(t: MetadataType, tags: Option<Seq<Seq<char>>>) -> Seq<Seq<char>> {
    match tags {
        Some(list) => list.map_values(|tag: Seq<char>| t.tag_deletion(tag)),
        None => seq![t.clear_selector()],
    }
}

/// The options that write each tag value into a group, in the given order.
pub open spec fn assignment_options(t: MetadataType, pairs: Seq<(String, String)>) -> Seq<Seq<char>> {
    pairs.map_values(|p: (String, String)| t.tag_assignment(p.0@, p.1@))
}

/// The tags named by an optional list, as texts.
pub open spec fn tag_texts(tags: Option<Vec<String>>) -> Option<Seq<Seq<char>>> {
    match tags {
        Some(list) => Some(texts_of(list@)),
        None => None,
    }
}

/// The ExifTool command line that reports the group's tags of a file as JSON.
pub fn read_command(t: MetadataType, file_path: &str) -> (r: Vec<String>)
    ensures
        texts_of(r@) == seq!["-j"@, t.read_selector(), file_path@],
{
    let mut args: Vec<String> = Vec::new();
    args.push(String::from_str("-j"));
    let mut selection = t.to_read_args();
    args.append(&mut selection);
    args.push(String::from_str(file_path));
    assert(texts_of(args@) =~= seq!["-j"@, t.read_selector(), file_path@]);
    args
}

/// The ExifTool command line that writes the tag values into a copy of the
/// input file at `output_path`.
pub fn write_command(
    t: MetadataType,
    tag_values: &Vec<(String, String)>,
    input_path: &str,
    output_path: &str,
) -> (r: Vec<String>)
    ensures
        texts_of(r@) == seq!["-overwrite_original"@] + assignment_options(t, tag_values@) + seq![
            input_path@,
            "-o"@,
            output_path@,
        ],
{
    let mut args: Vec<String> = Vec::new();
    args.push(String::from_str("-overwrite_original"));
    let n = tag_values.len();
    let mut i: usize = 0;
    while i < n
        invariant
            n == tag_values@.len(),
            i <= n,
            texts_of(args@) == seq!["-overwrite_original"@] + assignment_options(
                t,
                tag_values@.take(i as int),
            ),
        decreases n - i,
    {
        let ghost before = texts_of(args@);
        let arg = t.to_write_arg(tag_values[i].0.as_str(), tag_values[i].1.as_str());
        args.push(arg);
        assert(texts_of(args@) =~= before.push(arg@));
        assert(tag_values@.take(i + 1) =~= tag_values@.take(i as int).push(tag_values@[i as int]));
        assert(assignment_options(t, tag_values@.take(i + 1)) =~= assignment_options(
            t,
            tag_values@.take(i as int),
        ).push(t.tag_assignment(tag_values@[i as int].0@, tag_values@[i as int].1@)));
        assert(texts_of(args@) =~= seq!["-overwrite_original"@] + assignment_options(
            t,
            tag_values@.take(i + 1),
        ));
        i = i + 1;
    }
    assert(tag_values@.take(n as int) =~= tag_values@);
    let ghost head = texts_of(args@);
    args.push(String::from_str(input_path));
    args.push(String::from_str("-o"));
    args.push(String::from_str(output_path));
    assert(texts_of(args@) =~= head + seq![input_path@, "-o"@, output_path@]);
    args
}

/// The ExifTool command line that deletes the named tags of the group, or
/// the whole group when no tags are named, from a copy of the input file at
/// `output_path`.
pub fn delete_command(
    t: MetadataType,
    tags: &Option<Vec<String>>,
    input_path: &str,
    output_path: &str,
) -> (r: Vec<String>)
    ensures
        texts_of(r@) == seq!["-overwrite_original"@] + deletion_options(t, tag_texts(*tags)) + seq![
            input_path@,
            "-o"@,
            output_path@,
        ],
{
    let mut args: Vec<String> = Vec::new();
    args.push(String::from_str("-overwrite_original"));
    let mut deletions = t.to_delete_args(tags);
    assert(texts_of(deletions@) =~= deletion_options(t, tag_texts(*tags)));
    args.append(&mut deletions);
    let ghost head = texts_of(args@);
    assert(head =~= seq!["-overwrite_original"@] + deletion_options(t, tag_texts(*tags)));
    args.push(String::from_str(input_path));
    args.push(String::from_str("-o"));
    args.push(String::from_str(output_path));
    assert(texts_of(args@) =~= head + seq![input_path@, "-o"@, output_path@]);
    args
}

/// Deleting a whole group names that group's selector alone,
/// `-<prefix>All=`; deleting named tags names each of them in that group, in
/// order, as `-<prefix><tag>=`.
pub proof fn lemma_deletion_options_stay_in_group(t: MetadataType, tags: Seq<Seq<char>>)
    ensures
        deletion_options(t, None) == seq!["-"@ + t.prefix_spec() + "All="@],
        deletion_options(t, Some(tags)).len() == tags.len(),
        forall|i: int|
            0 <= i < tags.len() ==> #[trigger] deletion_options(t, Some(tags))[i] == "-"@
                + t.prefix_spec() + tags[i] + "="@,
{
    lemma_selectors_follow_prefix(t, Seq::empty());
    reveal_strlit("All=");
    reveal_strlit("All");
    reveal_strlit("=");
    assert("All"@ + "="@ =~= "All="@);
    assert(t.clear_selector() =~= "-"@ + t.prefix_spec() + "All="@);
    assert forall|i: int| 0 <= i < tags.len() implies #[trigger] deletion_options(t, Some(tags))[i]
        == "-"@ + t.prefix_spec() + tags[i] + "="@ by {
        lemma_selectors_follow_prefix(t, tags[i]);
    }
}

} // verus!
