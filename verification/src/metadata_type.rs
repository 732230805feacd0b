use vstd::prelude::*;
use crate::text::{ascii_lowercase, lowercase, same_text, unicode_lowercase};

verus! {

/// A metadata group that a request can be narrowed to.
#[derive(Debug, Clone, Copy, PartialEq, Eq, Structural)]
pub enum MetadataType {
    All,
    Exif,
    Iptc,
    Xmp,
    MakerNotes,
    Gps,
    C2pa,
    Jumbf,
    Png,
}

impl MetadataType {
    /// The group prefix that a tag name gets in write arguments.
    pub open spec fn prefix_spec(self) -> Seq<char> {
        match self {
            MetadataType::All => ""@,
            MetadataType::Exif => "EXIF:"@,
            MetadataType::Iptc => "IPTC:"@,
            MetadataType::Xmp => "XMP:"@,
            MetadataType::MakerNotes => "MakerNotes:"@,
            MetadataType::Gps => "GPS:"@,
            MetadataType::C2pa => "C2PA:"@,
            MetadataType::Jumbf => "JUMBF:"@,
            MetadataType::Png => "PNG:"@,
        }
    }

    /// Returns the prefix that ExifTool expects before a tag name of this group.
    pub fn to_write_prefix(&self) -> (r: &'static str)
        ensures
            r@ == self.prefix_spec(),
    {
        match self {
            MetadataType::All => "",
            MetadataType::Exif => "EXIF:",
            MetadataType::Iptc => "IPTC:",
            MetadataType::Xmp => "XMP:",
            MetadataType::MakerNotes => "MakerNotes:",
            MetadataType::Gps => "GPS:",
            MetadataType::C2pa => "C2PA:",
            MetadataType::Jumbf => "JUMBF:",
            MetadataType::Png => "PNG:",
        }
    }
}

impl Default for MetadataType {
    /// Requests cover every group unless they name one.
    fn default() -> (r: Self)
        ensures
            r == MetadataType::All,
    {
        MetadataType::All
    }
}

/// The group that a lowercased `type` parameter names: one of the group
/// keywords (`maker` and `mn` also name the maker notes); anything else,
/// the empty text included, means every group.
pub open spec fn type_for_lowercase(s: Seq<char>) -> MetadataType {
    if s == "exif"@ {
        MetadataType::Exif
    } else if s == "iptc"@ {
        MetadataType::Iptc
    } else if s == "xmp"@ {
        MetadataType::Xmp
    } else if s == "makernotes"@ || s == "maker"@ || s == "mn"@ {
        MetadataType::MakerNotes
    } else if s == "gps"@ {
        MetadataType::Gps
    } else if s == "c2pa"@ {
        MetadataType::C2pa
    } else if s == "jumbf"@ {
        MetadataType::Jumbf
    } else if s == "png"@ {
        MetadataType::Png
    } else {
        MetadataType::All
    }
}

impl MetadataType {
    /// The keyword under which the group is advertised and requested.
    pub open spec fn keyword_spec(self) -> Seq<char> {
        match self {
            MetadataType::All => "all"@,
            MetadataType::Exif => "exif"@,
            MetadataType::Iptc => "iptc"@,
            MetadataType::Xmp => "xmp"@,
            MetadataType::MakerNotes => "makernotes"@,
            MetadataType::Gps => "gps"@,
            MetadataType::C2pa => "c2pa"@,
            MetadataType::Jumbf => "jumbf"@,
            MetadataType::Png => "png"@,
        }
    }

    /// The ExifTool option that reads every tag of the group.
    pub open spec fn read_selector(self) -> Seq<char> {
        match self {
            MetadataType::All => "-All"@,
            MetadataType::Exif => "-EXIF:All"@,
            MetadataType::Iptc => "-IPTC:All"@,
            MetadataType::Xmp => "-XMP:All"@,
            MetadataType::MakerNotes => "-MakerNotes:All"@,
            MetadataType::Gps => "-GPS:All"@,
            MetadataType::C2pa => "-C2PA:All"@,
            MetadataType::Jumbf => "-JUMBF:All"@,
            MetadataType::Png => "-PNG:All"@,
        }
    }

    /// The ExifTool option that deletes every tag of the group.
    pub open spec fn clear_selector(self) -> Seq<char> {
        match self {
            MetadataType::All => "-All="@,
            MetadataType::Exif => "-EXIF:All="@,
            MetadataType::Iptc => "-IPTC:All="@,
            MetadataType::Xmp => "-XMP:All="@,
            MetadataType::MakerNotes => "-MakerNotes:All="@,
            MetadataType::Gps => "-GPS:All="@,
            MetadataType::C2pa => "-C2PA:All="@,
            MetadataType::Jumbf => "-JUMBF:All="@,
            MetadataType::Png => "-PNG:All="@,
        }
    }

    /// The start of an ExifTool option that deletes one tag of the group.
    pub open spec fn deletion_head(self) -> Seq<char> {
        match self {
            MetadataType::All => "-"@,
            MetadataType::Exif => "-EXIF:"@,
            MetadataType::Iptc => "-IPTC:"@,
            MetadataType::Xmp => "-XMP:"@,
            MetadataType::MakerNotes => "-MakerNotes:"@,
            MetadataType::Gps => "-GPS:"@,
            MetadataType::C2pa => "-C2PA:"@,
            MetadataType::Jumbf => "-JUMBF:"@,
            MetadataType::Png => "-PNG:"@,
        }
    }

    /// The ExifTool option that deletes the tag `tag` of the group.
    pub open spec fn tag_deletion(self, tag: Seq<char>) -> Seq<char> {
        self.deletion_head() + tag + "="@
    }

    /// The name under which a report gives the group.
    pub open spec fn name_spec(self) -> Seq<char> {
        match self {
            MetadataType::All => "All"@,
            MetadataType::Exif => "Exif"@,
            MetadataType::Iptc => "Iptc"@,
            MetadataType::Xmp => "Xmp"@,
            MetadataType::MakerNotes => "MakerNotes"@,
            MetadataType::Gps => "Gps"@,
            MetadataType::C2pa => "C2pa"@,
            MetadataType::Jumbf => "Jumbf"@,
            MetadataType::Png => "Png"@,
        }
    }

    /// Returns the name under which a report gives the group.
    pub fn name(&self) -> (r: &'static str)
        ensures
            r@ == self.name_spec(),
    {
        match self {
            MetadataType::All => "All",
            MetadataType::Exif => "Exif",
            MetadataType::Iptc => "Iptc",
            MetadataType::Xmp => "Xmp",
            MetadataType::MakerNotes => "MakerNotes",
            MetadataType::Gps => "Gps",
            MetadataType::C2pa => "C2pa",
            MetadataType::Jumbf => "Jumbf",
            MetadataType::Png => "Png",
        }
    }

    /// Returns the keyword of the group.
    pub fn keyword(&self) -> (r: &'static str)
        ensures
            r@ == self.keyword_spec(),
    {
        match self {
            MetadataType::All => "all",
            MetadataType::Exif => "exif",
            MetadataType::Iptc => "iptc",
            MetadataType::Xmp => "xmp",
            MetadataType::MakerNotes => "makernotes",
            MetadataType::Gps => "gps",
            MetadataType::C2pa => "c2pa",
            MetadataType::Jumbf => "jumbf",
            MetadataType::Png => "png",
        }
    }

    /// Every group, in the order in which the service advertises them.
    pub fn all_types() -> (r: Vec<MetadataType>)
        ensures
            r@ == seq![
                MetadataType::All,
                MetadataType::Exif,
                MetadataType::Iptc,
                MetadataType::Xmp,
                MetadataType::MakerNotes,
                MetadataType::Gps,
                MetadataType::C2pa,
                MetadataType::Jumbf,
                MetadataType::Png,
            ],
    {
        let mut v: Vec<MetadataType> = Vec::new();
        v.push(MetadataType::All);
        v.push(MetadataType::Exif);
        v.push(MetadataType::Iptc);
        v.push(MetadataType::Xmp);
        v.push(MetadataType::MakerNotes);
        v.push(MetadataType::Gps);
        v.push(MetadataType::C2pa);
        v.push(MetadataType::Jumbf);
        v.push(MetadataType::Png);
        v
    }

    /// The group that an already lowercased `type` parameter names.
    pub fn from_lowercase(s: &str) -> (r: MetadataType)
        ensures
            r == type_for_lowercase(s@),
    {
        if same_text(s, "exif") {
            MetadataType::Exif
        } else if same_text(s, "iptc") {
            MetadataType::Iptc
        } else if same_text(s, "xmp") {
            MetadataType::Xmp
        } else if same_text(s, "makernotes") || same_text(s, "maker") || same_text(s, "mn") {
            MetadataType::MakerNotes
        } else if same_text(s, "gps") {
            MetadataType::Gps
        } else if same_text(s, "c2pa") {
            MetadataType::C2pa
        } else if same_text(s, "jumbf") {
            MetadataType::Jumbf
        } else if same_text(s, "png") {
            MetadataType::Png
        } else {
            MetadataType::All
        }
    }

    /// The ExifTool options that read the group.
    pub fn to_read_args(&self) -> (r: Vec<String>)
        ensures
            r@.len() == 1,
            r@[0]@ == self.read_selector(),
    {
        let arg = match self {
            MetadataType::All => String::from_str("-All"),
            MetadataType::Exif => String::from_str("-EXIF:All"),
            MetadataType::Iptc => String::from_str("-IPTC:All"),
            MetadataType::Xmp => String::from_str("-XMP:All"),
            MetadataType::MakerNotes => String::from_str("-MakerNotes:All"),
            MetadataType::Gps => String::from_str("-GPS:All"),
            MetadataType::C2pa => String::from_str("-C2PA:All"),
            MetadataType::Jumbf => String::from_str("-JUMBF:All"),
            MetadataType::Png => String::from_str("-PNG:All"),
        };
        let mut args: Vec<String> = Vec::new();
        args.push(arg);
        args
    }

    /// The ExifTool option that writes `value` into the tag `name` of the group.
    pub open spec fn tag_assignment(self, name: Seq<char>, value: Seq<char>) -> Seq<char> {
        "-"@ + self.prefix_spec() + name + "="@ + value
    }

    /// Returns the ExifTool option that writes `value` into the tag `name` of
    /// the group.
    pub fn to_write_arg(&self, name: &str, value: &str) -> (r: String)
        ensures
            r@ == self.tag_assignment(name@, value@),
    {
        let prefix = self.to_write_prefix();
        let mut arg = String::from_str("-");
        if !prefix.is_empty() {
            arg.append(prefix);
        }
        arg.append(name);
        arg.append("=");
        arg.append(value);
        proof {
            if prefix@.len() == 0 {
                assert(prefix@ =~= Seq::<char>::empty());
            }
            assert(arg@ =~= self.tag_assignment(name@, value@));
        }
        arg
    }

    fn to_deletion_head(&self) -> (r: &'static str)
        ensures
            r@ == self.deletion_head(),
    {
        match self {
            MetadataType::All => "-",
            MetadataType::Exif => "-EXIF:",
            MetadataType::Iptc => "-IPTC:",
            MetadataType::Xmp => "-XMP:",
            MetadataType::MakerNotes => "-MakerNotes:",
            MetadataType::Gps => "-GPS:",
            MetadataType::C2pa => "-C2PA:",
            MetadataType::Jumbf => "-JUMBF:",
            MetadataType::Png => "-PNG:",
        }
    }

    /// The ExifTool options that delete the named tags of the group, one per
    /// tag and in the given order, or every tag of the group when no tags are
    /// named.
    pub fn to_delete_args(&self, tags: &Option<Vec<String>>) -> (r: Vec<String>)
        ensures
            match tags {
                Some(list) => {
                    &&& r@.len() == list@.len()
                    &&& forall|i: int| 0 <= i < list@.len() ==> #[trigger] r@[i]@ == self.tag_deletion(list@[i]@)
                },
                None => r@.len() == 1 && r@[0]@ == self.clear_selector(),
            },
    {
        let mut args: Vec<String> = Vec::new();
        match tags {
            Some(list) => {
                let head = self.to_deletion_head();
                let n = list.len();
                let mut i: usize = 0;
                while i < n
                    invariant
                        n == list@.len(),
                        i <= n,
                        head@ == self.deletion_head(),
                        args@.len() == i,
                        forall|j: int| 0 <= j < i ==> #[trigger] args@[j]@ == self.tag_deletion(list@[j]@),
                    decreases n - i,
                {
                    let mut arg = String::from_str(head);
                    arg.append(list[i].as_str());
                    arg.append("=");
                    args.push(arg);
                    i = i + 1;
                }
            },
            None => {
                let arg = match self {
                    MetadataType::All => String::from_str("-All="),
                    MetadataType::Exif => String::from_str("-EXIF:All="),
                    MetadataType::Iptc => String::from_str("-IPTC:All="),
                    MetadataType::Xmp => String::from_str("-XMP:All="),
                    MetadataType::MakerNotes => String::from_str("-MakerNotes:All="),
                    MetadataType::Gps => String::from_str("-GPS:All="),
                    MetadataType::C2pa => String::from_str("-C2PA:All="),
                    MetadataType::Jumbf => String::from_str("-JUMBF:All="),
                    MetadataType::Png => String::from_str("-PNG:All="),
                };
                args.push(arg);
            },
        }
        args
    }
}

/// The group that a `type` parameter names: its Unicode lowercase form is
/// looked up among the group keywords.
pub open spec fn type_for_parameter(s: Seq<char>) -> MetadataType {
    type_for_lowercase(unicode_lowercase(s))
}

impl<'a> From<&'a str> for MetadataType {
    fn from(s: &'a str) -> (r: MetadataType)
        ensures
            vstd::utf8::is_ascii_chars(s@) ==> r == type_for_lowercase(ascii_lowercase(s@)),
    {
        let lower = lowercase(s);
        MetadataType::from_lowercase(lower.as_str())
    }
}

impl<'a> vstd::std_specs::convert::FromSpecImpl<&'a str> for MetadataType {
    open spec fn obeys_from_spec() -> bool {
        true
    }

    open spec fn from_spec(s: &'a str) -> MetadataType {
        type_for_parameter(s@)
    }
}

/// Every group's keyword names that group again, so each advertised keyword
/// selects its own group and no two groups share a keyword.
pub proof fn lemma_keyword_names_its_type(t: MetadataType)
    ensures
        type_for_lowercase(t.keyword_spec()) == t,
{
    reveal_strlit("all");
    reveal_strlit("exif");
    reveal_strlit("iptc");
    reveal_strlit("xmp");
    reveal_strlit("makernotes");
    reveal_strlit("maker");
    reveal_strlit("mn");
    reveal_strlit("gps");
    reveal_strlit("c2pa");
    reveal_strlit("jumbf");
    reveal_strlit("png");
    let k = t.keyword_spec();
    assert(k == "exif"@ ==> t == MetadataType::Exif) by {
        if k == "exif"@ { assert(k.len() == 4 && k[0] == 'e' && k[1] == 'x'); }
    }
    assert(k == "iptc"@ ==> t == MetadataType::Iptc) by {
        if k == "iptc"@ { assert(k.len() == 4 && k[0] == 'i'); }
    }
    assert(k == "xmp"@ ==> t == MetadataType::Xmp) by {
        if k == "xmp"@ { assert(k.len() == 3 && k[0] == 'x'); }
    }
    assert((k == "makernotes"@ || k == "maker"@ || k == "mn"@) ==> t == MetadataType::MakerNotes) by {
        if k == "makernotes"@ { assert(k.len() == 10); }
        if k == "maker"@ { assert(k.len() == 5 && k[0] == 'm'); }
        if k == "mn"@ { assert(k.len() == 2 && k[0] == 'm'); }
    }
    assert(k == "gps"@ ==> t == MetadataType::Gps) by {
        if k == "gps"@ { assert(k.len() == 3 && k[0] == 'g'); }
    }
    assert(k == "c2pa"@ ==> t == MetadataType::C2pa) by {
        if k == "c2pa"@ { assert(k.len() == 4 && k[0] == 'c'); }
    }
    assert(k == "jumbf"@ ==> t == MetadataType::Jumbf) by {
        if k == "jumbf"@ { assert(k.len() == 5 && k[0] == 'j'); }
    }
    assert(k == "png"@ ==> t == MetadataType::Png) by {
        if k == "png"@ { assert(k.len() == 3 && k[0] == 'p'); }
    }
    if t == MetadataType::All {
        assert(k.len() == 3 && k[0] == 'a');
    }
}

/// The read option, the delete-all option and the delete-one-tag option of a
/// group are all built from its write prefix: `-<prefix>All`, `-<prefix>All=`
/// and `-<prefix><tag>=`.
pub proof fn lemma_selectors_follow_prefix(t: MetadataType, tag: Seq<char>)
    ensures
        t.read_selector() == "-"@ + t.prefix_spec() + "All"@,
        t.clear_selector() == t.read_selector() + "="@,
        t.tag_deletion(tag) == "-"@ + t.prefix_spec() + tag + "="@,
{
    reveal_strlit("-");
    reveal_strlit("=");
    reveal_strlit("All");
    match t {
        MetadataType::All => {
            reveal_strlit("");
            reveal_strlit("-All");
            reveal_strlit("-All=");
        },
        MetadataType::Exif => {
            reveal_strlit("EXIF:");
            reveal_strlit("-EXIF:");
            reveal_strlit("-EXIF:All");
            reveal_strlit("-EXIF:All=");
        },
        MetadataType::Iptc => {
            reveal_strlit("IPTC:");
            reveal_strlit("-IPTC:");
            reveal_strlit("-IPTC:All");
            reveal_strlit("-IPTC:All=");
        },
        MetadataType::Xmp => {
            reveal_strlit("XMP:");
            reveal_strlit("-XMP:");
            reveal_strlit("-XMP:All");
            reveal_strlit("-XMP:All=");
        },
        MetadataType::MakerNotes => {
            reveal_strlit("MakerNotes:");
            reveal_strlit("-MakerNotes:");
            reveal_strlit("-MakerNotes:All");
            reveal_strlit("-MakerNotes:All=");
        },
        MetadataType::Gps => {
            reveal_strlit("GPS:");
            reveal_strlit("-GPS:");
            reveal_strlit("-GPS:All");
            reveal_strlit("-GPS:All=");
        },
        MetadataType::C2pa => {
            reveal_strlit("C2PA:");
            reveal_strlit("-C2PA:");
            reveal_strlit("-C2PA:All");
            reveal_strlit("-C2PA:All=");
        },
        MetadataType::Jumbf => {
            reveal_strlit("JUMBF:");
            reveal_strlit("-JUMBF:");
            reveal_strlit("-JUMBF:All");
            reveal_strlit("-JUMBF:All=");
        },
        MetadataType::Png => {
            reveal_strlit("PNG:");
            reveal_strlit("-PNG:");
            reveal_strlit("-PNG:All");
            reveal_strlit("-PNG:All=");
        },
    }
    assert(t.read_selector() =~= "-"@ + t.prefix_spec() + "All"@);
    assert(t.clear_selector() =~= t.read_selector() + "="@);
    assert(t.deletion_head() =~= "-"@ + t.prefix_spec());
    assert(t.tag_deletion(tag) =~= "-"@ + t.prefix_spec() + tag + "="@);
}

/// Each keyword is ASCII text already in lower case, so a `type` parameter
/// that spells a keyword, in any mix of ASCII capital and small letters,
/// selects its group.
pub proof fn lemma_keyword_is_ascii_lowercase(t: MetadataType)
    ensures
        vstd::utf8::is_ascii_chars(t.keyword_spec()),
        ascii_lowercase(t.keyword_spec()) == t.keyword_spec(),
        type_for_lowercase(ascii_lowercase(t.keyword_spec())) == t,
{
    reveal_strlit("all");
    reveal_strlit("exif");
    reveal_strlit("iptc");
    reveal_strlit("xmp");
    reveal_strlit("makernotes");
    reveal_strlit("gps");
    reveal_strlit("c2pa");
    reveal_strlit("jumbf");
    reveal_strlit("png");
    let k = t.keyword_spec();
    assert(ascii_lowercase(k) =~= k);
    lemma_keyword_names_its_type(t);
}

/// The option that writes value `v` into tag `n` of group `t` is the option
/// that deletes that tag followed by `v` itself: `-<prefix><n>=<v>`, with the
/// value carried as it is, nothing added around or inside it.
pub proof fn lemma_write_option_carries_value(t: MetadataType, n: Seq<char>, v: Seq<char>)
    ensures
        t.tag_assignment(n, v) == t.tag_deletion(n) + v,
        t.tag_assignment(n, v) == "-"@ + t.prefix_spec() + n + "="@ + v,
        t.tag_assignment(n, v).len() == t.prefix_spec().len() + n.len() + v.len() + 2,
        t.tag_assignment(n, v).subrange(
            t.tag_assignment(n, v).len() - v.len(),
            t.tag_assignment(n, v).len() as int,
        ) == v,
{
    lemma_selectors_follow_prefix(t, n);
    reveal_strlit("-");
    reveal_strlit("=");
    let w = t.tag_assignment(n, v);
    assert(w =~= t.tag_deletion(n) + v);
    assert(w.subrange(w.len() - v.len(), w.len() as int) =~= v);
}

} // verus!
