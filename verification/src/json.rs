use vstd::prelude::*;

verus! {

/// `serde_json::Number`, carried through as it is: nothing here looks inside a
/// number.
#[verifier::external_type_specification]
#[verifier::external_body]
pub struct ExNumber(serde_json::Number);

/// A JSON value as ExifTool reports it.
#[derive(Debug, PartialEq)]
pub enum JsonValue {
    Null,
    Bool(bool),
    Number(serde_json::Number),
    String(String),
    Array(Vec<JsonValue>),
    Object(JsonObject),
}

/// A JSON value seen one level deep: texts as their characters, arrays as
/// their items, objects as they are.
pub enum JsonView {
    Null,
    Bool(bool),
    Number(serde_json::Number),
    Str(Seq<char>),
    Array(Seq<JsonValue>),
    Object(JsonObject),
}

impl View for JsonValue {
    type V = JsonView;

    open spec fn view(&self) -> JsonView {
        match self {
            JsonValue::Null => JsonView::Null,
            JsonValue::Bool(b) => JsonView::Bool(*b),
            JsonValue::Number(n) => JsonView::Number(*n),
            JsonValue::String(s) => JsonView::Str(s@),
            JsonValue::Array(items) => JsonView::Array(items@),
            JsonValue::Object(o) => JsonView::Object(*o),
        }
    }
}

/// A JSON object: its members in order, no two with the same name.
#[derive(Debug, PartialEq)]
pub struct JsonObject {
    entries: Vec<(String, JsonValue)>,
}

/// The names and values of a list of members.
pub open spec fn member_views(entries: Seq<(String, JsonValue)>) -> Seq<(Seq<char>, JsonView)> {
    entries.map_values(|e: (String, JsonValue)| (e.0@, e.1@))
}

/// No two members share a name.
pub open spec fn names_distinct(list: Seq<(Seq<char>, JsonView)>) -> bool {
    forall|i: int, j: int|
        0 <= i < list.len() && 0 <= j < list.len() && i != j ==> #[trigger] list[i].0 != #[trigger] list[j].0
}

/// The map from name to value that a list of members sets up, a later member
/// overriding an earlier one of the same name.
pub open spec fn members_map(list: Seq<(Seq<char>, JsonView)>) -> Map<Seq<char>, JsonView>
    decreases list.len(),
{
    if list.len() == 0 {
        Map::empty()
    } else {
        members_map(list.drop_last()).insert(list.last().0, list.last().1)
    }
}

impl JsonObject {
    #[verifier::type_invariant]
    spec fn well_formed(self) -> bool {
        names_distinct(member_views(self.entries@))
    }

    /// The members in order.
    pub closed spec fn members(self) -> Seq<(Seq<char>, JsonView)> {
        member_views(self.entries@)
    }
}

impl View for JsonObject {
    type V = Map<Seq<char>, JsonView>;

    open spec fn view(&self) -> Map<Seq<char>, JsonView> {
        members_map(self.members())
    }
}

/// The members after setting `name` to `value`: an existing member of that
/// name keeps its place and takes the new value; otherwise the member comes
/// last.
pub open spec fn set_member(
    list: Seq<(Seq<char>, JsonView)>,
    name: Seq<char>,
    value: JsonView,
) -> Seq<(Seq<char>, JsonView)> {
    if exists|i: int| 0 <= i < list.len() && #[trigger] list[i].0 == name {
        list.update(choose|i: int| 0 <= i < list.len() && #[trigger] list[i].0 == name, (name, value))
    } else {
        list.push((name, value))
    }
}

/// A name has a value in the map of a list of members exactly when some member
/// carries that name.
pub proof fn lemma_members_map_dom(list: Seq<(Seq<char>, JsonView)>, name: Seq<char>)
    ensures
        members_map(list).dom().finite(),
        members_map(list).dom().contains(name) <==> exists|i: int|
            0 <= i < list.len() && #[trigger] list[i].0 == name,
    decreases list.len(),
{
    if list.len() > 0 {
        let rest = list.drop_last();
        lemma_members_map_dom(rest, name);
        if members_map(list).dom().contains(name) && name != list.last().0 {
            let i = choose|i: int| 0 <= i < rest.len() && #[trigger] rest[i].0 == name;
            assert(list[i].0 == name);
        }
        if exists|i: int| 0 <= i < list.len() && #[trigger] list[i].0 == name {
            let i = choose|i: int| 0 <= i < list.len() && #[trigger] list[i].0 == name;
            if i < list.len() - 1 {
                assert(rest[i].0 == name);
            }
        }
    }
}

/// With distinct names, each member's value is the one its name maps to, and
/// the map has as many names as the list has members.
pub proof fn lemma_members_map_distinct(list: Seq<(Seq<char>, JsonView)>)
    requires
        names_distinct(list),
    ensures
        members_map(list).dom().len() == list.len(),
        forall|i: int| 0 <= i < list.len() ==> members_map(list)[#[trigger] list[i].0] == list[i].1,
    decreases list.len(),
{
    if list.len() > 0 {
        let rest = list.drop_last();
        let last = list.last();
        assert(names_distinct(rest)) by {
            assert forall|i: int, j: int|
                0 <= i < rest.len() && 0 <= j < rest.len() && i != j implies #[trigger] rest[i].0
                != #[trigger] rest[j].0 by {
                assert(list[i].0 != list[j].0);
            }
        }
        lemma_members_map_distinct(rest);
        lemma_members_map_dom(rest, last.0);
        if members_map(rest).dom().contains(last.0) {
            let i = choose|i: int| 0 <= i < rest.len() && #[trigger] rest[i].0 == last.0;
            assert(list[i].0 == list[list.len() - 1].0);
        }
        assert forall|i: int| 0 <= i < list.len() implies members_map(list)[#[trigger] list[i].0]
            == list[i].1 by {
            if i < list.len() - 1 {
                assert(rest[i] == list[i]);
                assert(list[i].0 != list[list.len() - 1].0);
            }
        }
    }
}

/// Setting the value of the member at position `i` sets the value of its name
/// in the map.
pub proof fn lemma_members_map_update(list: Seq<(Seq<char>, JsonView)>, i: int, value: JsonView)
    requires
        names_distinct(list),
        0 <= i < list.len(),
    ensures
        members_map(list.update(i, (list[i].0, value))) == members_map(list).insert(list[i].0, value),
    decreases list.len(),
{
    let name = list[i].0;
    let updated = list.update(i, (name, value));
    let rest = list.drop_last();
    assert(updated.drop_last() =~= if i == list.len() - 1 {
        rest
    } else {
        rest.update(i, (name, value))
    });
    if i == list.len() - 1 {
        assert(members_map(updated) =~= members_map(list).insert(name, value));
    } else {
        assert(names_distinct(rest)) by {
            assert forall|a: int, b: int|
                0 <= a < rest.len() && 0 <= b < rest.len() && a != b implies #[trigger] rest[a].0
                != #[trigger] rest[b].0 by {
                assert(list[a].0 != list[b].0);
            }
        }
        lemma_members_map_update(rest, i, value);
        assert(list.last().0 != name);
        assert(updated.last() == list.last());
        assert(members_map(updated) =~= members_map(list).insert(name, value));
    }
}

impl JsonObject {
    /// An object without members.
    pub fn new() -> (r: JsonObject)
        ensures
            r.members().len() == 0,
            r@ == Map::<Seq<char>, JsonView>::empty(),
    {
        let r = JsonObject { entries: Vec::new() };
        assert(r.members() =~= Seq::<(Seq<char>, JsonView)>::empty());
        r
    }

    /// The number of members.
    pub fn len(&self) -> (r: usize)
        ensures
            r == self.members().len(),
            r == self@.dom().len(),
    {
        proof {
            use_type_invariant(self);
            lemma_members_map_distinct(self.members());
        }
        self.entries.len()
    }

    /// The members, in order.
    pub fn entries(&self) -> (r: &Vec<(String, JsonValue)>)
        ensures
            member_views(r@) == self.members(),
            names_distinct(self.members()),
    {
        proof {
            use_type_invariant(self);
        }
        &self.entries
    }

    /// Gives up the object for its members, in order.
    pub fn into_entries(self) -> (r: Vec<(String, JsonValue)>)
        ensures
            member_views(r@) == self.members(),
            names_distinct(self.members()),
    {
        proof {
            use_type_invariant(&self);
        }
        self.entries
    }

    /// Sets the member `name` to `value`, in place when the object already has
    /// a member of that name, at the end otherwise.
    pub fn insert(&mut self, name: String, value: JsonValue)
        ensures
            final(self).members() == set_member(old(self).members(), name@, value@),
            final(self)@ == old(self)@.insert(name@, value@),
    {
        proof {
            use_type_invariant(&*self);
        }
        let ghost before = self.members();
        let mut entries: Vec<(String, JsonValue)> = Vec::new();
        std::mem::swap(&mut entries, &mut self.entries);
        assert(member_views(entries@) == before);
        let n = entries.len();
        let mut i: usize = 0;
        while i < n && !(entries[i].0 == name)
            invariant
                n == entries@.len(),
                member_views(entries@) == before,
                i <= n,
                forall|j: int| 0 <= j < i ==> #[trigger] before[j].0 != name@,
            decreases n - i,
        {
            i = i + 1;
        }
        let ghost key = name@;
        let ghost val = value@;
        if i < n {
            assert(before[i as int].0 == key);
            assert(forall|j: int| 0 <= j < before.len() && #[trigger] before[j].0 == key ==> j == i);
            entries.set(i, (name, value));
            assert(member_views(entries@) =~= before.update(i as int, (key, val)));
            proof {
                lemma_members_map_update(before, i as int, val);
            }
        } else {
            entries.push((name, value));
            assert(member_views(entries@) =~= before.push((key, val)));
            assert(member_views(entries@).drop_last() =~= before);
        }
        assert(names_distinct(member_views(entries@)));
        self.entries = entries;
    }
}

/// `serde_json::Value`, a parsed JSON document; it only passes from the parser
/// to the conversion into `JsonValue`.
#[verifier::external_type_specification]
#[verifier::external_body]
pub struct ExValue(serde_json::Value);

/// What `serde_json::from_str::<serde_json::Value>` gives for a text: the JSON
/// document it holds, or `None` when the text is not one JSON document.
pub uninterp spec fn json_document(text: Seq<char>) -> Option<JsonView>;

/// Calls `serde_json::from_str::<serde_json::Value>` and converts the document
/// into a `JsonValue`. Claimed: it succeeds or fails depending on the text
/// alone, and the document it yields is named `json_document`; the JSON
/// grammar is left unstated.
#[verifier::external_body]
pub(crate) fn parse_document(text: &str) -> (r: Option<JsonValue>)
    ensures
        r is Some <==> json_document(text@) is Some,
        r matches Some(v) ==> v@ == json_document(text@)->0,
{
    match serde_json::from_str::<serde_json::Value>(text) {
        Ok(value) => Some(from_serde_value(value)),
        Err(_) => None,
    }
}

/// Converts a parsed `serde_json::Value` into a `JsonValue`, variant for
/// variant and member for member (a `serde_json::Map` holds each name once).
/// It is called only by `parse_document`, whose contract speaks of the result.
#[verifier::external_body]
fn from_serde_value(value: serde_json::Value) -> JsonValue {
    match value {
        serde_json::Value::Null => JsonValue::Null,
        serde_json::Value::Bool(b) => JsonValue::Bool(b),
        serde_json::Value::Number(n) => JsonValue::Number(n),
        serde_json::Value::String(s) => JsonValue::String(s),
        serde_json::Value::Array(items) => JsonValue::Array(items.into_iter().map(from_serde_value).collect()),
        serde_json::Value::Object(members) => JsonValue::Object(JsonObject {
            entries: members.into_iter().map(|(name, member)| (name, from_serde_value(member))).collect(),
        }),
    }
}

} // verus!
