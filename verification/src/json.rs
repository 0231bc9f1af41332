//! JSON values as the configuration model sees them.
//!
//! `JsonView` is the mathematical tree: an object is a map from keys to
//! trees. `Json` is the value a program holds. Its object is a list of
//! members in which a later member overrides an earlier one with the same
//! key, so every `Json` denotes exactly one tree and no invariant is needed.
use crate::serde_specs::number_integer;
use vstd::prelude::*;

verus! {

/// The mathematical value of a JSON document.
pub enum JsonView {
    Null,
    Bool(bool),
    Number(serde_json::Number),
    String(Seq<char>),
    Array(Seq<JsonView>),
    Object(Map<Seq<char>, JsonView>),
}

impl JsonView {
    /// The members of an object; no members for any other value.
    pub open spec fn members(self) -> Map<Seq<char>, JsonView> {
        match self {
            JsonView::Object(m) => m,
            _ => Map::empty(),
        }
    }

    /// The member under `key`, if this is an object that has one.
    pub open spec fn member(self, key: Seq<char>) -> Option<JsonView> {
        if self.members().contains_key(key) {
            Some(self.members()[key])
        } else {
            None
        }
    }

    /// The text of a string.
    pub open spec fn as_text(self) -> Option<Seq<char>> {
        match self {
            JsonView::String(s) => Some(s),
            _ => None,
        }
    }

    /// The truth value of a boolean.
    pub open spec fn as_flag(self) -> Option<bool> {
        match self {
            JsonView::Bool(b) => Some(b),
            _ => None,
        }
    }

    /// The value of a number that is an integer.
    pub open spec fn as_integer(self) -> Option<i128> {
        match self {
            JsonView::Number(n) => number_integer(n),
            _ => None,
        }
    }

    /// The items of an array.
    pub open spec fn as_items(self) -> Option<Seq<JsonView>> {
        match self {
            JsonView::Array(items) => Some(items),
            _ => None,
        }
    }
}

/// A JSON value.
#[derive(Debug, PartialEq)]
pub enum Json {
    Null,
    Bool(bool),
    Number(serde_json::Number),
    String(String),
    Array(Vec<Json>),
    /// The members in the order they were added. Where a key occurs more
    /// than once, the last member with that key is the one that counts.
    Object(Vec<(String, Json)>),
}

/// The object that a list of members builds: each member in turn is set
/// under its key, replacing what an earlier member put there.
pub open spec fn fields_of(pairs: Seq<(Seq<char>, JsonView)>) -> Map<Seq<char>, JsonView>
    decreases pairs.len(),
{
    if pairs.len() == 0 {
        Map::empty()
    } else {
        fields_of(pairs.drop_last()).insert(pairs.last().0, pairs.last().1)
    }
}

/// The trees of a list of values, in order.
pub open spec fn views(items: Seq<Json>) -> Seq<JsonView>
    decreases items,
{
    Seq::new(
        items.len(),
        |i: int|
            if 0 <= i < items.len() {
                items[i].view()
            } else {
                JsonView::Null
            },
    )
}

/// The keys and trees of a list of members, in order.
pub open spec fn entry_views(entries: Seq<(String, Json)>) -> Seq<(Seq<char>, JsonView)>
    decreases entries,
{
    Seq::new(
        entries.len(),
        |i: int|
            if 0 <= i < entries.len() {
                (entries[i].0@, entries[i].1.view())
            } else {
                (Seq::empty(), JsonView::Null)
            },
    )
}

impl View for Json {
    type V = JsonView;

    open spec fn view(&self) -> JsonView
        decreases self,
    {
        match self {
            Json::Null => JsonView::Null,
            Json::Bool(b) => JsonView::Bool(*b),
            Json::Number(n) => JsonView::Number(*n),
            Json::String(s) => JsonView::String(s@),
            Json::Array(items) => JsonView::Array(views(items@)),
            Json::Object(entries) => JsonView::Object(fields_of(entry_views(entries@))),
        }
    }
}

/// Adding a member at the end sets its key.
pub proof fn lemma_fields_of_push(pairs: Seq<(Seq<char>, JsonView)>, key: Seq<char>, value: JsonView)
    ensures
        fields_of(pairs.push((key, value))) == fields_of(pairs).insert(key, value),
{
    assert(pairs.push((key, value)).drop_last() =~= pairs);
}

/// A list of members builds an object with finitely many keys.
pub proof fn lemma_fields_of_finite(pairs: Seq<(Seq<char>, JsonView)>)
    ensures
        fields_of(pairs).dom().finite(),
    decreases pairs.len(),
{
    if pairs.len() > 0 {
        lemma_fields_of_finite(pairs.drop_last());
    }
}

/// Where no key occurs twice, every member of the list is a member of the
/// object it builds.
pub proof fn lemma_fields_of_distinct(pairs: Seq<(Seq<char>, JsonView)>)
    requires
        forall|i: int, j: int| 0 <= i < j < pairs.len() ==> pairs[i].0 != pairs[j].0,
    ensures
        forall|i: int|
            0 <= i < pairs.len() ==> fields_of(pairs).contains_key(#[trigger] pairs[i].0)
                && fields_of(pairs)[pairs[i].0] == pairs[i].1,
    decreases pairs.len(),
{
    if pairs.len() > 0 {
        let front = pairs.drop_last();
        lemma_fields_of_distinct(front);
        assert forall|i: int| 0 <= i < pairs.len() implies fields_of(pairs).contains_key(
            #[trigger] pairs[i].0,
        ) && fields_of(pairs)[pairs[i].0] == pairs[i].1 by {
            if i < pairs.len() - 1 {
                assert(front[i] == pairs[i]);
                assert(pairs[i].0 != pairs.last().0);
            }
        }
    }
}

impl Json {
    /// An object without members.
    pub fn object() -> (r: Json)
        ensures
            r@ == JsonView::Object(Map::empty()),
    {
        let entries: Vec<(String, Json)> = Vec::new();
        assert(entry_views(entries@) =~= Seq::empty());
        Json::Object(entries)
    }

    /// A string value holding a copy of `text`.
    pub fn text(text: &str) -> (r: Json)
        ensures
            r@ == JsonView::String(text@),
    {
        Json::String(text.to_owned())
    }

    /// This object with `value` set under `key`: added, or put in place of
    /// the member that had the key. A value that is no object counts as an
    /// object without members.
    pub fn with(self, key: &str, value: Json) -> (r: Json)
        ensures
            r@ == JsonView::Object(self@.members().insert(key@, value@)),
    {
        let mut entries: Vec<(String, Json)> = match self {
            Json::Object(entries) => entries,
            _ => {
                let fresh: Vec<(String, Json)> = Vec::new();
                assert(entry_views(fresh@) =~= Seq::empty());
                fresh
            },
        };
        let ghost before = entries@;
        entries.push((key.to_owned(), value));
        proof {
            lemma_fields_of_push(entry_views(before), key@, value@);
            assert(entry_views(entries@) =~= entry_views(before).push((key@, value@)));
        }
        Json::Object(entries)
    }

    /// The member under `key`, if this is an object that has one.
    pub fn get(&self, key: &str) -> (r: Option<&Json>)
        ensures
            match r {
                Some(found) => self@.member(key@) == Some(found@),
                None => self@.member(key@) is None,
            },
    {
        match self {
            Json::Object(entries) => {
                let wanted = key.to_owned();
                let ghost pairs = entry_views(entries@);
                let mut i: usize = entries.len();
                assert(pairs.take(i as int) =~= pairs);
                while i > 0
                    invariant
                        i <= entries.len(),
                        pairs == entry_views(entries@),
                        self@ == JsonView::Object(fields_of(pairs)),
                        wanted@ == key@,
                        fields_of(pairs).contains_key(key@) == fields_of(
                            pairs.take(i as int),
                        ).contains_key(key@),
                        fields_of(pairs).contains_key(key@) ==> fields_of(pairs)[key@] == fields_of(
                            pairs.take(i as int),
                        )[key@],
                    decreases i,
                {
                    i -= 1;
                    proof {
                        let upto = pairs.take(i + 1);
                        assert(upto.drop_last() =~= pairs.take(i as int));
                        assert(upto.last() == pairs[i as int]);
                    }
                    if entries[i].0 == wanted {
                        assert(pairs[i as int] == (key@, entries@[i as int].1@));
                        assert(fields_of(pairs.take(i + 1))[key@] == entries@[i as int].1@);
                        return Some(&entries[i].1);
                    }
                }
                assert(pairs.take(0) =~= Seq::empty());
                None
            },
            _ => None,
        }
    }

    /// Whether this is the null value.
    pub fn is_null(&self) -> (r: bool)
        ensures
            r == (self@ is Null),
    {
        match self {
            Json::Null => true,
            _ => false,
        }
    }

    /// Whether this is an object.
    pub fn is_object(&self) -> (r: bool)
        ensures
            r == (self@ is Object),
    {
        match self {
            Json::Object(_) => true,
            _ => false,
        }
    }

    /// The text of a string.
    pub fn as_text(&self) -> (r: Option<&String>)
        ensures
            match r {
                Some(s) => self@.as_text() == Some(s@),
                None => self@.as_text() is None,
            },
    {
        match self {
            Json::String(s) => Some(s),
            _ => None,
        }
    }

    /// The truth value of a boolean.
    pub fn as_flag(&self) -> (r: Option<bool>)
        ensures
            r == self@.as_flag(),
    {
        match self {
            Json::Bool(b) => Some(*b),
            _ => None,
        }
    }

    /// The value of a number that is an integer.
    pub fn as_integer(&self) -> (r: Option<i128>)
        ensures
            r == self@.as_integer(),
    {
        match self {
            Json::Number(n) => n.as_i128(),
            _ => None,
        }
    }

    /// The items of an array.
    pub fn as_items(&self) -> (r: Option<&Vec<Json>>)
        ensures
            match r {
                Some(items) => self@.as_items() == Some(views(items@)),
                None => self@.as_items() is None,
            },
    {
        match self {
            Json::Array(items) => Some(items),
            _ => None,
        }
    }
}

impl Clone for Json {
    /// A deep copy: a value that denotes the same tree.
    fn clone(&self) -> (r: Json)
        ensures
            r@ == self@,
        decreases self,
    {
        match self {
            Json::Null => Json::Null,
            Json::Bool(b) => Json::Bool(*b),
            Json::Number(n) => Json::Number(n.clone()),
            Json::String(s) => Json::String(s.clone()),
            Json::Array(items) => {
                let mut out: Vec<Json> = Vec::new();
                let mut i: usize = 0;
                while i < items.len()
                    invariant
                        i <= items.len(),
                        out@.len() == i,
                        forall|j: int| 0 <= j < i ==> out@[j]@ == items@[j]@,
                        self is Array,
                        self->Array_0 == *items,
                    decreases items.len() - i,
                {
                    assert(decreases_to!(items => items[i as int]));
                    out.push(items[i].clone());
                    i += 1;
                }
                assert(views(out@) =~= views(items@));
                Json::Array(out)
            },
            Json::Object(entries) => {
                let mut out: Vec<(String, Json)> = Vec::new();
                let mut i: usize = 0;
                while i < entries.len()
                    invariant
                        i <= entries.len(),
                        out@.len() == i,
                        forall|j: int|
                            0 <= j < i ==> out@[j].0@ == entries@[j].0@ && out@[j].1@
                                == entries@[j].1@,
                        self is Object,
                        self->Object_0 == *entries,
                    decreases entries.len() - i,
                {
                    assert(decreases_to!(entries => entries[i as int]));
                    out.push((entries[i].0.clone(), entries[i].1.clone()));
                    i += 1;
                }
                assert(entry_views(out@) =~= entry_views(entries@));
                Json::Object(out)
            },
        }
    }
}

} // verus!
