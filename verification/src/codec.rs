//! Between `Json` and `serde_json`: values, and through them text.
//!
//! The conversions are verified against the statements of `serde_specs`:
//! a `Json` and the `serde_json::Value` made from it hold the same tree, and
//! the other way round. Reading and writing text is `serde_json`'s work; its
//! outcome is named by `parsed` and `printed`.
use crate::json::{entry_views, fields_of, lemma_fields_of_distinct, lemma_fields_of_finite, views, Json, JsonView};
use crate::serde_specs::{
    array_value, bool_value, map_entries, map_pairs, null_value, number_value, object_value,
    pair_trees, parse_value, parsed, print_value, printed, string_value, value_tree,
};
use vstd::prelude::*;

verus! {

impl Json {
    /// The `Json` that holds what a `serde_json::Value` holds.
    pub fn from_value(v: &serde_json::Value) -> (r: Json)
        ensures
            r@ == value_tree(*v),
        decreases value_tree(*v),
    {
        if let Some(b) = v.as_bool() {
            Json::Bool(b)
        } else if let Some(n) = v.as_number() {
            Json::Number(n.clone())
        } else if let Some(s) = v.as_str() {
            Json::String(s.to_owned())
        } else if let Some(items) = v.as_array() {
            let ghost trees = Seq::new(items@.len(), |i: int| value_tree(items@[i]));
            let mut out: Vec<Json> = Vec::new();
            let mut i: usize = 0;
            while i < items.len()
                invariant
                    i <= items.len(),
                    out@.len() == i,
                    trees == Seq::new(items@.len(), |i: int| value_tree(items@[i])),
                    value_tree(*v) is Array,
                    value_tree(*v)->Array_0 == trees,
                    forall|j: int| 0 <= j < i ==> out@[j]@ == trees[j],
                decreases items.len() - i,
            {
                assert(trees[i as int] == value_tree(items@[i as int]));
                assert(decreases_to!(trees => trees[i as int]));
                out.push(Json::from_value(&items[i]));
                i += 1;
            }
            assert(views(out@) =~= trees);
            Json::Array(out)
        } else if let Some(m) = v.as_object() {
            let pairs = map_pairs(m);
            let ghost trees = pair_trees(pairs@);
            proof {
                lemma_fields_of_distinct(trees);
                lemma_fields_of_finite(trees);
            }
            let mut out: Vec<(String, Json)> = Vec::new();
            let mut i: usize = 0;
            while i < pairs.len()
                invariant
                    i <= pairs.len(),
                    out@.len() == i,
                    trees == pair_trees(pairs@),
                    value_tree(*v) is Object,
                    value_tree(*v)->Object_0 == fields_of(trees),
                    fields_of(trees).dom().finite(),
                    forall|j: int|
                        0 <= j < trees.len() ==> fields_of(trees).contains_key(
                            #[trigger] trees[j].0,
                        ) && fields_of(trees)[trees[j].0] == trees[j].1,
                    forall|j: int| 0 <= j < i ==> (out@[j].0@, out@[j].1@) == trees[j],
                decreases pairs.len() - i,
            {
                let key = pairs[i].0;
                let member = pairs[i].1;
                proof {
                    let fields = fields_of(trees);
                    assert(trees[i as int] == (key@, value_tree(*member)));
                    assert(fields.contains_key(trees[i as int].0));
                    assert(fields[key@] == value_tree(*member));
                    assert(decreases_to!(fields => fields[key@]));
                }
                out.push((key.clone(), Json::from_value(member)));
                i += 1;
            }
            assert(entry_views(out@) =~= trees);
            Json::Object(out)
        } else {
            Json::Null
        }
    }

    /// The `serde_json::Value` that holds what this value holds.
    pub fn to_value(&self) -> (v: serde_json::Value)
        ensures
            value_tree(v) == self@,
        decreases self,
    {
        match self {
            Json::Null => null_value(),
            Json::Bool(b) => bool_value(*b),
            Json::Number(n) => number_value(n.clone()),
            Json::String(s) => string_value(s.clone()),
            Json::Array(items) => {
                let mut out: Vec<serde_json::Value> = Vec::new();
                let mut i: usize = 0;
                while i < items.len()
                    invariant
                        i <= items.len(),
                        out@.len() == i,
                        forall|j: int| 0 <= j < i ==> value_tree(out@[j]) == items@[j]@,
                        self is Array,
                        self->Array_0 == *items,
                    decreases items.len() - i,
                {
                    assert(decreases_to!(items => items[i as int]));
                    out.push(items[i].to_value());
                    i += 1;
                }
                assert(Seq::new(out@.len(), |i: int| value_tree(out@[i])) =~= views(items@));
                array_value(out)
            },
            Json::Object(entries) => {
                let ghost pairs = entry_views(entries@);
                let mut m = serde_json::Map::new();
                let mut i: usize = 0;
                assert(pairs.take(0) =~= Seq::empty());
                while i < entries.len()
                    invariant
                        i <= entries.len(),
                        pairs == entry_views(entries@),
                        map_entries(m) == fields_of(pairs.take(i as int)),
                        self is Object,
                        self->Object_0 == *entries,
                    decreases entries.len() - i,
                {
                    assert(decreases_to!(entries => entries[i as int]));
                    proof {
                        let upto = pairs.take(i + 1);
                        assert(upto.drop_last() =~= pairs.take(i as int));
                        assert(upto.last() == (entries@[i as int].0@, entries@[i as int].1@));
                    }
                    m.insert(entries[i].0.clone(), entries[i].1.to_value());
                    i += 1;
                }
                assert(pairs.take(i as int) =~= pairs);
                object_value(m)
            },
        }
    }

    /// Reads a JSON text. `None` where the text is no JSON document.
    pub fn parse(text: &str) -> (r: Option<Json>)
        ensures
            match r {
                Some(doc) => parsed(text@) == Some(doc@),
                None => parsed(text@) is None,
            },
    {
        match parse_value(text) {
            Ok(v) => Some(Json::from_value(&v)),
            Err(_) => None,
        }
    }

    /// Writes this value as JSON text, in the compact form.
    pub fn to_text(&self) -> (r: String)
        ensures
            r@ == printed(self@),
    {
        let v = self.to_value();
        print_value(&v)
    }
}

} // verus!
