//! A structured value as the rest of the library reads it.

use crate::text::same_text;
use vstd::prelude::*;

verus! {

/// The mathematical content of a structured value.
pub enum JsonValue {
    Null,
    Bool(bool),
    Number(Seq<char>),
    Text(Seq<char>),
    Array(Seq<JsonValue>),
    Object(Seq<(Seq<char>, JsonValue)>),
}

/// A structured value: what a decoded response holds.
///
/// A number is kept as its decimal text. An object is the list of its
/// entries in the order in which they are held.
#[derive(Debug, PartialEq, Eq)]
pub enum Json {
    Null,
    Bool(bool),
    Number(String),
    Text(String),
    Array(Vec<Json>),
    Object(Vec<(String, Json)>),
}

impl View for Json {
    type V = JsonValue;

    open spec fn view(&self) -> JsonValue
        decreases self,
    {
        match self {
            Json::Null => JsonValue::Null,
            Json::Bool(b) => JsonValue::Bool(*b),
            Json::Number(n) => JsonValue::Number(n@),
            Json::Text(s) => JsonValue::Text(s@),
            Json::Array(items) => JsonValue::Array(
                Seq::new(
                    items@.len(),
                    |i: int|
                        if 0 <= i < items@.len() {
                            items@[i]@
                        } else {
                            JsonValue::Null
                        },
                ),
            ),
            Json::Object(entries) => JsonValue::Object(
                Seq::new(
                    entries@.len(),
                    |i: int|
                        (
                            entries@[i].0@,
                            if 0 <= i < entries@.len() {
                                entries@[i].1@
                            } else {
                                JsonValue::Null
                            },
                        ),
                ),
            ),
        }
    }
}

/// The value of the first entry at or after `from` whose key is `key`.
pub open spec fn entry_from(
    entries: Seq<(Seq<char>, JsonValue)>,
    key: Seq<char>,
    from: int,
) -> Option<JsonValue>
    decreases entries.len() - from,
{
    if from < 0 || from >= entries.len() {
        None
    } else if entries[from].0 == key {
        Some(entries[from].1)
    } else {
        entry_from(entries, key, from + 1)
    }
}

impl JsonValue {
    /// The value under `key` where this is an object that has such an
    /// entry: the first one, should the key occur more than once.
    pub open spec fn field(self, key: Seq<char>) -> Option<JsonValue> {
        match self {
            JsonValue::Object(entries) => entry_from(entries, key, 0),
            _ => None,
        }
    }

    /// The characters of a text value.
    pub open spec fn text(self) -> Option<Seq<char>> {
        match self {
            JsonValue::Text(s) => Some(s),
            _ => None,
        }
    }

    /// The elements of an array value.
    pub open spec fn items(self) -> Option<Seq<JsonValue>> {
        match self {
            JsonValue::Array(items) => Some(items),
            _ => None,
        }
    }

    /// The text found by descending through `outer` and then `inner`.
    pub open spec fn text_at(self, outer: Seq<char>, inner: Seq<char>) -> Option<Seq<char>> {
        match self.field(outer) {
            Some(v) => match v.field(inner) {
                Some(leaf) => leaf.text(),
                None => None,
            },
            None => None,
        }
    }

    /// The text found by descending through `outer`, `middle` and `inner`.
    pub open spec fn text_under(
        self,
        outer: Seq<char>,
        middle: Seq<char>,
        inner: Seq<char>,
    ) -> Option<Seq<char>> {
        match self.field(outer) {
            Some(v) => v.text_at(middle, inner),
            None => None,
        }
    }
}

/// The views of a list of values, element by element.
pub open spec fn views(items: Seq<Json>) -> Seq<JsonValue> {
    Seq::new(items.len(), |i: int| items[i]@)
}

impl Json {
    /// Looks up an entry of an object by its key.
    pub fn field(&self, key: &str) -> (found: Option<&Json>)
        ensures
            match found {
                Some(v) => self@.field(key@) == Some(v@),
                None => self@.field(key@) is None,
            },
    {
        match self {
            Json::Object(entries) => {
                let ghost all = self@->Object_0;
                let mut i: usize = 0;
                while i < entries.len()
                    invariant
                        i <= entries.len(),
                        self@ == JsonValue::Object(all),
                        all.len() == entries@.len(),
                        forall|j: int|
                            0 <= j < entries@.len() ==> all[j] == (
                                (#[trigger] entries@[j]).0@,
                                entries@[j].1@,
                            ),
                        entry_from(all, key@, 0) == entry_from(all, key@, i as int),
                    decreases entries.len() - i,
                {
                    assert(all[i as int] == (entries@[i as int].0@, entries@[i as int].1@));
                    if same_text(entries[i].0.as_str(), key) {
                        return Some(&entries[i].1);
                    }
                    i += 1;
                }
                None
            },
            _ => None,
        }
    }

    /// The characters of a text value.
    pub fn as_text(&self) -> (found: Option<&str>)
        ensures
            match found {
                Some(s) => self@.text() == Some(s@),
                None => self@.text() is None,
            },
    {
        match self {
            Json::Text(s) => Some(s.as_str()),
            _ => None,
        }
    }

    /// The elements of an array value.
    pub fn as_items(&self) -> (found: Option<&Vec<Json>>)
        ensures
            match found {
                Some(items) => self@.items() == Some(views(items@)),
                None => self@.items() is None,
            },
    {
        match self {
            Json::Array(items) => {
                assert(views(items@) =~= self@->Array_0);
                Some(items)
            },
            _ => None,
        }
    }

    /// The text found by descending through `outer` and then `inner`.
    pub fn text_at(&self, outer: &str, inner: &str) -> (found: Option<&str>)
        ensures
            match found {
                Some(s) => self@.text_at(outer@, inner@) == Some(s@),
                None => self@.text_at(outer@, inner@) is None,
            },
    {
        match self.field(outer) {
            Some(v) => match v.field(inner) {
                Some(leaf) => leaf.as_text(),
                None => None,
            },
            None => None,
        }
    }

    /// The text found by descending through `outer`, `middle` and `inner`.
    pub fn text_under(&self, outer: &str, middle: &str, inner: &str) -> (found: Option<&str>)
        ensures
            match found {
                Some(s) => self@.text_under(outer@, middle@, inner@) == Some(s@),
                None => self@.text_under(outer@, middle@, inner@) is None,
            },
    {
        match self.field(outer) {
            Some(v) => v.text_at(middle, inner),
            None => None,
        }
    }
}

} // verus!
