//! JSON documents as the client reads them from the CLI: the parsed tree,
//! its view, and the lookups the readers use.
use vstd::prelude::*;

use crate::text::same_text;

verus! {

/// A JSON number: the value when it is a non-negative integer that fits a
/// `u64`, and its text.
pub struct JsonNumber {
    pub unsigned: Option<u64>,
    pub text: String,
}

/// A parsed JSON value. Object members keep the order they were read in.
pub enum Json {
    Null,
    Bool(bool),
    Number(JsonNumber),
    String(String),
    Array(Vec<Json>),
    Object(Vec<(String, Json)>),
}

/// A JSON value with every string taken by its characters.
pub enum JsonView {
    Null,
    Bool(bool),
    Number(Option<u64>, Seq<char>),
    Str(Seq<char>),
    Array(Seq<JsonView>),
    Object(Seq<(Seq<char>, JsonView)>),
}

impl Json {
    pub open spec fn view_of(self) -> JsonView
        decreases self,
    {
        match self {
            Json::Null => JsonView::Null,
            Json::Bool(b) => JsonView::Bool(b),
            Json::Number(n) => JsonView::Number(n.unsigned, n.text@),
            Json::String(s) => JsonView::Str(s@),
            Json::Array(items) => JsonView::Array(
                Seq::new(
                    items@.len(),
                    |i: int|
                        if 0 <= i < items@.len() {
                            items@[i].view_of()
                        } else {
                            JsonView::Null
                        },
                ),
            ),
            Json::Object(entries) => JsonView::Object(
                Seq::new(
                    entries@.len(),
                    |i: int|
                        if 0 <= i < entries@.len() {
                            (entries@[i].0@, entries@[i].1.view_of())
                        } else {
                            (Seq::empty(), JsonView::Null)
                        },
                ),
            ),
        }
    }
}

impl View for Json {
    type V = JsonView;

    open spec fn view(&self) -> JsonView {
        self.view_of()
    }
}

/// The value of the first member named `key`.
pub open spec fn lookup(entries: Seq<(Seq<char>, JsonView)>, key: Seq<char>) -> Option<JsonView>
    decreases entries.len(),
{
    if entries.len() == 0 {
        None
    } else if entries[0].0 == key {
        Some(entries[0].1)
    } else {
        lookup(entries.drop_first(), key)
    }
}

/// `value.get(key)`: the member of an object, nothing for anything else.
pub open spec fn jget(v: JsonView, key: Seq<char>) -> Option<JsonView> {
    match v {
        JsonView::Object(entries) => lookup(entries, key),
        _ => None,
    }
}

pub open spec fn jstr(v: Option<JsonView>) -> Option<Seq<char>> {
    match v {
        Some(JsonView::Str(s)) => Some(s),
        _ => None,
    }
}

pub open spec fn jbool(v: Option<JsonView>) -> Option<bool> {
    match v {
        Some(JsonView::Bool(b)) => Some(b),
        _ => None,
    }
}

pub open spec fn ju64(v: Option<JsonView>) -> Option<u64> {
    match v {
        Some(JsonView::Number(n, _)) => n,
        _ => None,
    }
}

pub open spec fn jarray(v: Option<JsonView>) -> Option<Seq<JsonView>> {
    match v {
        Some(JsonView::Array(items)) => Some(items),
        _ => None,
    }
}

pub open spec fn jobject(v: Option<JsonView>) -> Option<Seq<(Seq<char>, JsonView)>> {
    match v {
        Some(JsonView::Object(entries)) => Some(entries),
        _ => None,
    }
}

/// `value.get(key).and_then(Value::as_str)`.
pub open spec fn str_at(v: JsonView, key: Seq<char>) -> Option<Seq<char>> {
    jstr(jget(v, key))
}

/// `value.get(key).and_then(Value::as_bool)`.
pub open spec fn bool_at(v: JsonView, key: Seq<char>) -> Option<bool> {
    jbool(jget(v, key))
}

pub open spec fn flag_at(v: JsonView, key: Seq<char>) -> bool {
    bool_at(v, key) == Some(true)
}

pub open spec fn opt_json(o: Option<&Json>) -> Option<JsonView> {
    match o {
        Some(j) => Some(j@),
        None => None,
    }
}

pub open spec fn opt_str(o: Option<&str>) -> Option<Seq<char>> {
    match o {
        Some(s) => Some(s@),
        None => None,
    }
}

proof fn lemma_lookup_skip(entries: Seq<(Seq<char>, JsonView)>, key: Seq<char>, i: int)
    requires
        0 <= i < entries.len(),
        entries[i].0 != key,
    ensures
        lookup(entries.subrange(i, entries.len() as int), key) == lookup(
            entries.subrange(i + 1, entries.len() as int),
            key,
        ),
{
    assert(entries.subrange(i, entries.len() as int).drop_first() =~= entries.subrange(
        i + 1,
        entries.len() as int,
    ));
}

impl Json {
    /// `Value::get`: the first member named `key` of an object.
    pub fn get(&self, key: &str) -> (r: Option<&Json>)
        ensures
            opt_json(r) == jget(self@, key@),
    {
        match self {
            Json::Object(entries) => {
                let ghost es = match self@ {
                    JsonView::Object(es) => es,
                    _ => Seq::empty(),
                };
                assert(es.subrange(0, es.len() as int) =~= es);
                let mut i: usize = 0;
                while i < entries.len()
                    invariant
                        self@ == JsonView::Object(es),
                        *self == Json::Object(*entries),
                        es.len() == entries@.len(),
                        forall|k: int|
                            0 <= k < es.len() ==> (#[trigger] es[k]) == (
                                entries@[k].0@,
                                entries@[k].1@,
                            ),
                        i <= entries@.len(),
                        lookup(es, key@) == lookup(es.subrange(i as int, es.len() as int), key@),
                    decreases entries@.len() - i,
                {
                    assert(es[i as int] == (entries@[i as int].0@, entries@[i as int].1@));
                    if same_text(entries[i].0.as_str(), key) {
                        assert(es.subrange(i as int, es.len() as int)[0] == es[i as int]);
                        return Some(&entries[i].1);
                    }
                    proof {
                        lemma_lookup_skip(es, key@, i as int);
                    }
                    i += 1;
                }
                None
            },
            _ => None,
        }
    }

    pub fn as_str(&self) -> (r: Option<&str>)
        ensures
            opt_str(r) == jstr(Some(self@)),
    {
        match self {
            Json::String(s) => Some(s.as_str()),
            _ => None,
        }
    }

    pub fn as_bool(&self) -> (r: Option<bool>)
        ensures
            r == jbool(Some(self@)),
    {
        match self {
            Json::Bool(b) => Some(*b),
            _ => None,
        }
    }

    pub fn as_u64(&self) -> (r: Option<u64>)
        ensures
            r == ju64(Some(self@)),
    {
        match self {
            Json::Number(n) => n.unsigned,
            _ => None,
        }
    }

    pub fn as_array(&self) -> (r: Option<&Vec<Json>>)
        ensures
            match r {
                Some(items) => jarray(Some(self@)) == Some(
                    Seq::new(items@.len(), |i: int| items@[i]@),
                ) && *self == Json::Array(*items),
                None => jarray(Some(self@)) is None,
            },
    {
        match self {
            Json::Array(items) => {
                assert(jarray(Some(self@)).unwrap() =~= Seq::new(items@.len(), |i: int| items@[i]@));
                Some(items)
            },
            _ => None,
        }
    }

    pub fn as_object(&self) -> (r: Option<&Vec<(String, Json)>>)
        ensures
            match r {
                Some(entries) => jobject(Some(self@)) == Some(
                    Seq::new(entries@.len(), |i: int| (entries@[i].0@, entries@[i].1@)),
                ) && *self == Json::Object(*entries),
                None => jobject(Some(self@)) is None,
            },
    {
        match self {
            Json::Object(entries) => {
                assert(jobject(Some(self@)).unwrap() =~= Seq::new(
                    entries@.len(),
                    |i: int| (entries@[i].0@, entries@[i].1@),
                ));
                Some(entries)
            },
            _ => None,
        }
    }

    /// `value.get(key).and_then(Value::as_str)`.
    pub fn str_at(&self, key: &str) -> (r: Option<&str>)
        ensures
            opt_str(r) == str_at(self@, key@),
    {
        match self.get(key) {
            Some(v) => v.as_str(),
            None => None,
        }
    }

    /// `value.get(key).and_then(Value::as_bool)`.
    pub fn bool_at(&self, key: &str) -> (r: Option<bool>)
        ensures
            r == bool_at(self@, key@),
    {
        match self.get(key) {
            Some(v) => v.as_bool(),
            None => None,
        }
    }

    /// `value.get(key).and_then(Value::as_bool).unwrap_or(false)`.
    pub fn flag_at(&self, key: &str) -> (r: bool)
        ensures
            r == flag_at(self@, key@),
    {
        match self.bool_at(key) {
            Some(b) => b,
            None => false,
        }
    }
}

} // verus!
