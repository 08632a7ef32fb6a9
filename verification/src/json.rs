//! A JSON document model: the values that a SAPL batch is made of.
//!
//! `JsonValue` is the executable document; `Json` is its mathematical
//! meaning, in which an object is a finite map from keys to values.
use vstd::prelude::*;

verus! {

/// The meaning of a JSON document.
pub enum Json {
    Null,
    Bool(bool),
    /// A number, held by its textual form.
    Number(Seq<char>),
    Str(Seq<char>),
    Array(Seq<Json>),
    Object(Map<Seq<char>, Json>),
}

/// An executable JSON document.
#[derive(Debug, PartialEq)]
pub enum JsonValue {
    Null,
    Bool(bool),
    /// A number, held by its textual form.
    Number(String),
    Str(String),
    Array(Vec<JsonValue>),
    Object(JsonObject),
}

/// A JSON object: entries in insertion order, no key twice.
#[derive(Debug, PartialEq)]
pub struct JsonObject {
    entries: Vec<(String, JsonValue)>,
}

/// The meaning of a list of documents, element by element.
pub open spec fn json_seq(s: Seq<JsonValue>) -> Seq<Json>
    decreases s,
{
    if s.len() == 0 {
        Seq::empty()
    } else {
        json_seq(s.subrange(0, s.len() - 1)).push(s[s.len() - 1].json())
    }
}

/// The map that a list of entries denotes: each entry inserted in turn,
/// so a later entry for a key overrides an earlier one.
pub open spec fn entries_map(s: Seq<(String, JsonValue)>) -> Map<Seq<char>, Json>
    decreases s,
{
    if s.len() == 0 {
        Map::empty()
    } else {
        entries_map(s.subrange(0, s.len() - 1)).insert(
            s[s.len() - 1].0@,
            s[s.len() - 1].1.json(),
        )
    }
}

/// No key occurs twice in a list of entries.
pub open spec fn keys_unique(s: Seq<(String, JsonValue)>) -> bool {
    forall|i: int, j: int| 0 <= i < j < s.len() ==> s[i].0@ != s[j].0@
}

impl JsonValue {
    /// The meaning of this document.
    pub open spec fn json(self) -> Json
        decreases self,
    {
        match self {
            JsonValue::Null => Json::Null,
            JsonValue::Bool(b) => Json::Bool(b),
            JsonValue::Number(n) => Json::Number(n@),
            JsonValue::Str(s) => Json::Str(s@),
            JsonValue::Array(v) => Json::Array(json_seq(v@)),
            JsonValue::Object(o) => Json::Object(o.view()),
        }
    }
}

impl View for JsonObject {
    type V = Map<Seq<char>, Json>;

    /// The map that this object denotes.
    closed spec fn view(&self) -> Map<Seq<char>, Json>
        decreases self,
    {
        entries_map(self.entries@)
    }
}

/// What looking up `key` in a document gives: the key's value when the
/// document is an object that has the key, nothing otherwise.
pub open spec fn json_get(j: Json, key: Seq<char>) -> Option<Json> {
    match j {
        Json::Object(m) => if m.dom().contains(key) {
            Some(m[key])
        } else {
            None
        },
        _ => None,
    }
}

/// The meaning of a list of documents, taken element by element.
pub proof fn lemma_json_seq_index(s: Seq<JsonValue>)
    ensures
        json_seq(s).len() == s.len(),
        forall|i: int| 0 <= i < s.len() ==> #[trigger] json_seq(s)[i] == s[i].json(),
    decreases s.len(),
{
    if s.len() > 0 {
        let p = s.subrange(0, s.len() - 1);
        lemma_json_seq_index(p);
        assert forall|i: int| 0 <= i < s.len() implies #[trigger] json_seq(s)[i] == s[i].json() by {
            if i < s.len() - 1 {
                assert(p[i] == s[i]);
            }
        }
    }
}

/// Reading a key after setting it gives the value set; every other key reads
/// as before.
pub proof fn law_object_read_after_write(
    before: JsonObject,
    key: Seq<char>,
    value: JsonValue,
    after: JsonObject,
    other: Seq<char>,
)
    requires
        after@ == before@.insert(key, value.json()),
    ensures
        after@.dom().contains(key),
        after@[key] == value.json(),
        other != key ==> (after@.dom().contains(other) == before@.dom().contains(other)),
        other != key && before@.dom().contains(other) ==> after@[other] == before@[other],
{
}

/// Every key of a list of entries is a key of the map it denotes, and the
/// map has no other keys.
proof fn lemma_entries_map_dom(s: Seq<(String, JsonValue)>)
    ensures
        forall|i: int| 0 <= i < s.len() ==> entries_map(s).dom().contains(#[trigger] s[i].0@),
        forall|k: Seq<char>| #[trigger]
            entries_map(s).dom().contains(k) ==> exists|i: int| 0 <= i < s.len() && s[i].0@ == k,
    decreases s.len(),
{
    if s.len() > 0 {
        let p = s.subrange(0, s.len() - 1);
        lemma_entries_map_dom(p);
        assert forall|i: int| 0 <= i < s.len() implies entries_map(s).dom().contains(
            #[trigger] s[i].0@,
        ) by {
            if i < s.len() - 1 {
                assert(p[i] == s[i]);
            }
        }
        assert forall|k: Seq<char>| #[trigger]
            entries_map(s).dom().contains(k) implies exists|i: int|
            0 <= i < s.len() && s[i].0@ == k by {
            if k != s[s.len() - 1].0@ {
                assert(entries_map(p).dom().contains(k));
                let i = choose|i: int| 0 <= i < p.len() && p[i].0@ == k;
                assert(p[i] == s[i]);
            } else {
                assert(s[s.len() - 1].0@ == k);
            }
        }
    }
}

/// With no key twice, the map gives each entry's key that entry's value.
proof fn lemma_entries_map_at(s: Seq<(String, JsonValue)>, i: int)
    requires
        keys_unique(s),
        0 <= i < s.len(),
    ensures
        entries_map(s).dom().contains(s[i].0@),
        entries_map(s)[s[i].0@] == s[i].1.json(),
    decreases s.len(),
{
    if i < s.len() - 1 {
        let p = s.subrange(0, s.len() - 1);
        assert(p[i] == s[i]);
        lemma_entries_map_at(p, i);
    }
}

/// With no key twice, overwriting the entry of a key is inserting into the map.
proof fn lemma_entries_map_update(s: Seq<(String, JsonValue)>, i: int, e: (String, JsonValue))
    requires
        keys_unique(s),
        0 <= i < s.len(),
        e.0@ == s[i].0@,
    ensures
        entries_map(s.update(i, e)) == entries_map(s).insert(e.0@, e.1.json()),
        keys_unique(s.update(i, e)),
    decreases s.len(),
{
    let n = s.len();
    let p = s.subrange(0, n - 1);
    let t = s.update(i, e);
    if i == n - 1 {
        assert(t.subrange(0, n - 1) =~= p);
        assert(entries_map(t) =~= entries_map(s).insert(e.0@, e.1.json()));
    } else {
        assert(t.subrange(0, n - 1) =~= p.update(i, e));
        lemma_entries_map_update(p, i, e);
        assert(s[n - 1].0@ != e.0@);
        assert(entries_map(t) =~= entries_map(s).insert(e.0@, e.1.json()));
    }
    assert forall|a: int, b: int| 0 <= a < b < t.len() implies t[a].0@ != t[b].0@ by {
        if a != i && b != i {
            assert(s[a].0@ != s[b].0@);
        } else if a == i {
            assert(s[i].0@ != s[b].0@);
        } else {
            assert(s[a].0@ != s[i].0@);
        }
    }
}

impl JsonValue {
    /// The value stored for `key` when this is an object.
    pub fn get(&self, key: &str) -> (r: Option<&JsonValue>)
        ensures
            r is Some <==> json_get(self.json(), key@) is Some,
            r matches Some(v) ==> json_get(self.json(), key@) == Some(v.json()),
    {
        match self {
            JsonValue::Object(o) => o.get(key),
            _ => None,
        }
    }

    /// The text when this is a string.
    pub fn as_str(&self) -> (r: Option<&String>)
        ensures
            self.json() is Str <==> r is Some,
            r matches Some(t) ==> self.json() == Json::Str(t@),
    {
        match self {
            JsonValue::Str(t) => Some(t),
            _ => None,
        }
    }

    /// The elements when this is an array.
    pub fn as_array(&self) -> (r: Option<&Vec<JsonValue>>)
        ensures
            self.json() is Array <==> r is Some,
            r matches Some(v) ==> self.json() == Json::Array(json_seq(v@)),
    {
        match self {
            JsonValue::Array(v) => Some(v),
            _ => None,
        }
    }
}

impl JsonObject {
    #[verifier::type_invariant]
    spec fn no_key_twice(self) -> bool {
        keys_unique(self.entries@)
    }

    /// The keys, in the order in which they were first set.
    pub closed spec fn keys(self) -> Seq<Seq<char>> {
        self.entries@.map_values(|e: (String, JsonValue)| e.0@)
    }

    /// An empty object.
    pub fn new() -> (o: JsonObject)
        ensures
            o@ == Map::<Seq<char>, Json>::empty(),
            o.keys() == Seq::<Seq<char>>::empty(),
    {
        proof {
            assert(Seq::<(String, JsonValue)>::empty().map_values(|e: (String, JsonValue)| e.0@)
                =~= Seq::<Seq<char>>::empty());
        }
        JsonObject { entries: Vec::new() }
    }

    /// The position of `key` among the entries, if it has one.
    fn position(&self, key: &String) -> (r: Option<usize>)
        ensures
            match r {
                Some(i) => i < self.entries.len() && self.entries@[i as int].0@ == key@,
                None => forall|i: int|
                    0 <= i < self.entries.len() ==> self.entries@[i].0@ != key@,
            },
    {
        let mut i: usize = 0;
        while i < self.entries.len()
            invariant
                i <= self.entries.len(),
                forall|j: int| 0 <= j < i ==> self.entries@[j].0@ != key@,
            decreases self.entries.len() - i,
        {
            if self.entries[i].0 == *key {
                return Some(i);
            }
            i = i + 1;
        }
        None
    }

    /// Sets `key` to `value`: an existing entry for the key is overwritten in
    /// place, otherwise the entry is appended.
    pub fn insert(&mut self, key: String, value: JsonValue)
        ensures
            final(self)@ == old(self)@.insert(key@, value.json()),
            final(self).keys() == (if old(self)@.dom().contains(key@) {
                old(self).keys()
            } else {
                old(self).keys().push(key@)
            }),
    {
        proof {
            use_type_invariant(&*self);
        }
        let ghost k = key@;
        let ghost vj = value.json();
        let ghost s = self.entries@;
        let found = self.position(&key);
        let mut entries: Vec<(String, JsonValue)> = Vec::new();
        std::mem::swap(&mut entries, &mut self.entries);
        match found {
            Some(i) => {
                proof {
                    lemma_entries_map_update(s, i as int, (key, value));
                    lemma_entries_map_dom(s);
                    assert(s.update(i as int, (key, value)).map_values(
                        |e: (String, JsonValue)| e.0@,
                    ) =~= s.map_values(|e: (String, JsonValue)| e.0@));
                }
                entries.set(i, (key, value));
            },
            None => {
                proof {
                    lemma_entries_map_dom(s);
                    assert(s.push((key, value)).subrange(0, s.len() as int) =~= s);
                    assert(s.push((key, value)).map_values(|e: (String, JsonValue)| e.0@)
                        =~= s.map_values(|e: (String, JsonValue)| e.0@).push(key@));
                }
                entries.push((key, value));
            },
        }
        self.entries = entries;
    }

    /// The value stored for `key`, if any.
    pub fn get(&self, key: &str) -> (r: Option<&JsonValue>)
        ensures
            r is Some <==> self@.dom().contains(key@),
            r matches Some(v) ==> v.json() == self@[key@],
    {
        proof {
            use_type_invariant(self);
            lemma_entries_map_dom(self.entries@);
        }
        let k = String::from_str(key);
        match self.position(&k) {
            Some(i) => {
                proof {
                    lemma_entries_map_at(self.entries@, i as int);
                }
                Some(&self.entries[i].1)
            },
            None => None,
        }
    }

    /// The entries, in insertion order.
    pub fn entries(&self) -> (r: &Vec<(String, JsonValue)>)
        ensures
            entries_map(r@) == self@,
            r@.map_values(|e: (String, JsonValue)| e.0@) == self.keys(),
            keys_unique(r@),
    {
        proof {
            use_type_invariant(self);
        }
        &self.entries
    }
}

} // verus!
