//! A JSON document model, and the reads the handlers make on it.
use vstd::prelude::*;

verus! {

/// A JSON value as the handlers read and build it.
pub enum JsonValue {
    Null,
    Bool(bool),
    UInt(u64),
    NegInt(i64),
    Float(String),
    Str(String),
    Array(Vec<JsonValue>),
    Object(Vec<(String, JsonValue)>),
}

/// The mathematical meaning of a [`JsonValue`].
pub enum Json {
    Null,
    Bool(bool),
    UInt(u64),
    NegInt(i64),
    Float(Seq<char>),
    Str(Seq<char>),
    Array(Seq<Json>),
    Object(Seq<(Seq<char>, Json)>),
}

pub open spec fn json_model(v: JsonValue) -> Json
    decreases v,
{
    match v {
        JsonValue::Null => Json::Null,
        JsonValue::Bool(b) => Json::Bool(b),
        JsonValue::UInt(u) => Json::UInt(u),
        JsonValue::NegInt(i) => Json::NegInt(i),
        JsonValue::Float(f) => Json::Float(f@),
        JsonValue::Str(s) => Json::Str(s@),
        JsonValue::Array(items) => Json::Array(
            Seq::new(items.len() as nat, |i: int| if 0 <= i < items.len() { json_model(items[i]) } else { Json::Null }),
        ),
        JsonValue::Object(entries) => Json::Object(
            Seq::new(entries.len() as nat, |i: int| if 0 <= i < entries.len() { (entries[i].0@, json_model(entries[i].1)) } else { (Seq::empty(), Json::Null) }),
        ),
    }
}

impl View for JsonValue {
    type V = Json;

    open spec fn view(&self) -> Json {
        json_model(*self)
    }
}


/// The model of an array lists the models of its elements.
pub proof fn lemma_array_model(items: Vec<JsonValue>)
    ensures
        JsonValue::Array(items)@ matches Json::Array(m) && m.len() == items.len() && forall|i: int|
            0 <= i < items.len() ==> #[trigger] m[i] == items[i]@,
{
}

/// The model of an object lists its keys and the models of its values.
pub proof fn lemma_object_model(entries: Vec<(String, JsonValue)>)
    ensures
        JsonValue::Object(entries)@ matches Json::Object(m) && m.len() == entries.len() && forall|i: int|
            0 <= i < entries.len() ==> #[trigger] m[i] == (entries[i].0@, entries[i].1@),
{
}

/// Whether a JSON text may begin with this character: JSON whitespace, or the first
/// character of a literal, number, string, array or object.
pub open spec fn may_begin_json(c: char) -> bool {
    ||| c == ' ' || c == '\n' || c == '\t' || c == '\r'
    ||| c == 'n' || c == 't' || c == 'f' || c == '-' || ('0' <= c <= '9')
    ||| c == '"' || c == '[' || c == '{'
}

/// What `serde_json` says of a text read as a JSON value: the message of its error,
/// or nothing when the text is JSON.
pub uninterp spec fn json_parse_error(text: Seq<char>) -> Option<Seq<char>>;

/// Calls `serde_json::from_str::<serde_json::Value>` and keeps the error's message.
/// Which texts are JSON, and the message, are named, not stated; what is stated is
/// that a text that is empty, or whose first character cannot begin a JSON value, is
/// refused (the deserializer skips whitespace, then errs on any other first byte).
#[verifier::external_body]
pub(crate) fn json_syntax_error(text: &str) -> (r: Option<String>)
    ensures
        r is None <==> json_parse_error(text@) is None,
        r matches Some(m) ==> json_parse_error(text@) == Some(m@),
        r is Some || (text@.len() > 0 && may_begin_json(text@[0])),
{
    serde_json::from_str::<serde_json::Value>(text).err().map(|e| e.to_string())
}

/// The value of the first entry whose key is `key`.
pub open spec fn lookup(entries: Seq<(Seq<char>, Json)>, key: Seq<char>) -> Option<Json>
    decreases entries.len(),
{
    if entries.len() == 0 {
        None
    } else if entries[0].0 == key {
        Some(entries[0].1)
    } else {
        lookup(entries.drop_first(), key)
    }
}

impl Json {
    /// `value.get(key)`: the member named `key` of an object.
    pub open spec fn get(self, key: Seq<char>) -> Option<Json> {
        match self {
            Json::Object(entries) => lookup(entries, key),
            _ => None,
        }
    }

    /// `value[key]`: the member named `key`, or null.
    pub open spec fn field(self, key: Seq<char>) -> Json {
        match self.get(key) {
            Some(v) => v,
            None => Json::Null,
        }
    }

    /// `value.get(i)`: the element at position `i` of an array.
    pub open spec fn at(self, i: int) -> Option<Json> {
        match self {
            Json::Array(items) => if 0 <= i < items.len() {
                Some(items[i])
            } else {
                None
            },
            _ => None,
        }
    }

    /// `value[i]`: the element at position `i`, or null.
    pub open spec fn item(self, i: int) -> Json {
        match self.at(i) {
            Some(v) => v,
            None => Json::Null,
        }
    }

    /// `value.as_str()`.
    pub open spec fn as_str(self) -> Option<Seq<char>> {
        match self {
            Json::Str(s) => Some(s),
            _ => None,
        }
    }

    /// `value.as_u64()`: a number that is a non-negative integer.
    pub open spec fn as_u64(self) -> Option<u64> {
        match self {
            Json::UInt(u) => Some(u),
            Json::NegInt(i) => if i >= 0 {
                Some(i as u64)
            } else {
                None
            },
            _ => None,
        }
    }

    /// `value.as_array()`.
    pub open spec fn as_array(self) -> Option<Seq<Json>> {
        match self {
            Json::Array(items) => Some(items),
            _ => None,
        }
    }
}

/// `value.get(key).and_then(|v| v.as_str())`.
pub open spec fn str_at(v: Json, key: Seq<char>) -> Option<Seq<char>> {
    match v.get(key) {
        Some(x) => x.as_str(),
        None => None,
    }
}

/// `value.get(key).and_then(|v| v.as_u64())`.
pub open spec fn u64_at(v: Json, key: Seq<char>) -> Option<u64> {
    match v.get(key) {
        Some(x) => x.as_u64(),
        None => None,
    }
}

/// A JSON array of strings.
pub open spec fn strs_json(list: Seq<Seq<char>>) -> Json {
    Json::Array(list.map_values(|s: Seq<char>| Json::Str(s)))
}

/// Whether two strings hold the same characters.
pub fn str_equal(a: &str, b: &str) -> (r: bool)
    ensures
        r == (a@ == b@),
{
    let x = crate::text::chars_of(a);
    let y = crate::text::chars_of(b);
    if x.len() != y.len() {
        assert(x@.len() != y@.len());
        return false;
    }
    let n = x.len();
    for i in 0..n
        invariant
            n == x@.len(),
            n == y@.len(),
            x@ == a@,
            y@ == b@,
            forall|j: int| 0 <= j < i ==> x@[j] == y@[j],
    {
        if x[i] != y[i] {
            assert(x@[i as int] != y@[i as int]);
            return false;
        }
    }
    assert(x@ =~= y@);
    true
}

impl JsonValue {
    /// A string value.
    pub fn string(s: &str) -> (r: JsonValue)
        ensures
            r@ == Json::Str(s@),
    {
        JsonValue::Str(s.to_owned())
    }

    /// A copy of this value.
    pub fn deep_clone(&self) -> (r: JsonValue)
        ensures
            r@ == self@,
        decreases self,
    {
        match self {
            JsonValue::Null => JsonValue::Null,
            JsonValue::Bool(b) => JsonValue::Bool(*b),
            JsonValue::UInt(u) => JsonValue::UInt(*u),
            JsonValue::NegInt(i) => JsonValue::NegInt(*i),
            JsonValue::Float(f) => JsonValue::Float(f.clone()),
            JsonValue::Str(s) => JsonValue::Str(s.clone()),
            JsonValue::Array(items) => {
                let mut out: Vec<JsonValue> = Vec::new();
                let n = items.len();
                for i in 0..n
                    invariant
                        n == items.len(),
                        *self == JsonValue::Array(*items),
                        out.len() == i,
                        forall|j: int| 0 <= j < i ==> json_model(#[trigger] out[j]) == json_model(items[j]),
                {
                    proof {
                        assert(decreases_to!(*self => (*self)->Array_0));
                        assert(decreases_to!(*items => items[i as int]));
                    }
                    out.push(items[i].deep_clone());
                }
                let r = JsonValue::Array(out);
                proof {
                    lemma_array_model(out);
                    lemma_array_model(*items);
                    let m1 = r@->Array_0;
                    let m2 = self@->Array_0;
                    assert(m1 =~= m2);
                }
                r
            },
            JsonValue::Object(entries) => {
                let mut out: Vec<(String, JsonValue)> = Vec::new();
                let n = entries.len();
                for i in 0..n
                    invariant
                        n == entries.len(),
                        *self == JsonValue::Object(*entries),
                        out.len() == i,
                        forall|j: int| 0 <= j < i ==> (#[trigger] out[j]).0@ == entries[j].0@ && json_model(out[j].1) == json_model(entries[j].1),
                {
                    proof {
                        assert(decreases_to!(*self => (*self)->Object_0));
                        assert(decreases_to!(*entries => entries[i as int]));
                        assert(decreases_to!(entries[i as int] => entries[i as int].1));
                    }
                    let v = entries[i].1.deep_clone();
                    out.push((entries[i].0.clone(), v));
                }
                let r = JsonValue::Object(out);
                proof {
                    lemma_object_model(out);
                    lemma_object_model(*entries);
                    let m1 = r@->Object_0;
                    let m2 = self@->Object_0;
                    assert(m1 =~= m2);
                }
                r
            },
        }
    }

    /// A string value holding the given characters.
    pub fn from_chars(v: &Vec<char>) -> (r: JsonValue)
        ensures
            r@ == Json::Str(v@),
    {
        JsonValue::Str(crate::text::string_of(v))
    }

    /// An array of strings.
    pub fn from_strings(list: &Vec<String>) -> (r: JsonValue)
        ensures
            r@ == strs_json(crate::html::views(list@)),
    {
        let mut out: Vec<JsonValue> = Vec::new();
        let n = list.len();
        for i in 0..n
            invariant
                n == list@.len(),
                out@.len() == i,
                forall|j: int| 0 <= j < i ==> json_model(#[trigger] out@[j]) == Json::Str(list@[j]@),
        {
            out.push(JsonValue::Str(list[i].clone()));
        }
        proof {
            lemma_array_model(out);
            let m = JsonValue::Array(out)@->Array_0;
            assert(m =~= crate::html::views(list@).map_values(|s: Seq<char>| Json::Str(s)));
        }
        JsonValue::Array(out)
    }

    /// An array of strings given by their characters.
    pub fn from_char_lists(list: &Vec<Vec<char>>) -> (r: JsonValue)
        ensures
            r@ == strs_json(list@.map_values(|v: Vec<char>| v@)),
    {
        let mut out: Vec<JsonValue> = Vec::new();
        let n = list.len();
        for i in 0..n
            invariant
                n == list@.len(),
                out@.len() == i,
                forall|j: int| 0 <= j < i ==> json_model(#[trigger] out@[j]) == Json::Str(list@[j]@),
        {
            out.push(JsonValue::from_chars(&list[i]));
        }
        proof {
            lemma_array_model(out);
            let m = JsonValue::Array(out)@->Array_0;
            assert(m =~= list@.map_values(|v: Vec<char>| v@).map_values(|s: Seq<char>| Json::Str(s)));
        }
        JsonValue::Array(out)
    }

    /// `value.get(key)`.
    pub fn get(&self, key: &str) -> (r: Option<&JsonValue>)
        ensures
            match r {
                Some(v) => self@.get(key@) == Some(v@),
                None => self@.get(key@) is None,
            },
    {
        match self {
            JsonValue::Object(entries) => {
                let ghost es = match self@ {
                    Json::Object(m) => m,
                    _ => Seq::empty(),
                };
                let n = entries.len();
                assert(es.skip(0) =~= es);
                for i in 0..n
                    invariant
                        n == entries.len(),
                        es.len() == n,
                        self@ == Json::Object(es),
                        forall|j: int| 0 <= j < n ==> #[trigger] es[j] == (entries[j].0@, entries[j].1@),
                        lookup(es, key@) == lookup(es.skip(i as int), key@),
                {
                    assert(es.skip(i as int)[0] == es[i as int]);
                    assert(es.skip(i as int).drop_first() == es.skip(i + 1));
                    if str_equal(entries[i].0.as_str(), key) {
                        return Some(&entries[i].1);
                    }
                }
                assert(es.skip(n as int).len() == 0);
                None
            },
            _ => None,
        }
    }

    /// `value.get(i)` on an array.
    pub fn at(&self, i: usize) -> (r: Option<&JsonValue>)
        ensures
            match r {
                Some(v) => self@.at(i as int) == Some(v@),
                None => self@.at(i as int) is None,
            },
    {
        match self {
            JsonValue::Array(items) => if i < items.len() {
                Some(&items[i])
            } else {
                None
            },
            _ => None,
        }
    }

    /// `value.as_str()`.
    pub fn as_str(&self) -> (r: Option<&str>)
        ensures
            match r {
                Some(s) => self@.as_str() == Some(s@),
                None => self@.as_str() is None,
            },
    {
        match self {
            JsonValue::Str(s) => Some(s.as_str()),
            _ => None,
        }
    }

    /// `value.as_u64()`.
    pub fn as_u64(&self) -> (r: Option<u64>)
        ensures
            r == self@.as_u64(),
    {
        match self {
            JsonValue::UInt(u) => Some(*u),
            JsonValue::NegInt(i) => if *i >= 0 {
                Some(*i as u64)
            } else {
                None
            },
            _ => None,
        }
    }

    /// `value.as_array()`.
    pub fn as_array(&self) -> (r: Option<&Vec<JsonValue>>)
        ensures
            match r {
                Some(a) => self@.as_array() matches Some(m) && m.len() == a.len() && forall|j: int|
                    0 <= j < a.len() ==> #[trigger] m[j] == a[j]@,
                None => self@.as_array() is None,
            },
    {
        match self {
            JsonValue::Array(items) => Some(items),
            _ => None,
        }
    }

    /// `value.get(key).and_then(|v| v.as_str())`.
    pub fn str_at(&self, key: &str) -> (r: Option<&str>)
        ensures
            match r {
                Some(t) => str_at(self@, key@) == Some(t@),
                None => str_at(self@, key@) is None,
            },
    {
        match self.get(key) {
            Some(v) => v.as_str(),
            None => None,
        }
    }

    /// `value.get(key).and_then(|v| v.as_u64())`.
    pub fn u64_at(&self, key: &str) -> (r: Option<u64>)
        ensures
            r == u64_at(self@, key@),
    {
        match self.get(key) {
            Some(v) => v.as_u64(),
            None => None,
        }
    }

    /// `value[key]`, copied out.
    pub fn field_value(&self, key: &str) -> (r: JsonValue)
        ensures
            r@ == self@.field(key@),
    {
        match self.get(key) {
            Some(v) => v.deep_clone(),
            None => JsonValue::Null,
        }
    }
}

} // verus!
