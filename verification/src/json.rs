//! The JSON document model that the guidance payloads are built in.
//!
//! `JsonValue` is the executable value; `JsonSpec` is its mathematical view.
//! Objects are association lists in which a later entry for a key overrides
//! an earlier one, which is how an object is read back by `field` and how it
//! is handed to a JSON serializer.
use vstd::prelude::*;
use crate::text::str_eq;

verus! {

/// Mathematical JSON value.
pub enum JsonSpec {
    Null,
    Bool(bool),
    Num(int),
    Str(Seq<char>),
    Arr(Seq<JsonSpec>),
    Obj(Seq<(Seq<char>, JsonSpec)>),
}

/// Executable JSON value.
#[derive(Debug)]
pub enum JsonValue {
    Null,
    Bool(bool),
    Int(i64),
    Uint(u64),
    Str(String),
    Array(Vec<JsonValue>),
    Object(Vec<(String, JsonValue)>),
}

/// The value stored for `key` by the last entry that names it.
pub open spec fn lookup(entries: Seq<(Seq<char>, JsonSpec)>, key: Seq<char>) -> Option<JsonSpec>
    decreases entries.len(),
{
    if entries.len() == 0 {
        None
    } else if entries.last().0 == key {
        Some(entries.last().1)
    } else {
        lookup(entries.drop_last(), key)
    }
}

/// The index of the last entry with the key, -1 when there is none.
pub open spec fn last_key_index(entries: Seq<(Seq<char>, JsonSpec)>, key: Seq<char>) -> int
    decreases entries.len(),
{
    if entries.len() == 0 {
        -1
    } else if entries.last().0 == key {
        entries.len() - 1
    } else {
        last_key_index(entries.drop_last(), key)
    }
}

pub proof fn lemma_last_key_index(entries: Seq<(Seq<char>, JsonSpec)>, key: Seq<char>)
    ensures
        -1 <= last_key_index(entries, key) < entries.len(),
        last_key_index(entries, key) >= 0 ==> entries[last_key_index(entries, key)].0 == key,
        forall|j: int| last_key_index(entries, key) < j < entries.len() ==> (#[trigger] entries[j]).0 != key,
        lookup(entries, key) == (if last_key_index(entries, key) >= 0 {
            Some(entries[last_key_index(entries, key)].1)
        } else {
            None
        }),
    decreases entries.len(),
{
    if entries.len() > 0 && entries.last().0 != key {
        lemma_last_key_index(entries.drop_last(), key);
        assert forall|j: int| last_key_index(entries, key) < j < entries.len() implies (#[trigger] entries[j]).0 != key by {
            if j < entries.len() - 1 {
                assert(entries.drop_last()[j] == entries[j]);
            }
        }
    }
}

/// Replacing or appending an entry of another key leaves a lookup alone.
pub proof fn lemma_lookup_update_other(
    entries: Seq<(Seq<char>, JsonSpec)>,
    i: int,
    x: (Seq<char>, JsonSpec),
    key: Seq<char>,
)
    requires
        0 <= i < entries.len(),
        entries[i].0 != key,
        x.0 != key,
    ensures
        lookup(entries.update(i, x), key) == lookup(entries, key),
    decreases entries.len(),
{
    if i < entries.len() - 1 && entries.last().0 != key {
        assert(entries.update(i, x).drop_last() =~= entries.drop_last().update(i, x));
        lemma_lookup_update_other(entries.drop_last(), i, x, key);
    } else if i == entries.len() - 1 {
        assert(entries.update(i, x).drop_last() =~= entries.drop_last());
    }
}

/// Setting one field leaves every other field as it was.
pub proof fn lemma_put_other_field(e: JsonSpec, k: Seq<char>, v: JsonSpec, other: Seq<char>)
    requires
        k != other,
    ensures
        e.put(k, v).field(other) == e.field(other),
{
    match e {
        JsonSpec::Obj(entries) => {
            lemma_last_key_index(entries, k);
            let i = last_key_index(entries, k);
            if i >= 0 {
                lemma_lookup_update_other(entries, i, (k, v), other);
                assert(e.put(k, v) == JsonSpec::Obj(entries.update(i, (k, v))));
                assert(lookup(entries.update(i, (k, v)), other) == lookup(entries, other));
                assert(e.put(k, v).field(other) == e.field(other));
            } else {
                let pushed = entries.push((k, v));
                assert(pushed.drop_last() =~= entries);
                assert(pushed.last().0 != other);
                assert(lookup(pushed, other) == lookup(entries, other));
                assert(e.put(k, v) == JsonSpec::Obj(pushed));
                assert(e.put(k, v).field(other) == e.field(other));
            }
        },
        _ => {
            let single = seq![(k, v)];
            assert(single.drop_last() =~= Seq::<(Seq<char>, JsonSpec)>::empty());
            assert(lookup(single, other) == lookup(single.drop_last(), other));
        },
    }
}

/// The entry at `i` is the last one with its key, so a lookup finds it.
pub proof fn lemma_lookup_at(entries: Seq<(Seq<char>, JsonSpec)>, key: Seq<char>, i: int)
    requires
        0 <= i < entries.len(),
        entries[i].0 == key,
        forall|j: int| i < j < entries.len() ==> (#[trigger] entries[j]).0 != key,
    ensures
        lookup(entries, key) == Some(entries[i].1),
    decreases entries.len(),
{
    if i < entries.len() - 1 {
        assert(entries.last() == entries[entries.len() - 1]);
        lemma_lookup_at(entries.drop_last(), key, i);
    }
}

/// A field that was just set reads back as the value set.
pub proof fn lemma_put_same_field(e: JsonSpec, k: Seq<char>, v: JsonSpec)
    ensures
        e.put(k, v).field(k) == v,
{
    match e {
        JsonSpec::Obj(entries) => {
            lemma_last_key_index(entries, k);
            let i = last_key_index(entries, k);
            if i >= 0 {
                let updated = entries.update(i, (k, v));
                assert forall|j: int| i < j < updated.len() implies (#[trigger] updated[j]).0 != k by {
                    assert(updated[j] == entries[j]);
                }
                lemma_lookup_at(updated, k, i);
            } else {
                let pushed = entries.push((k, v));
                assert(pushed.last() == (k, v));
            }
        },
        _ => {
            let single = seq![(k, v)];
            assert(single.last() == (k, v));
        },
    }
}

/// A field added with `with_field` reads back as the value added.
pub proof fn lemma_with_field_same(e: JsonSpec, k: Seq<char>, v: JsonSpec)
    ensures
        e.with_field(k, v).field(k) == v,
{
    match e {
        JsonSpec::Obj(entries) => {
            assert(entries.push((k, v)).last() == (k, v));
        },
        _ => {
            assert(seq![(k, v)].last() == (k, v));
        },
    }
}

impl JsonSpec {
    /// `value[key]`: the field of an object, `Null` when absent or not an object.
    pub open spec fn field(self, key: Seq<char>) -> JsonSpec {
        match self {
            JsonSpec::Obj(entries) => match lookup(entries, key) {
                Some(v) => v,
                None => JsonSpec::Null,
            },
            _ => JsonSpec::Null,
        }
    }

    /// `value[i]`: the element of an array, `Null` when out of range or not an array.
    pub open spec fn at(self, i: int) -> JsonSpec {
        match self {
            JsonSpec::Arr(items) => if 0 <= i < items.len() {
                items[i]
            } else {
                JsonSpec::Null
            },
            _ => JsonSpec::Null,
        }
    }

    pub open spec fn str_of(self) -> Option<Seq<char>> {
        match self {
            JsonSpec::Str(s) => Some(s),
            _ => None,
        }
    }

    pub open spec fn bool_of(self) -> Option<bool> {
        match self {
            JsonSpec::Bool(b) => Some(b),
            _ => None,
        }
    }

    /// A number that fits `i64`.
    pub open spec fn i64_of(self) -> Option<int> {
        match self {
            JsonSpec::Num(n) => if i64::MIN <= n <= i64::MAX {
                Some(n)
            } else {
                None
            },
            _ => None,
        }
    }

    pub open spec fn array_of(self) -> Option<Seq<JsonSpec>> {
        match self {
            JsonSpec::Arr(items) => Some(items),
            _ => None,
        }
    }

    /// A non-empty array (`as_array().map(|a| !a.is_empty()).unwrap_or(false)`).
    pub open spec fn is_nonempty_array(self) -> bool {
        match self {
            JsonSpec::Arr(items) => items.len() > 0,
            _ => false,
        }
    }

    /// `as_str().unwrap_or(default)`.
    pub open spec fn str_or(self, default: Seq<char>) -> Seq<char> {
        match self {
            JsonSpec::Str(s) => s,
            _ => default,
        }
    }

    /// `as_bool().unwrap_or(default)`.
    pub open spec fn bool_or(self, default: bool) -> bool {
        match self {
            JsonSpec::Bool(b) => b,
            _ => default,
        }
    }

    /// `as_i64().unwrap_or(default)`.
    pub open spec fn i64_or(self, default: int) -> int {
        match self.i64_of() {
            Some(n) => n,
            None => default,
        }
    }

    /// `value[key] = v` as serde does it: the existing field is replaced in
    /// place, a missing one is appended, and `null` becomes an object.
    pub open spec fn put(self, key: Seq<char>, v: JsonSpec) -> JsonSpec {
        match self {
            JsonSpec::Obj(entries) => {
                let i = last_key_index(entries, key);
                if i >= 0 {
                    JsonSpec::Obj(entries.update(i, (key, v)))
                } else {
                    JsonSpec::Obj(entries.push((key, v)))
                }
            },
            _ => JsonSpec::Obj(seq![(key, v)]),
        }
    }

    /// The object obtained by adding (or overriding) one field.
    pub open spec fn with_field(self, key: Seq<char>, v: JsonSpec) -> JsonSpec {
        match self {
            JsonSpec::Obj(entries) => JsonSpec::Obj(entries.push((key, v))),
            _ => JsonSpec::Obj(seq![(key, v)]),
        }
    }
}

/// A JSON array of strings.
pub open spec fn str_array(items: Seq<Seq<char>>) -> JsonSpec {
    JsonSpec::Arr(items.map_values(|s: Seq<char>| JsonSpec::Str(s)))
}

/// Views of a sequence of JSON values.
pub open spec fn views(items: Seq<JsonValue>) -> Seq<JsonSpec> {
    items.map_values(|v: JsonValue| v@)
}

impl JsonValue {
    pub open spec fn spec_view(&self) -> JsonSpec
        decreases self,
    {
        match self {
            JsonValue::Null => JsonSpec::Null,
            JsonValue::Bool(b) => JsonSpec::Bool(*b),
            JsonValue::Int(n) => JsonSpec::Num(*n as int),
            JsonValue::Uint(n) => JsonSpec::Num(*n as int),
            JsonValue::Str(s) => JsonSpec::Str(s@),
            JsonValue::Array(items) => JsonSpec::Arr(
                Seq::new(
                    items@.len(),
                    |i: int|
                        if 0 <= i < items@.len() {
                            items@[i].spec_view()
                        } else {
                            JsonSpec::Null
                        },
                ),
            ),
            JsonValue::Object(entries) => JsonSpec::Obj(
                Seq::new(
                    entries@.len(),
                    |i: int|
                        if 0 <= i < entries@.len() {
                            (entries@[i].0@, entries@[i].1.spec_view())
                        } else {
                            (Seq::empty(), JsonSpec::Null)
                        },
                ),
            ),
        }
    }
}

impl View for JsonValue {
    type V = JsonSpec;

    open spec fn view(&self) -> JsonSpec {
        self.spec_view()
    }
}

/// JSON string from a slice.
pub fn js(s: &str) -> (r: JsonValue)
    ensures
        r@ == JsonSpec::Str(s@),
{
    JsonValue::Str(String::from_str(s))
}

/// JSON string from an owned string.
pub fn jstring(s: String) -> (r: JsonValue)
    ensures
        r@ == JsonSpec::Str(s@),
{
    JsonValue::Str(s)
}

/// JSON boolean.
pub fn jbool(b: bool) -> (r: JsonValue)
    ensures
        r@ == JsonSpec::Bool(b),
{
    JsonValue::Bool(b)
}

/// JSON number from a `usize`.
pub fn jusize(n: usize) -> (r: JsonValue)
    ensures
        r@ == JsonSpec::Num(n as int),
{
    JsonValue::Uint(n as u64)
}

/// JSON number from an `i64`.
pub fn ji64(n: i64) -> (r: JsonValue)
    ensures
        r@ == JsonSpec::Num(n as int),
{
    JsonValue::Int(n)
}

/// JSON array of the given values.
pub fn jarr(items: Vec<JsonValue>) -> (r: JsonValue)
    ensures
        r@ == JsonSpec::Arr(views(items@)),
{
    let r = JsonValue::Array(items);
    assert(r@.array_of().unwrap() =~= views(items@));
    r
}

/// JSON array of string literals.
pub fn jstrs(items: Vec<&str>) -> (r: JsonValue)
    ensures
        r@ == str_array(items@.map_values(|s: &str| s@)),
{
    let mut out: Vec<JsonValue> = Vec::new();
    let mut i: usize = 0;
    while i < items.len()
        invariant
            i <= items@.len(),
            out@.len() == i,
            forall|j: int| 0 <= j < i ==> (#[trigger] out@[j])@ == JsonSpec::Str(items@[j]@),
        decreases items@.len() - i,
    {
        out.push(js(items[i]));
        i = i + 1;
    }
    let r = jarr(out);
    assert(views(out@) =~= items@.map_values(|s: &str| s@).map_values(|s: Seq<char>| JsonSpec::Str(s)));
    r
}

/// A JSON array of two strings.
pub fn jstr_pair(a: &str, b: &str) -> (r: JsonValue)
    ensures
        r@ == str_array(seq![a@, b@]),
{
    let items = vec![a, b];
    let r = jstrs(items);
    assert(items@.map_values(|s: &str| s@) =~= seq![a@, b@]);
    r
}

/// A JSON array of one string.
pub fn jstr_one(a: &str) -> (r: JsonValue)
    ensures
        r@ == str_array(seq![a@]),
{
    let items = vec![a];
    let r = jstrs(items);
    assert(items@.map_values(|s: &str| s@) =~= seq![a@]);
    r
}

/// A JSON array of three strings.
pub fn jstr3(a: &str, b: &str, c: &str) -> (r: JsonValue)
    ensures
        r@ == str_array(seq![a@, b@, c@]),
{
    let items = vec![a, b, c];
    let r = jstrs(items);
    assert(items@.map_values(|s: &str| s@) =~= seq![a@, b@, c@]);
    r
}

/// A JSON array of four strings.
pub fn jstr4(a: &str, b: &str, c: &str, d: &str) -> (r: JsonValue)
    ensures
        r@ == str_array(seq![a@, b@, c@, d@]),
{
    let items = vec![a, b, c, d];
    let r = jstrs(items);
    assert(items@.map_values(|s: &str| s@) =~= seq![a@, b@, c@, d@]);
    r
}

/// An empty JSON array.
pub fn jempty_arr() -> (r: JsonValue)
    ensures
        r@ == JsonSpec::Arr(seq![]),
{
    let r = JsonValue::Array(Vec::new());
    assert(r@->Arr_0 =~= seq![]);
    r
}

/// JSON array of owned strings.
pub fn jstrings(items: Vec<String>) -> (r: JsonValue)
    ensures
        r@ == str_array(items@.map_values(|s: String| s@)),
{
    let ghost orig = items@;
    let mut out: Vec<JsonValue> = Vec::new();
    let mut rest = items;
    while rest.len() > 0
        invariant
            out@.len() + rest@.len() == orig.len(),
            rest@ == orig.subrange(out@.len() as int, orig.len() as int),
            forall|j: int| 0 <= j < out@.len() ==> (#[trigger] out@[j])@ == JsonSpec::Str(orig[j]@),
        decreases rest@.len(),
    {
        let ghost k = out@.len();
        let s = rest.remove(0);
        assert(s == orig[k as int]);
        out.push(jstring(s));
        assert(rest@ =~= orig.subrange(out@.len() as int, orig.len() as int));
    }
    let r = jarr(out);
    assert(views(out@) =~= orig.map_values(|s: String| s@).map_values(|s: Seq<char>| JsonSpec::Str(s)));
    r
}

/// JSON object with the given fields, in order.
pub fn jobj(entries: Vec<(&str, JsonValue)>) -> (r: JsonValue)
    ensures
        r@ == JsonSpec::Obj(entries@.map_values(|e: (&str, JsonValue)| (e.0@, e.1@))),
{
    let ghost orig = entries@;
    let mut out: Vec<(String, JsonValue)> = Vec::new();
    let mut rest = entries;
    while rest.len() > 0
        invariant
            out@.len() + rest@.len() == orig.len(),
            rest@ == orig.subrange(out@.len() as int, orig.len() as int),
            forall|j: int|
                0 <= j < out@.len() ==> (#[trigger] out@[j]).0@ == orig[j].0@ && out@[j].1@
                    == orig[j].1@,
        decreases rest@.len(),
    {
        let ghost k = out@.len();
        let e = rest.remove(0);
        assert(e == orig[k as int]);
        let (key, value) = e;
        out.push((String::from_str(key), value));
        assert(rest@ =~= orig.subrange(out@.len() as int, orig.len() as int));
    }
    let r = JsonValue::Object(out);
    assert(r@ == JsonSpec::Obj(orig.map_values(|e: (&str, JsonValue)| (e.0@, e.1@)))) by {
        assert(r@->Obj_0 =~= orig.map_values(|e: (&str, JsonValue)| (e.0@, e.1@)));
    }
    r
}

/// An empty JSON object.
pub fn jempty_obj() -> (r: JsonValue)
    ensures
        r@ == JsonSpec::Obj(seq![]),
{
    let r = JsonValue::Object(Vec::new());
    assert(r@->Obj_0 =~= seq![]);
    r
}

impl JsonValue {
    /// A copy with the same view.
    pub fn dup(&self) -> (r: JsonValue)
        ensures
            r@ == self@,
        decreases self,
    {
        match self {
            JsonValue::Null => JsonValue::Null,
            JsonValue::Bool(b) => JsonValue::Bool(*b),
            JsonValue::Int(n) => JsonValue::Int(*n),
            JsonValue::Uint(n) => JsonValue::Uint(*n),
            JsonValue::Str(s) => JsonValue::Str(s.clone()),
            JsonValue::Array(items) => {
                let mut out: Vec<JsonValue> = Vec::new();
                let mut i: usize = 0;
                while i < items.len()
                    invariant
                        i <= items@.len(),
                        out@.len() == i,
                        *self == JsonValue::Array(*items),
                        forall|j: int| 0 <= j < i ==> (#[trigger] out@[j])@ == items@[j]@,
                    decreases items@.len() - i,
                {
                    proof {
                        assert(decreases_to!(*items => items@));
                        assert(decreases_to!(items@ => items@[i as int]));
                        assert(decreases_to!(*self => (*self)->Array_0));
                        assert(decreases_to!(*self => items@[i as int]));
                    }
                    out.push(items[i].dup());
                    i = i + 1;
                }
                let r = JsonValue::Array(out);
                assert(r@->Arr_0 =~= self@->Arr_0);
                r
            },
            JsonValue::Object(entries) => {
                let mut out: Vec<(String, JsonValue)> = Vec::new();
                let mut i: usize = 0;
                while i < entries.len()
                    invariant
                        i <= entries@.len(),
                        out@.len() == i,
                        *self == JsonValue::Object(*entries),
                        forall|j: int|
                            0 <= j < i ==> (#[trigger] out@[j]).0@ == entries@[j].0@ && out@[j].1@
                                == entries@[j].1@,
                    decreases entries@.len() - i,
                {
                    proof {
                        assert(decreases_to!(*entries => entries@));
                        assert(decreases_to!(entries@ => entries@[i as int]));
                        assert(decreases_to!(entries@[i as int] => entries@[i as int].1));
                        assert(decreases_to!(*self => (*self)->Object_0));
                        assert(decreases_to!(*self => entries@[i as int].1));
                    }
                    let k = entries[i].0.clone();
                    let v = entries[i].1.dup();
                    out.push((k, v));
                    i = i + 1;
                }
                let r = JsonValue::Object(out);
                assert(r@->Obj_0 =~= self@->Obj_0);
                r
            },
        }
    }

    /// `value[key]` when present: the last entry of an object that names `key`.
    pub fn get(&self, key: &str) -> (r: Option<&JsonValue>)
        ensures
            r is None ==> self@.field(key@) == JsonSpec::Null,
            r matches Some(v) ==> v@ == self@.field(key@),
            r is Some <==> (self@ is Obj && lookup(self@->Obj_0, key@) is Some),
    {
        match self {
            JsonValue::Object(entries) => {
                let ghost es = self@->Obj_0;
                let mut i: usize = entries.len();
                assert(es.subrange(0, i as int) =~= es);
                while i > 0
                    invariant
                        i <= entries@.len(),
                        es.len() == entries@.len(),
                        es == self@->Obj_0,
                        self@ == JsonSpec::Obj(es),
                        lookup(es, key@) == lookup(es.subrange(0, i as int), key@),
                        forall|j: int| 0 <= j < entries@.len() ==> (#[trigger] es[j]) == (entries@[j].0@, entries@[j].1@),
                    decreases i,
                {
                    if str_eq(entries[i - 1].0.as_str(), key) {
                        proof {
                            let pre = es.subrange(0, i as int);
                            assert(pre.last() == es[i - 1]);
                            assert(es[i - 1] == (entries@[i - 1].0@, entries@[i - 1].1@));
                            assert(pre.last().0 == key@);
                            assert(lookup(pre, key@) == Some(entries@[i - 1].1@));
                        }
                        return Some(&entries[i - 1].1);
                    }
                    proof {
                        let pre = es.subrange(0, i as int);
                        assert(pre.drop_last() =~= es.subrange(0, i - 1));
                    }
                    i = i - 1;
                }
                None
            },
            _ => None,
        }
    }

    /// `value[key].as_str()`.
    pub fn get_str(&self, key: &str) -> (r: Option<&str>)
        ensures
            r is Some <==> self@.field(key@) is Str,
            r matches Some(s) ==> self@.field(key@) == JsonSpec::Str(s@),
    {
        match self.get(key) {
            Some(JsonValue::Str(s)) => Some(s.as_str()),
            _ => None,
        }
    }

    /// `value[key].as_bool()`.
    pub fn get_bool(&self, key: &str) -> (r: Option<bool>)
        ensures
            r == self@.field(key@).bool_of(),
    {
        match self.get(key) {
            Some(JsonValue::Bool(b)) => Some(*b),
            _ => None,
        }
    }

    /// `value.as_i64()`.
    pub fn as_i64(&self) -> (r: Option<i64>)
        ensures
            r is Some <==> self@.i64_of() is Some,
            r matches Some(n) ==> self@.i64_of() == Some(n as int),
    {
        match self {
            JsonValue::Int(n) => Some(*n),
            JsonValue::Uint(n) => if *n <= 9223372036854775807u64 {
                Some(*n as i64)
            } else {
                None
            },
            _ => None,
        }
    }

    /// `value[key].as_i64()`.
    pub fn get_i64(&self, key: &str) -> (r: Option<i64>)
        ensures
            r is Some <==> self@.field(key@).i64_of() is Some,
            r matches Some(n) ==> self@.field(key@).i64_of() == Some(n as int),
    {
        match self.get(key) {
            Some(v) => v.as_i64(),
            None => None,
        }
    }


    /// `value[key].as_array()`.
    pub fn get_array(&self, key: &str) -> (r: Option<&Vec<JsonValue>>)
        ensures
            r is Some <==> self@.field(key@) is Arr,
            r matches Some(items) ==> self@.field(key@) == JsonSpec::Arr(views(items@)),
    {
        match self.get(key) {
            Some(JsonValue::Array(items)) => {
                proof {
                    let v = JsonValue::Array(*items);
                    assert(v@->Arr_0 =~= views(items@));
                }
                Some(items)
            },
            _ => None,
        }
    }

    /// `value[key]`, copied; `Null` when absent.
    pub fn field(&self, key: &str) -> (r: JsonValue)
        ensures
            r@ == self@.field(key@),
    {
        match self.get(key) {
            Some(v) => v.dup(),
            None => JsonValue::Null,
        }
    }

    /// `value[key] = v`, replacing an existing field in place.
    pub fn put(&mut self, key: &str, v: JsonValue)
        requires
            old(self)@ is Obj || old(self)@ is Null,
        ensures
            final(self)@ == old(self)@.put(key@, v@),
    {
        let ghost pre = self@;
        match self {
            JsonValue::Object(entries) => {
                let ghost es = pre->Obj_0;
                assert(es =~= entries@.map_values(|e: (String, JsonValue)| (e.0@, e.1@))) by {
                    assert(forall|k: int| 0 <= k < es.len() ==> #[trigger] es[k] == (entries@[k].0@, entries@[k].1@));
                }
                let mut j: usize = entries.len();
                let mut found = false;
                assert(es.subrange(0, j as int) =~= es);
                while j > 0
                    invariant_except_break
                        j <= entries@.len(),
                        es == entries@.map_values(|e: (String, JsonValue)| (e.0@, e.1@)),
                        last_key_index(es, key@) == last_key_index(es.subrange(0, j as int), key@),
                        !found,
                    ensures
                        j <= entries@.len(),
                        es == entries@.map_values(|e: (String, JsonValue)| (e.0@, e.1@)),
                        found ==> j > 0 && last_key_index(es, key@) == j - 1,
                        !found ==> last_key_index(es, key@) == -1,
                    decreases j,
                {
                    proof {
                        assert(es.subrange(0, j as int).drop_last() =~= es.subrange(0, j - 1));
                    }
                    if crate::text::str_eq(entries[j - 1].0.as_str(), key) {
                        found = true;
                        break;
                    }
                    j = j - 1;
                }
                if found {
                    entries.set(j - 1, (String::from_str(key), v));
                    proof {
                        assert(final(self)@->Obj_0 =~= es.update(j - 1, (key@, v@)));
                    }
                } else {
                    entries.push((String::from_str(key), v));
                    proof {
                        assert(final(self)@->Obj_0 =~= es.push((key@, v@)));
                    }
                }
            },
            _ => {
                let mut entries: Vec<(String, JsonValue)> = Vec::new();
                entries.push((String::from_str(key), v));
                *self = JsonValue::Object(entries);
                assert(self@->Obj_0 =~= seq![(key@, v@)]);
            },
        }
    }

    /// `value[key] = v` on an object (or on `Null`, which becomes an object).
    pub fn set(&mut self, key: &str, v: JsonValue)
        requires
            old(self)@ is Obj || old(self)@ is Null,
        ensures
            final(self)@ == old(self)@.with_field(key@, v@),
    {
        let ghost pre = self@;
        match self {
            JsonValue::Object(entries) => {
                let ghost es = entries@;
                entries.push((String::from_str(key), v));
                proof {
                    assert(final(self)@->Obj_0 =~= pre->Obj_0.push((key@, v@)));
                }
            },
            _ => {
                let mut entries: Vec<(String, JsonValue)> = Vec::new();
                entries.push((String::from_str(key), v));
                *self = JsonValue::Object(entries);
                assert(self@->Obj_0 =~= seq![(key@, v@)]);
            },
        }
    }
}

} // verus!
