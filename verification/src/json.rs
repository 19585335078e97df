//! A JSON value model that the rest of the library reasons about.
use vstd::prelude::*;
use vstd::string::*;

use serde_json::Value;

verus! {

/// A JSON number, classified the way `serde_json` classifies it.
#[derive(Debug)]
pub enum JsonNumber {
    /// A non-negative integer.
    PosInt(u64),
    /// A negative integer.
    NegInt(i64),
    /// Any other number, kept as its canonical decimal text. When a value is
    /// printed as JSON the text is read back as a number; a text that is not
    /// one (possible only in values built by hand) prints as `null`.
    Float(String),
}

/// A JSON value. Object entries keep their order; lookups find the first
/// entry with a given key.
#[derive(Debug)]
pub enum Json {
    Null,
    Bool(bool),
    Number(JsonNumber),
    Str(String),
    Array(Vec<Json>),
    Object(Vec<(String, Json)>),
}

/// The mathematical view of a [`JsonNumber`].
pub enum NumberV {
    PosInt(u64),
    NegInt(i64),
    Float(Seq<char>),
}

/// The mathematical view of a [`Json`] value.
pub enum JsonV {
    Null,
    Bool(bool),
    Number(NumberV),
    Str(Seq<char>),
    Array(Seq<JsonV>),
    Object(Seq<(Seq<char>, JsonV)>),
}

impl View for JsonNumber {
    type V = NumberV;

    open spec fn view(&self) -> NumberV {
        match self {
            JsonNumber::PosInt(u) => NumberV::PosInt(*u),
            JsonNumber::NegInt(i) => NumberV::NegInt(*i),
            JsonNumber::Float(t) => NumberV::Float(t@),
        }
    }
}

pub open spec fn view_json(j: Json) -> JsonV
    decreases j,
{
    match j {
        Json::Null => JsonV::Null,
        Json::Bool(b) => JsonV::Bool(b),
        Json::Number(n) => JsonV::Number(n@),
        Json::Str(s) => JsonV::Str(s@),
        Json::Array(items) => JsonV::Array(
            Seq::new(
                items@.len(),
                |i: int|
                    if 0 <= i < items@.len() {
                        proof {
                            assert(decreases_to!(items@ => items@[i]));
                        }
                        view_json(items@[i])
                    } else {
                        JsonV::Null
                    },
            ),
        ),
        Json::Object(entries) => JsonV::Object(
            Seq::new(
                entries@.len(),
                |i: int|
                    if 0 <= i < entries@.len() {
                        proof {
                            assert(decreases_to!(entries@ => entries@[i]));
                        }
                        (entries@[i].0@, view_json(entries@[i].1))
                    } else {
                        (Seq::empty(), JsonV::Null)
                    },
            ),
        ),
    }
}

} // verus!

verus! {

impl View for Json {
    type V = JsonV;

    open spec fn view(&self) -> JsonV {
        view_json(*self)
    }
}

/// The view of a list of object entries.
pub open spec fn entries_view(es: Seq<(String, Json)>) -> Seq<(Seq<char>, JsonV)> {
    Seq::new(es.len(), |i: int| (es[i].0@, view_json(es[i].1)))
}

/// The view of a list of array items.
pub open spec fn items_view(items: Seq<Json>) -> Seq<JsonV> {
    Seq::new(items.len(), |i: int| view_json(items[i]))
}

pub proof fn lemma_view_object(es: Vec<(String, Json)>)
    ensures
        view_json(Json::Object(es)) == JsonV::Object(entries_view(es@)),
{
    assert(entries_view(es@) =~= match view_json(Json::Object(es)) {
        JsonV::Object(v) => v,
        _ => Seq::empty(),
    });
}

pub proof fn lemma_view_array(items: Vec<Json>)
    ensures
        view_json(Json::Array(items)) == JsonV::Array(items_view(items@)),
{
    assert(items_view(items@) =~= match view_json(Json::Array(items)) {
        JsonV::Array(v) => v,
        _ => Seq::empty(),
    });
}

/// `i` is the first position of an entry keyed `k`.
pub open spec fn first_key_at(es: Seq<(Seq<char>, JsonV)>, k: Seq<char>, i: int) -> bool {
    &&& 0 <= i < es.len()
    &&& es[i].0 == k
    &&& forall|j: int| 0 <= j < i ==> es[j].0 != k
}

/// Position of the first entry keyed `k`, or -1 when there is none.
pub open spec fn key_index(es: Seq<(Seq<char>, JsonV)>, k: Seq<char>) -> int {
    if exists|i: int| first_key_at(es, k, i) {
        choose|i: int| first_key_at(es, k, i)
    } else {
        -1
    }
}

pub proof fn lemma_key_index(es: Seq<(Seq<char>, JsonV)>, k: Seq<char>)
    ensures
        key_index(es, k) == -1 <==> (forall|j: int| 0 <= j < es.len() ==> es[j].0 != k),
        key_index(es, k) != -1 ==> first_key_at(es, k, key_index(es, k)),
{
    if exists|i: int| first_key_at(es, k, i) {
        let i = choose|i: int| first_key_at(es, k, i);
        assert(es[i].0 == k);
    } else {
        assert forall|j: int| 0 <= j < es.len() implies es[j].0 != k by {
            if es[j].0 == k {
                // the smallest such position would be a first position
                lemma_first_position(es, k, j);
            }
        }
    }
}

proof fn lemma_first_position(es: Seq<(Seq<char>, JsonV)>, k: Seq<char>, j: int)
    requires
        0 <= j < es.len(),
        es[j].0 == k,
    ensures
        exists|i: int| first_key_at(es, k, i),
    decreases j,
{
    if exists|m: int| 0 <= m < j && es[m].0 == k {
        let m = choose|m: int| 0 <= m < j && es[m].0 == k;
        lemma_first_position(es, k, m);
    } else {
        assert(first_key_at(es, k, j));
    }
}

/// The value stored under key `k` in an object view (first match).
pub open spec fn lookup(v: JsonV, k: Seq<char>) -> Option<JsonV> {
    match v {
        JsonV::Object(es) => if key_index(es, k) >= 0 {
            Some(es[key_index(es, k)].1)
        } else {
            None
        },
        _ => None,
    }
}

/// The entries after storing `v` under `k`: the first entry keyed `k` is
/// replaced, or a new entry is appended at the end.
pub open spec fn entries_insert(es: Seq<(Seq<char>, JsonV)>, k: Seq<char>, v: JsonV) -> Seq<
    (Seq<char>, JsonV),
> {
    if key_index(es, k) >= 0 {
        es.update(key_index(es, k), (k, v))
    } else {
        es.push((k, v))
    }
}

/// Position of the first entry whose key equals `key`.
pub fn find_key(entries: &Vec<(String, Json)>, key: &str) -> (r: Option<usize>)
    ensures
        match r {
            Some(i) => key_index(entries_view(entries@), key@) == i as int,
            None => key_index(entries_view(entries@), key@) == -1,
        },
{
    let ghost es = entries_view(entries@);
    let k = String::from_str(key);
    let mut i: usize = 0;
    while i < entries.len()
        invariant
            0 <= i <= entries.len(),
            es == entries_view(entries@),
            k@ == key@,
            forall|j: int| 0 <= j < i ==> es[j].0 != key@,
        decreases entries.len() - i,
    {
        if entries[i].0 == k {
            proof {
                assert(first_key_at(es, key@, i as int));
                lemma_key_index(es, key@);
                if key_index(es, key@) != i {
                    assert(first_key_at(es, key@, key_index(es, key@)));
                }
            }
            return Some(i);
        }
        i = i + 1;
    }
    proof {
        lemma_key_index(es, key@);
    }
    None
}

/// Stores `value` under `key`, replacing the first entry with that key or
/// appending a new entry.
pub fn insert_entry(entries: &mut Vec<(String, Json)>, key: String, value: Json)
    ensures
        entries_view(final(entries)@) == entries_insert(entries_view(old(entries)@), key@, value@),
        keys_unique(entries_view(old(entries)@)) ==> keys_unique(entries_view(final(entries)@)),
{
    let ghost es = entries_view(entries@);
    let ghost k = key@;
    let ghost v = value@;
    match find_key(entries, key.as_str()) {
        Some(i) => {
            entries.set(i, (key, value));
            assert(entries_view(entries@) =~= es.update(i as int, (k, v)));
        },
        None => {
            entries.push((key, value));
            assert(entries_view(entries@) =~= es.push((k, v)));
        },
    }
    proof {
        if keys_unique(es) {
            lemma_insert_keeps_unique(es, k, v);
        }
    }
}

impl Json {
    /// The value under `key` when `self` is an object.
    pub fn get(&self, key: &str) -> (r: Option<&Json>)
        ensures
            match r {
                Some(x) => lookup(self@, key@) == Some(x@),
                None => lookup(self@, key@) is None,
            },
    {
        match self {
            Json::Object(entries) => {
                proof {
                    lemma_view_object(*entries);
                }
                match find_key(entries, key) {
                    Some(i) => Some(&entries[i].1),
                    None => None,
                }
            },
            _ => None,
        }
    }

    /// The text when `self` is a string.
    pub fn as_str(&self) -> (r: Option<&str>)
        ensures
            match r {
                Some(s) => self@ == JsonV::Str(s@),
                None => !(self@ is Str),
            },
    {
        match self {
            Json::Str(s) => Some(s.as_str()),
            _ => None,
        }
    }

    /// Whether `self` is an array.
    pub fn is_array(&self) -> (r: bool)
        ensures
            r == (self@ is Array),
    {
        match self {
            Json::Array(_) => true,
            _ => false,
        }
    }
}

/// Reading a key right after storing it gives back what was stored.
pub proof fn law_lookup_after_insert(es: Seq<(Seq<char>, JsonV)>, k: Seq<char>, v: JsonV)
    ensures
        lookup(JsonV::Object(entries_insert(es, k, v)), k) == Some(v),
{
    lemma_key_index(es, k);
    let es2 = entries_insert(es, k, v);
    lemma_key_index(es2, k);
    if key_index(es, k) >= 0 {
        let i = key_index(es, k);
        assert(first_key_at(es2, k, i));
        if key_index(es2, k) != i {
            assert(first_key_at(es2, k, key_index(es2, k)));
        }
    } else {
        assert(first_key_at(es2, k, es.len() as int));
        if key_index(es2, k) != es.len() {
            assert(first_key_at(es2, k, key_index(es2, k)));
        }
    }
}

/// Storing under one key leaves every other key's value as it was.
pub proof fn law_lookup_other_after_insert(
    es: Seq<(Seq<char>, JsonV)>,
    k: Seq<char>,
    v: JsonV,
    other: Seq<char>,
)
    requires
        other != k,
    ensures
        lookup(JsonV::Object(entries_insert(es, k, v)), other) == lookup(JsonV::Object(es), other),
{
    lemma_key_index(es, k);
    lemma_key_index(es, other);
    let es2 = entries_insert(es, k, v);
    lemma_key_index(es2, other);
    if key_index(es, other) >= 0 {
        let i = key_index(es, other);
        assert(first_key_at(es2, other, i));
        if key_index(es2, other) != i {
            assert(first_key_at(es2, other, key_index(es2, other)));
        }
    } else {
        if key_index(es2, other) >= 0 {
            assert(first_key_at(es2, other, key_index(es2, other)));
        }
    }
}

} // verus!

verus! {

/// `serde_json::Value`, carried opaquely between the conversions below.
#[verifier::external_type_specification]
#[verifier::external_body]
pub struct ExValue(serde_json::Value);

/// Converts a `serde_json` value into the library's model, variant by
/// variant; object entries come out in the map's iteration order.
#[verifier::external_body]
fn json_from_value(v: Value) -> Json {
    match v {
        Value::Null => Json::Null,
        Value::Bool(b) => Json::Bool(b),
        Value::Number(n) => Json::Number(match (n.as_u64(), n.as_i64()) {
            (Some(u), _) => JsonNumber::PosInt(u),
            (None, Some(i)) => JsonNumber::NegInt(i),
            (None, None) => JsonNumber::Float(n.to_string()),
        }),
        Value::String(s) => Json::Str(s),
        Value::Array(a) => Json::Array(a.into_iter().map(json_from_value).collect()),
        Value::Object(o) => Json::Object(
            o.into_iter().map(|(k, x)| (k, json_from_value(x))).collect(),
        ),
    }
}

/// Converts the library's model back into a `serde_json` value, variant by
/// variant. A `Float` whose text does not parse as a number becomes `null`.
#[verifier::external_body]
fn value_from_json(j: &Json) -> Value {
    match j {
        Json::Null => Value::Null,
        Json::Bool(b) => Value::Bool(*b),
        Json::Number(JsonNumber::PosInt(u)) => Value::Number((*u).into()),
        Json::Number(JsonNumber::NegInt(i)) => Value::Number((*i).into()),
        Json::Number(JsonNumber::Float(t)) => t.parse().map_or(Value::Null, Value::Number),
        Json::Str(s) => Value::String(s.clone()),
        Json::Array(a) => Value::Array(a.iter().map(value_from_json).collect()),
        Json::Object(es) => Value::Object(
            es.iter().map(|(k, x)| (k.clone(), value_from_json(x))).collect(),
        ),
    }
}

/// What `serde_json::from_str::<serde_json::Value>` makes of a text: the
/// parsed value, or the text of its error.
pub uninterp spec fn json_parse(text: Seq<char>) -> Result<JsonV, Seq<char>>;

/// The text that `serde_json::to_string_pretty` prints for a value.
pub uninterp spec fn json_pretty(v: JsonV) -> Seq<char>;

/// The text that `serde_json::to_string` prints for a value.
pub uninterp spec fn json_compact(v: JsonV) -> Seq<char>;

/// Parses JSON text with `serde_json::from_str`. The contract says that the
/// outcome is the one `json_parse` names for this text, and that a parsed
/// value's objects have unique keys listed in increasing order (a
/// `serde_json` map is a `BTreeMap` keyed by `String`).
#[verifier::external_body]
pub(crate) fn parse_json(text: &str) -> (r: Result<Json, String>)
    ensures
        match r {
            Ok(j) => json_parse(text@) == Ok::<JsonV, Seq<char>>(j@) && json_wf(j@) && json_sorted(
                j@,
            ),
            Err(e) => json_parse(text@) == Err::<JsonV, Seq<char>>(e@),
        },
{
    match serde_json::from_str::<serde_json::Value>(text) {
        Ok(v) => Ok(json_from_value(v)),
        Err(e) => Err(e.to_string()),
    }
}

/// Pretty-prints with `serde_json::to_string_pretty` (which cannot fail on a
/// value whose keys are strings). The contract names the text only; a
/// `Float` whose text is not a number prints as `null`.
#[verifier::external_body]
pub(crate) fn pretty_text(j: &Json) -> (r: String)
    ensures
        r@ == json_pretty(j@),
{
    serde_json::to_string_pretty(&value_from_json(j)).unwrap_or_default()
}

/// Prints compactly with `serde_json::to_string` (which cannot fail on a value
/// whose keys are strings). The contract names the text only; a `Float`
/// whose text is not a number prints as `null`.
#[verifier::external_body]
pub(crate) fn compact_text(j: &Json) -> (r: String)
    ensures
        r@ == json_compact(j@),
{
    serde_json::to_string(&value_from_json(j)).unwrap_or_default()
}

} // verus!

verus! {

impl JsonNumber {
    /// A copy with the same view.
    pub fn duplicate(&self) -> (r: JsonNumber)
        ensures
            r@ == self@,
    {
        match self {
            JsonNumber::PosInt(u) => JsonNumber::PosInt(*u),
            JsonNumber::NegInt(i) => JsonNumber::NegInt(*i),
            JsonNumber::Float(t) => JsonNumber::Float(t.clone()),
        }
    }
}

impl Json {
    /// A deep copy with the same view.
    #[verifier::loop_isolation(false)]
    pub fn duplicate(&self) -> (r: Json)
        ensures
            r@ == self@,
        decreases self,
    {
        match self {
            Json::Null => Json::Null,
            Json::Bool(b) => Json::Bool(*b),
            Json::Number(n) => Json::Number(n.duplicate()),
            Json::Str(s) => Json::Str(s.clone()),
            Json::Array(items) => {
                let mut out: Vec<Json> = Vec::new();
                let mut i: usize = 0;
                while i < items.len()
                    invariant
                        i <= items.len(),
                        out@.len() == i,
                        forall|k: int| 0 <= k < i ==> #[trigger] view_json(out@[k]) == view_json(items@[k]),
                    decreases items.len() - i,
                {
                    assert(decreases_to!(*self => items@[i as int])) by {
                        assert(decreases_to!(*items => items@));
                        assert(decreases_to!(items@ => items@[i as int]));
                    }
                    out.push(items[i].duplicate());
                    i = i + 1;
                }
                proof {
                    lemma_view_array(*items);
                    lemma_view_array(out);
                    assert(items_view(out@) =~= items_view(items@));
                }
                Json::Array(out)
            },
            Json::Object(entries) => {
                let mut out: Vec<(String, Json)> = Vec::new();
                let mut i: usize = 0;
                while i < entries.len()
                    invariant
                        i <= entries.len(),
                        out@.len() == i,
                        forall|k: int|
                            0 <= k < i ==> #[trigger] out@[k].0@ == entries@[k].0@ && view_json(
                                out@[k].1,
                            ) == view_json(entries@[k].1),
                    decreases entries.len() - i,
                {
                    assert(decreases_to!(*self => entries@[i as int].1)) by {
                        assert(decreases_to!(*entries => entries@));
                        assert(decreases_to!(entries@ => entries@[i as int]));
                        assert(decreases_to!(entries@[i as int] => entries@[i as int].1));
                    }
                    let v = entries[i].1.duplicate();
                    out.push((entries[i].0.clone(), v));
                    i = i + 1;
                }
                proof {
                    lemma_view_object(*entries);
                    lemma_view_object(out);
                    assert(entries_view(out@) =~= entries_view(entries@));
                }
                Json::Object(out)
            },
        }
    }
}

} // verus!

verus! {

/// `v` with `x` stored under `k` when `v` is an object; other values are
/// left as they are.
pub open spec fn json_set(v: JsonV, k: Seq<char>, x: JsonV) -> JsonV {
    match v {
        JsonV::Object(es) => JsonV::Object(entries_insert(es, k, x)),
        other => other,
    }
}

/// An object's member under `k` is the value of its first entry keyed `k`.
pub proof fn lemma_lookup_at(es: Seq<(Seq<char>, JsonV)>, k: Seq<char>, i: int)
    requires
        first_key_at(es, k, i),
    ensures
        lookup(JsonV::Object(es), k) == Some(es[i].1),
{
    lemma_key_index(es, k);
    if key_index(es, k) != i {
        assert(first_key_at(es, k, key_index(es, k)));
    }
}

/// An object has no member under a key none of its entries carries.
pub proof fn lemma_lookup_absent(es: Seq<(Seq<char>, JsonV)>, k: Seq<char>)
    requires
        forall|j: int| 0 <= j < es.len() ==> es[j].0 != k,
    ensures
        lookup(JsonV::Object(es), k) is None,
{
    lemma_key_index(es, k);
}

/// Reading an object right after `set`: the stored value under that key,
/// and every other key as it was.
pub broadcast proof fn lemma_lookup_after_set(v: JsonV, k: Seq<char>, x: JsonV, other: Seq<char>)
    requires
        v is Object,
    ensures
        #[trigger] lookup(json_set(v, k, x), other) == (if other == k {
            Some(x)
        } else {
            lookup(v, other)
        }),
        json_set(v, k, x) is Object,
{
    if let JsonV::Object(es) = v {
        if other == k {
            law_lookup_after_insert(es, k, x);
        } else {
            law_lookup_other_after_insert(es, k, x, other);
        }
    }
}

impl Json {
    /// Stores `value` under `key` when `self` is an object (replacing the
    /// first entry with that key, or appending); does nothing otherwise.
    pub fn set(&mut self, key: String, value: Json)
        ensures
            final(self)@ == json_set(old(self)@, key@, value@),
            json_wf(old(self)@) && json_wf(value@) ==> json_wf(final(self)@),
    {
        proof {
            if json_wf(self@) && json_wf(value@) {
                law_set_keeps_wf(self@, key@, value@);
            }
        }
        match self {
            Json::Object(entries) => {
                proof {
                    lemma_view_object(*entries);
                }
                insert_entry(entries, key, value);
                proof {
                    lemma_view_object(*entries);
                }
            },
            _ => {},
        }
    }
}

} // verus!

verus! {

impl Json {
    /// Whether two values are the same JSON value.
    #[verifier::loop_isolation(false)]
    pub fn equals(&self, other: &Json) -> (r: bool)
        ensures
            r == (self@ == other@),
        decreases self,
    {
        match (self, other) {
            (Json::Null, Json::Null) => true,
            (Json::Bool(a), Json::Bool(b)) => *a == *b,
            (Json::Number(a), Json::Number(b)) => match (a, b) {
                (JsonNumber::PosInt(x), JsonNumber::PosInt(y)) => *x == *y,
                (JsonNumber::NegInt(x), JsonNumber::NegInt(y)) => *x == *y,
                (JsonNumber::Float(x), JsonNumber::Float(y)) => *x == *y,
                _ => false,
            },
            (Json::Str(a), Json::Str(b)) => *a == *b,
            (Json::Array(xs), Json::Array(ys)) => {
                proof {
                    lemma_view_array(*xs);
                    lemma_view_array(*ys);
                }
                if xs.len() != ys.len() {
                    assert(items_view(xs@).len() != items_view(ys@).len());
                    return false;
                }
                let mut i: usize = 0;
                while i < xs.len()
                    invariant
                        i <= xs.len() == ys.len(),
                        forall|k: int| 0 <= k < i ==> view_json(xs@[k]) == view_json(ys@[k]),
                    decreases xs.len() - i,
                {
                    assert(decreases_to!(*self => xs@[i as int])) by {
                        assert(decreases_to!(*xs => xs@));
                        assert(decreases_to!(xs@ => xs@[i as int]));
                    }
                    if !xs[i].equals(&ys[i]) {
                        assert(items_view(xs@)[i as int] != items_view(ys@)[i as int]);
                        return false;
                    }
                    i = i + 1;
                }
                assert(items_view(xs@) =~= items_view(ys@));
                true
            },
            (Json::Object(xs), Json::Object(ys)) => {
                proof {
                    lemma_view_object(*xs);
                    lemma_view_object(*ys);
                }
                if xs.len() != ys.len() {
                    assert(entries_view(xs@).len() != entries_view(ys@).len());
                    return false;
                }
                let mut i: usize = 0;
                while i < xs.len()
                    invariant
                        i <= xs.len() == ys.len(),
                        forall|k: int|
                            0 <= k < i ==> xs@[k].0@ == ys@[k].0@ && view_json(xs@[k].1) == view_json(
                                ys@[k].1,
                            ),
                    decreases xs.len() - i,
                {
                    assert(decreases_to!(*self => xs@[i as int].1)) by {
                        assert(decreases_to!(*xs => xs@));
                        assert(decreases_to!(xs@ => xs@[i as int]));
                        assert(decreases_to!(xs@[i as int] => xs@[i as int].1));
                    }
                    if xs[i].0 != ys[i].0 || !xs[i].1.equals(&ys[i].1) {
                        assert(entries_view(xs@)[i as int] != entries_view(ys@)[i as int]);
                        return false;
                    }
                    i = i + 1;
                }
                assert(entries_view(xs@) =~= entries_view(ys@));
                true
            },
            _ => false,
        }
    }
}

} // verus!

verus! {

/// No two entries share a key.
pub open spec fn keys_unique(es: Seq<(Seq<char>, JsonV)>) -> bool {
    forall|i: int, j: int| 0 <= i < j < es.len() ==> es[i].0 != es[j].0
}

/// Well-formed JSON: every object, at every depth, has unique keys (as a
/// `serde_json` map does).
pub open spec fn json_wf(v: JsonV) -> bool
    decreases v,
{
    match v {
        JsonV::Object(es) => keys_unique(es) && forall|i: int|
            0 <= i < es.len() ==> json_wf(#[trigger] es[i].1),
        JsonV::Array(items) => forall|i: int| 0 <= i < items.len() ==> json_wf(#[trigger] items[i]),
        _ => true,
    }
}

/// `a` comes before `b` in the order of their code points (the order of
/// Rust's `String`).
pub open spec fn key_less(a: Seq<char>, b: Seq<char>) -> bool
    decreases a.len(),
{
    if b.len() == 0 {
        false
    } else if a.len() == 0 {
        true
    } else if a[0] != b[0] {
        (a[0] as u32) < (b[0] as u32)
    } else {
        key_less(a.drop_first(), b.drop_first())
    }
}

/// Every object, at every depth, lists its entries in increasing key order
/// (the order in which a `serde_json` map, a `BTreeMap`, hands them out).
pub open spec fn json_sorted(v: JsonV) -> bool
    decreases v,
{
    match v {
        JsonV::Object(es) => (forall|i: int, j: int|
            0 <= i < j < es.len() ==> key_less(#[trigger] es[i].0, #[trigger] es[j].0)) && forall|
            i: int,
        | 0 <= i < es.len() ==> json_sorted(#[trigger] es[i].1),
        JsonV::Array(items) => forall|i: int|
            0 <= i < items.len() ==> json_sorted(#[trigger] items[i]),
        _ => true,
    }
}

/// Storing into entries with unique keys keeps them unique.
pub proof fn lemma_insert_keeps_unique(es: Seq<(Seq<char>, JsonV)>, k: Seq<char>, v: JsonV)
    requires
        keys_unique(es),
    ensures
        keys_unique(entries_insert(es, k, v)),
        forall|i: int|
            0 <= i < entries_insert(es, k, v).len() ==> (#[trigger] entries_insert(es, k, v)[i]).1
                == v || exists|j: int| 0 <= j < es.len() && es[j].1 == entries_insert(es, k, v)[i].1,
{
    lemma_key_index(es, k);
    let r = entries_insert(es, k, v);
    assert forall|i: int|
        0 <= i < r.len() implies (#[trigger] r[i]).1 == v || exists|j: int|
        0 <= j < es.len() && es[j].1 == r[i].1 by {
        if r[i].1 != v {
            assert(es[i].1 == r[i].1);
        }
    }
}

/// Storing a well-formed value into a well-formed object keeps it
/// well-formed.
pub proof fn law_set_keeps_wf(v: JsonV, k: Seq<char>, x: JsonV)
    requires
        json_wf(v),
        json_wf(x),
    ensures
        json_wf(json_set(v, k, x)),
{
    match v {
        JsonV::Object(es) => {
            lemma_insert_keeps_unique(es, k, x);
            let r = entries_insert(es, k, x);
            assert forall|i: int| 0 <= i < r.len() implies json_wf(#[trigger] r[i].1) by {
                if r[i].1 != x {
                    let j = choose|j: int| 0 <= j < es.len() && es[j].1 == r[i].1;
                    assert(json_wf(es[j].1));
                }
            }
        },
        _ => {},
    }
}

impl Json {
    /// Reads JSON text into the model: the outcome `json_parse` names for
    /// the text, and a value whose objects have unique keys in increasing
    /// order.
    pub fn parse(text: &str) -> (r: Result<Json, String>)
        ensures
            match r {
                Ok(j) => json_parse(text@) == Ok::<JsonV, Seq<char>>(j@) && json_wf(j@)
                    && json_sorted(j@),
                Err(e) => json_parse(text@) == Err::<JsonV, Seq<char>>(e@),
            },
    {
        parse_json(text)
    }
}

} // verus!

verus! {

/// An empty object has no members.
pub proof fn lemma_lookup_empty(k: Seq<char>)
    ensures
        lookup(JsonV::Object(Seq::empty()), k) is None,
{
    lemma_key_index(Seq::empty(), k);
}

/// A one-entry object has exactly that member.
pub proof fn lemma_lookup_single(k2: Seq<char>, v: JsonV, k: Seq<char>)
    ensures
        lookup(JsonV::Object(seq![(k2, v)]), k) == (if k2 == k {
            Some(v)
        } else {
            None
        }),
{
    let es = seq![(k2, v)];
    lemma_key_index(es, k);
    if k2 == k {
        assert(first_key_at(es, k, 0));
        if key_index(es, k) != 0 {
            assert(first_key_at(es, k, key_index(es, k)));
        }
    }
}

/// A member of entries `a + b` is found in `a` first, then in `b`.
pub proof fn lemma_lookup_concat(a: Seq<(Seq<char>, JsonV)>, b: Seq<(Seq<char>, JsonV)>, k: Seq<char>)
    ensures
        lookup(JsonV::Object(a + b), k) == (if lookup(JsonV::Object(a), k) is Some {
            lookup(JsonV::Object(a), k)
        } else {
            lookup(JsonV::Object(b), k)
        }),
{
    let c = a + b;
    lemma_key_index(a, k);
    lemma_key_index(b, k);
    lemma_key_index(c, k);
    if key_index(a, k) >= 0 {
        let i = key_index(a, k);
        assert(first_key_at(c, k, i));
        if key_index(c, k) != i {
            assert(first_key_at(c, k, key_index(c, k)));
        }
    } else if key_index(b, k) >= 0 {
        let j = key_index(b, k);
        assert(c[a.len() + j] == b[j]);
        assert(first_key_at(c, k, a.len() + j));
        if key_index(c, k) != a.len() + j {
            assert(first_key_at(c, k, key_index(c, k)));
            if key_index(c, k) >= a.len() {
                assert(c[key_index(c, k)] == b[key_index(c, k) - a.len()]);
            }
        }
    } else {
        assert forall|i: int| 0 <= i < c.len() implies c[i].0 != k by {
            if i >= a.len() {
                assert(c[i] == b[i - a.len()]);
            }
        }
    }
}

} // verus!
