//! JSON values.
use crate::outside::built_value;
use crate::text::owned;
use vstd::prelude::*;

verus! {

/// A JSON number: a natural number, a negative integer, or the text of a
/// number with a fraction or an exponent.
#[derive(Debug, PartialEq, Eq)]
pub enum JsonNumber {
    Unsigned(u64),
    Negative(i64),
    Fractional(String),
}

pub enum JsonNumberView {
    Unsigned(u64),
    Negative(i64),
    Fractional(Seq<char>),
}

impl DeepView for JsonNumber {
    type V = JsonNumberView;

    open spec fn deep_view(&self) -> JsonNumberView {
        self@
    }
}

impl View for JsonNumber {
    type V = JsonNumberView;

    open spec fn view(&self) -> JsonNumberView {
        match self {
            JsonNumber::Unsigned(n) => JsonNumberView::Unsigned(*n),
            JsonNumber::Negative(n) => JsonNumberView::Negative(*n),
            JsonNumber::Fractional(s) => JsonNumberView::Fractional(s@),
        }
    }
}

/// A JSON value.
#[derive(Debug, PartialEq, Eq)]
pub enum Json {
    Null,
    Bool(bool),
    Number(JsonNumber),
    String(String),
    Array(Vec<Json>),
    Object(Vec<JsonEntry>),
}

/// A key of a JSON object and its value.
#[derive(Debug, PartialEq, Eq)]
pub struct JsonEntry {
    pub key: String,
    pub value: Json,
}

pub enum JsonView {
    Null,
    Bool(bool),
    Number(JsonNumberView),
    String(Seq<char>),
    Array(Seq<JsonView>),
    Object(Seq<(Seq<char>, JsonView)>),
}

impl Json {
    pub open spec fn model(&self) -> JsonView
        decreases self,
    {
        match self {
            Json::Null => JsonView::Null,
            Json::Bool(b) => JsonView::Bool(*b),
            Json::Number(n) => JsonView::Number(n@),
            Json::String(s) => JsonView::String(s@),
            Json::Array(items) => JsonView::Array(
                Seq::new(
                    items@.len(),
                    |i: int|
                        if 0 <= i < items@.len() {
                            items@[i].model()
                        } else {
                            JsonView::Null
                        },
                ),
            ),
            Json::Object(entries) => JsonView::Object(
                Seq::new(
                    entries@.len(),
                    |i: int|
                        if 0 <= i < entries@.len() {
                            (entries@[i].key@, entries@[i].value.model())
                        } else {
                            (Seq::<char>::empty(), JsonView::Null)
                        },
                ),
            ),
        }
    }
}

impl DeepView for Json {
    type V = JsonView;

    open spec fn deep_view(&self) -> JsonView {
        self.model()
    }
}

impl DeepView for JsonEntry {
    type V = (Seq<char>, JsonView);

    open spec fn deep_view(&self) -> (Seq<char>, JsonView) {
        (self.key@, self.value.model())
    }
}

impl View for Json {
    type V = JsonView;

    open spec fn view(&self) -> JsonView {
        self.model()
    }
}

impl JsonNumber {
    pub fn duplicate(&self) -> (r: JsonNumber)
        ensures
            r@ == self@,
    {
        match self {
            JsonNumber::Unsigned(n) => JsonNumber::Unsigned(*n),
            JsonNumber::Negative(n) => JsonNumber::Negative(*n),
            JsonNumber::Fractional(s) => JsonNumber::Fractional(s.clone()),
        }
    }
}

/// Whether arrays and objects are nested in `v` to a depth of at most `n`.
pub open spec fn nested_at_most(v: JsonView, n: nat) -> bool
    decreases n,
{
    match v {
        JsonView::Array(items) => n > 0 && forall|i: int|
            0 <= i < items.len() ==> nested_at_most(#[trigger] items[i], (n - 1) as nat),
        JsonView::Object(entries) => n > 0 && forall|i: int|
            0 <= i < entries.len() ==> nested_at_most((#[trigger] entries[i]).1, (n - 1) as nat),
        _ => true,
    }
}

/// Whether no object in `v` has the key.
pub open spec fn no_object_holds(v: JsonView, key: Seq<char>) -> bool
    decreases v,
{
    match v {
        JsonView::Array(items) => forall|i: int|
            0 <= i < items.len() ==> no_object_holds(#[trigger] items[i], key),
        JsonView::Object(entries) => forall|i: int|
            0 <= i < entries.len() ==> (#[trigger] entries[i]).0 != key && no_object_holds(
                entries[i].1,
                key,
            ),
        _ => true,
    }
}

/// Whether the numbers in `v` are in the form in which serde_json writes them, and no
/// object in it repeats a key.
pub open spec fn is_plain(v: JsonView) -> bool
    decreases v,
{
    match v {
        JsonView::Number(JsonNumberView::Negative(n)) => n < 0,
        JsonView::Number(JsonNumberView::Fractional(_)) => built_value(v) == v,
        JsonView::Array(items) => forall|i: int|
            0 <= i < items.len() ==> is_plain(#[trigger] items[i]),
        JsonView::Object(entries) => {
            &&& forall|i: int| 0 <= i < entries.len() ==> is_plain((#[trigger] entries[i]).1)
            &&& forall|i: int, j: int|
                0 <= i < j < entries.len() ==> (#[trigger] entries[i]).0 != (
                #[trigger] entries[j]).0
        },
        _ => true,
    }
}

/// Whether `a` comes before `b` in the order of strings, which goes by code points.
pub open spec fn comes_before(a: Seq<char>, b: Seq<char>) -> bool
    decreases a.len(),
{
    if b.len() == 0 {
        false
    } else if a.len() == 0 {
        true
    } else if a[0] == b[0] {
        comes_before(a.skip(1), b.skip(1))
    } else {
        (a[0] as u32) < (b[0] as u32)
    }
}

/// Whether `b` is `a` with the entries of every object in the order of their keys.
pub open spec fn is_key_sorted(a: JsonView, b: JsonView) -> bool
    decreases a,
{
    match (a, b) {
        (JsonView::Array(items), JsonView::Array(others)) => {
            &&& items.len() == others.len()
            &&& forall|i: int|
                0 <= i < items.len() ==> is_key_sorted(#[trigger] items[i], others[i])
        },
        (JsonView::Object(entries), JsonView::Object(others)) => {
            &&& entries.len() == others.len()
            &&& forall|i: int, j: int|
                0 <= i < j < others.len() ==> comes_before(
                    (#[trigger] others[i]).0,
                    (#[trigger] others[j]).0,
                )
            &&& forall|i: int|
                #![trigger entries[i]]
                0 <= i < entries.len() ==> exists|j: int|
                    #![trigger others[j]]
                    0 <= j < others.len() && entries[i].0 == others[j].0 && is_key_sorted(
                        entries[i].1,
                        others[j].1,
                    )
            &&& forall|j: int|
                #![trigger others[j]]
                0 <= j < others.len() ==> exists|i: int|
                    #![trigger entries[i]]
                    0 <= i < entries.len() && entries[i].0 == others[j].0 && is_key_sorted(
                        entries[i].1,
                        others[j].1,
                    )
        },
        _ => a == b,
    }
}

/// To sort keys neither nests a value more deeply nor adds a key.
pub proof fn sorting_keeps_shape(a: JsonView, b: JsonView, n: nat, key: Seq<char>)
    requires
        is_key_sorted(a, b),
    ensures
        nested_at_most(a, n) ==> nested_at_most(b, n),
        no_object_holds(a, key) ==> no_object_holds(b, key),
    decreases a,
{
    let m: nat = if n > 0 {
        (n - 1) as nat
    } else {
        0
    };
    match (a, b) {
        (JsonView::Array(items), JsonView::Array(others)) => {
            assert forall|i: int| 0 <= i < others.len() implies {
                &&& nested_at_most(a, n) ==> nested_at_most(#[trigger] others[i], m)
                &&& no_object_holds(a, key) ==> no_object_holds(others[i], key)
            } by {
                assert(decreases_to!(items => items[i]));
                assert(is_key_sorted(items[i], others[i]));
                sorting_keeps_shape(items[i], others[i], m, key);
            }
        },
        (JsonView::Object(entries), JsonView::Object(others)) => {
            assert forall|j: int| 0 <= j < others.len() implies {
                &&& nested_at_most(a, n) ==> nested_at_most((#[trigger] others[j]).1, m)
                &&& no_object_holds(a, key) ==> others[j].0 != key && no_object_holds(
                    others[j].1,
                    key,
                )
            } by {
                let i = choose|i: int|
                    #![trigger entries[i]]
                    0 <= i < entries.len() && entries[i].0 == others[j].0 && is_key_sorted(
                        entries[i].1,
                        others[j].1,
                    );
                assert(decreases_to!(entries => entries[i]));
                sorting_keeps_shape(entries[i].1, others[j].1, m, key);
            }
        },
        _ => {},
    }
}

impl Json {
    /// Whether arrays and objects are nested in the value to a depth of at most `limit`.
    pub fn nests_at_most(&self, limit: usize) -> (r: bool)
        ensures
            r == nested_at_most(self@, limit as nat),
        decreases self,
    {
        match self {
            Json::Array(items) => {
                if limit == 0 {
                    return false;
                }
                let n: usize = items.len();
                for i in 0..n
                    invariant
                        limit > 0,
                        n == items@.len(),
                        self@ is Array,
                        self@->Array_0 == items.deep_view(),
                        forall|k: int|
                            0 <= k < i ==> nested_at_most(
                                #[trigger] items.deep_view()[k],
                                (limit - 1) as nat,
                            ),
                        decreases_to!(self => items),
                {
                    assert(items.deep_view()[i as int] == items@[i as int]@);
                    if !items[i].nests_at_most(limit - 1) {
                        return false;
                    }
                }
                true
            },
            Json::Object(entries) => {
                if limit == 0 {
                    return false;
                }
                let n: usize = entries.len();
                for i in 0..n
                    invariant
                        limit > 0,
                        n == entries@.len(),
                        self@ is Object,
                        self@->Object_0 == entries.deep_view(),
                        forall|k: int|
                            0 <= k < i ==> nested_at_most(
                                (#[trigger] entries.deep_view()[k]).1,
                                (limit - 1) as nat,
                            ),
                        decreases_to!(self => entries),
                {
                    assert(entries.deep_view()[i as int].1 == entries@[i as int].value@);
                    if !entries[i].value.nests_at_most(limit - 1) {
                        return false;
                    }
                }
                true
            },
            _ => true,
        }
    }

    /// A copy of this value.
    pub fn duplicate(&self) -> (r: Json)
        ensures
            r@ == self@,
        decreases self,
    {
        match self {
            Json::Null => Json::Null,
            Json::Bool(b) => Json::Bool(*b),
            Json::Number(n) => Json::Number(n.duplicate()),
            Json::String(s) => Json::String(s.clone()),
            Json::Array(items) => {
                let mut copies: Vec<Json> = Vec::new();
                let n: usize = items.len();
                for i in 0..n
                    invariant
                        n == items@.len(),
                        copies@.len() == i,
                        forall|k: int| 0 <= k < i ==> (#[trigger] copies@[k])@ == items@[k]@,
                        decreases_to!(self => items),
                {
                    copies.push(items[i].duplicate());
                }
                let r: Json = Json::Array(copies);
                assert(r@->Array_0 =~= self@->Array_0);
                r
            },
            Json::Object(entries) => {
                let mut copies: Vec<JsonEntry> = Vec::new();
                let n: usize = entries.len();
                for i in 0..n
                    invariant
                        n == entries@.len(),
                        copies@.len() == i,
                        forall|k: int|
                            0 <= k < i ==> (#[trigger] copies@[k]).key@ == entries@[k].key@
                                && copies@[k].value@ == entries@[k].value@,
                        decreases_to!(self => entries),
                {
                    let entry: &JsonEntry = &entries[i];
                    copies.push(JsonEntry { key: entry.key.clone(), value: entry.value.duplicate() });
                }
                let r: Json = Json::Object(copies);
                assert(r@->Object_0 =~= self@->Object_0);
                r
            },
        }
    }
}

/// The JSON form of a natural number.
pub open spec fn count_json(n: nat) -> JsonView {
    JsonView::Number(JsonNumberView::Unsigned(n as u64))
}

/// The JSON form of an integer.
pub open spec fn integer_json(n: i32) -> JsonView {
    if n >= 0 {
        count_json(n as nat)
    } else {
        JsonView::Number(JsonNumberView::Negative(n as i64))
    }
}

/// The JSON form of an optional value: `null` where there is none.
pub open spec fn nullable(json: Option<JsonView>) -> JsonView {
    match json {
        Some(value) => value,
        None => JsonView::Null,
    }
}

/// The JSON form of an optional text.
pub open spec fn nullable_text(s: Option<Seq<char>>) -> JsonView {
    match s {
        Some(text) => JsonView::String(text),
        None => JsonView::Null,
    }
}

impl Json {
    /// A natural number.
    pub fn count(n: usize) -> (r: Json)
        ensures
            r@ == count_json(n as nat),
    {
        Json::Number(JsonNumber::Unsigned(n as u64))
    }

    /// An integer.
    pub fn integer(n: i32) -> (r: Json)
        ensures
            r@ == integer_json(n),
    {
        if n >= 0 {
            Json::Number(JsonNumber::Unsigned(n as u64))
        } else {
            Json::Number(JsonNumber::Negative(n as i64))
        }
    }

    /// A text.
    pub fn text(s: &str) -> (r: Json)
        ensures
            r@ == JsonView::String(s@),
    {
        Json::String(owned(s))
    }

    /// A text, or `null` where there is none.
    pub fn optional_text(s: &Option<String>) -> (r: Json)
        ensures
            r@ == nullable_text(s.deep_view()),
    {
        match s {
            Some(text) => Json::String(text.clone()),
            None => Json::Null,
        }
    }

    /// A copy of a value, or `null` where there is none.
    pub fn optional(json: &Option<Json>) -> (r: Json)
        ensures
            r@ == nullable(json.deep_view()),
    {
        match json {
            Some(value) => value.duplicate(),
            None => Json::Null,
        }
    }

    /// An object with the given entries.
    pub fn object(entries: Vec<JsonEntry>) -> (r: Json)
        ensures
            r@ == JsonView::Object(entries.deep_view()),
    {
        let r: Json = Json::Object(entries);
        assert(r@->Object_0 =~= entries.deep_view());
        r
    }

    /// An array of the given items.
    pub fn array(items: Vec<Json>) -> (r: Json)
        ensures
            r@ == JsonView::Array(items.deep_view()),
    {
        let r: Json = Json::Array(items);
        assert(r@->Array_0 =~= items.deep_view());
        r
    }
}

impl JsonEntry {
    /// A key and its value.
    pub fn new(key: &str, value: Json) -> (r: JsonEntry)
        ensures
            r.deep_view() == (key@, value@),
    {
        JsonEntry { key: owned(key), value }
    }
}

} // verus!
