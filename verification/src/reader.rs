//! Reading typed values out of JSON.
//!
//! A record is an object that holds its fields by name, or an array that holds
//! them by position. Fields that a record does not have are ignored; a field that
//! is given twice is an error. Errors are reported in serde's words: the first in
//! the order of the entries, and what is missing after that.
use crate::json::{Json, JsonEntry, JsonNumber, JsonNumberView, JsonView};
use crate::model::{collected, collected_next, outcome, so_far};
use crate::outside::{describe_text, described_text};
use crate::text::{decimal, decimal_of, joined, numeral, owned, same_text};
use vstd::prelude::*;

verus! {

/// The position of the last entry with a key, or -1.
pub open spec fn key_index(entries: Seq<(Seq<char>, JsonView)>, key: Seq<char>) -> int
    decreases entries.len(),
{
    if entries.len() == 0 {
        -1
    } else if entries.last().0 == key {
        entries.len() - 1
    } else {
        key_index(entries.drop_last(), key)
    }
}

/// The value under a key of an object.
pub open spec fn entry_value(
    entries: Seq<(Seq<char>, JsonView)>,
    key: Seq<char>,
) -> Option<JsonView> {
    let i = key_index(entries, key);
    if 0 <= i < entries.len() {
        Some(entries[i].1)
    } else {
        None
    }
}

/// A field of a record, by name or by position.
pub open spec fn field(v: JsonView, position: nat, key: Seq<char>) -> Option<JsonView> {
    match v {
        JsonView::Object(entries) => entry_value(entries, key),
        JsonView::Array(items) => if position < items.len() {
            Some(items[position as int])
        } else {
            None
        },
        _ => None,
    }
}

/// A field of a record is smaller than the record.
pub proof fn field_is_smaller(v: JsonView, position: nat, key: Seq<char>)
    ensures
        field(v, position, key) matches Some(x) ==> decreases_to!(v => x),
{
    match v {
        JsonView::Object(entries) => {
            let i = key_index(entries, key);
            if 0 <= i < entries.len() {
                assert(decreases_to!(entries => entries[i]));
            }
        },
        JsonView::Array(items) => {
            if position < items.len() {
                assert(decreases_to!(items => items[position as int]));
            }
        },
        _ => {},
    }
}

// ---------------------------------------------------------------------------
// Messages
// ---------------------------------------------------------------------------

/// How serde describes a value that it did not expect.
pub open spec fn described(v: JsonView) -> Seq<char> {
    match v {
        JsonView::Null => "null"@,
        JsonView::Bool(b) => if b {
            "boolean `true`"@
        } else {
            "boolean `false`"@
        },
        JsonView::Number(JsonNumberView::Unsigned(n)) => "integer `"@ + numeral(n as nat) + "`"@,
        JsonView::Number(JsonNumberView::Negative(n)) => "integer `"@ + integer_text(n) + "`"@,
        JsonView::Number(JsonNumberView::Fractional(t)) => "floating point `"@ + t + "`"@,
        JsonView::String(s) => described_text(s),
        JsonView::Array(_) => "sequence"@,
        JsonView::Object(_) => "map"@,
    }
}

/// The text of an integer.
pub open spec fn integer_text(n: i64) -> Seq<char> {
    if n < 0 {
        "-"@ + numeral((-n) as nat)
    } else {
        numeral(n as nat)
    }
}

/// The message for a value of the wrong type.
pub open spec fn mismatch(v: JsonView, expected: Seq<char>) -> Seq<char> {
    "invalid type: "@ + described(v) + ", expected "@ + expected
}

/// The message for a value of the right type that cannot be used.
pub open spec fn bad_value(v: JsonView, expected: Seq<char>) -> Seq<char> {
    "invalid value: "@ + described(v) + ", expected "@ + expected
}

/// The message for a field that is not there.
pub open spec fn missing(key: Seq<char>) -> Seq<char> {
    "missing field `"@ + key + "`"@
}

/// The message for a field that is given twice.
pub open spec fn repeated(key: Seq<char>) -> Seq<char> {
    "duplicate field `"@ + key + "`"@
}

/// The message for an array of the wrong length.
pub open spec fn bad_length(n: nat, expected: Seq<char>) -> Seq<char> {
    "invalid length "@ + numeral(n) + ", expected "@ + expected
}

fn integer_to_text(n: i64) -> (r: String)
    ensures
        r@ == integer_text(n),
{
    if n < 0 {
        let size: u64 = if n == i64::MIN {
            0x8000_0000_0000_0000
        } else {
            (-n) as u64
        };
        joined("-", decimal_of(size).as_str())
    } else {
        decimal_of(n as u64)
    }
}

fn wrapped(start: &str, middle: &str, end: &str) -> (r: String)
    ensures
        r@ == start@ + middle@ + end@,
{
    let first: String = joined(start, middle);
    joined(first.as_str(), end)
}

/// The message for a field that is not there.
pub fn missing_field(key: &str) -> (r: String)
    ensures
        r@ == missing(key@),
{
    wrapped("missing field `", key, "`")
}

/// The message for a field that is given twice.
pub fn repeated_field(key: &str) -> (r: String)
    ensures
        r@ == repeated(key@),
{
    wrapped("duplicate field `", key, "`")
}

/// The message for an array of the wrong length.
fn bad_length_message(n: usize, expected: &str) -> (r: String)
    ensures
        r@ == bad_length(n as nat, expected@),
{
    let start: String = wrapped("invalid length ", decimal(n).as_str(), ", expected ");
    joined(start.as_str(), expected)
}

impl Json {
    fn described(&self) -> (r: String)
        ensures
            r@ == described(self@),
    {
        match self {
            Json::Null => owned("null"),
            Json::Bool(b) => if *b {
                owned("boolean `true`")
            } else {
                owned("boolean `false`")
            },
            Json::Number(JsonNumber::Unsigned(n)) => wrapped(
                "integer `",
                decimal_of(*n).as_str(),
                "`",
            ),
            Json::Number(JsonNumber::Negative(n)) => wrapped(
                "integer `",
                integer_to_text(*n).as_str(),
                "`",
            ),
            Json::Number(JsonNumber::Fractional(t)) => wrapped(
                "floating point `",
                t.as_str(),
                "`",
            ),
            Json::String(s) => describe_text(s.as_str()),
            Json::Array(_) => owned("sequence"),
            Json::Object(_) => owned("map"),
        }
    }

    /// The message for a value of the wrong type.
    pub fn mismatch(&self, expected: &str) -> (r: String)
        ensures
            r@ == mismatch(self@, expected@),
    {
        let start: String = wrapped("invalid type: ", self.described().as_str(), ", expected ");
        joined(start.as_str(), expected)
    }

    /// The message for a value of the right type that cannot be used.
    pub fn bad_value(&self, expected: &str) -> (r: String)
        ensures
            r@ == bad_value(self@, expected@),
    {
        let start: String = wrapped("invalid value: ", self.described().as_str(), ", expected ");
        joined(start.as_str(), expected)
    }
}

// ---------------------------------------------------------------------------
// Values
// ---------------------------------------------------------------------------

/// The error of a result.
pub open spec fn error_of<T>(r: Result<T, Seq<char>>) -> Option<Seq<char>> {
    match r {
        Ok(_) => None,
        Err(e) => Some(e),
    }
}

/// The error of a value that may be `null`.
pub open spec fn error_unless_null<T>(v: JsonView, r: Result<T, Seq<char>>) -> Option<Seq<char>> {
    if v is Null {
        None
    } else {
        error_of(r)
    }
}

/// The value of a result that has one.
pub open spec fn held<T>(r: Result<T, Seq<char>>) -> Option<T> {
    match r {
        Ok(x) => Some(x),
        Err(_) => None,
    }
}

/// A text.
pub open spec fn read_text(v: JsonView) -> Result<Seq<char>, Seq<char>> {
    match v {
        JsonView::String(s) => Ok(s),
        _ => Err(mismatch(v, "a string"@)),
    }
}

/// A boolean.
pub open spec fn read_bool(v: JsonView) -> Result<bool, Seq<char>> {
    match v {
        JsonView::Bool(b) => Ok(b),
        _ => Err(mismatch(v, "a boolean"@)),
    }
}

/// A number, with or without a fraction.
pub open spec fn read_number(v: JsonView) -> Result<JsonNumberView, Seq<char>> {
    match v {
        JsonView::Number(n) => Ok(n),
        _ => Err(mismatch(v, "f32"@)),
    }
}

/// A natural number of 32 bits.
pub open spec fn read_u32(v: JsonView) -> Result<u32, Seq<char>> {
    match v {
        JsonView::Number(JsonNumberView::Unsigned(n)) => if n <= u32::MAX {
            Ok(n as u32)
        } else {
            Err(bad_value(v, "u32"@))
        },
        JsonView::Number(JsonNumberView::Negative(_)) => Err(bad_value(v, "u32"@)),
        _ => Err(mismatch(v, "u32"@)),
    }
}

/// An integer of 32 bits.
pub open spec fn read_i32(v: JsonView) -> Result<i32, Seq<char>> {
    match v {
        JsonView::Number(JsonNumberView::Unsigned(n)) => if n <= i32::MAX {
            Ok(n as i32)
        } else {
            Err(bad_value(v, "i32"@))
        },
        JsonView::Number(JsonNumberView::Negative(n)) => if i32::MIN <= n <= i32::MAX {
            Ok(n as i32)
        } else {
            Err(bad_value(v, "i32"@))
        },
        _ => Err(mismatch(v, "i32"@)),
    }
}

/// A list of texts.
pub open spec fn read_texts(v: JsonView) -> Result<Seq<Seq<char>>, Seq<char>> {
    match v {
        JsonView::Array(items) => collected(items.map_values(|x: JsonView| read_text(x))),
        _ => Err(mismatch(v, "a sequence"@)),
    }
}

impl Json {
    /// Reads a text.
    pub fn read_text(&self) -> (r: Result<String, String>)
        ensures
            outcome(r) == read_text(self@),
    {
        match self {
            Json::String(s) => Ok(s.clone()),
            _ => Err(self.mismatch("a string")),
        }
    }

    /// Reads a boolean.
    pub fn read_bool(&self) -> (r: Result<bool, String>)
        ensures
            outcome(r) == read_bool(self@),
    {
        match self {
            Json::Bool(b) => Ok(*b),
            _ => Err(self.mismatch("a boolean")),
        }
    }

    /// Reads a number.
    pub fn read_number(&self) -> (r: Result<JsonNumber, String>)
        ensures
            outcome(r) == read_number(self@),
    {
        match self {
            Json::Number(n) => Ok(n.duplicate()),
            _ => Err(self.mismatch("f32")),
        }
    }

    /// Reads a natural number of 32 bits.
    pub fn read_u32(&self) -> (r: Result<u32, String>)
        ensures
            outcome(r) == read_u32(self@),
    {
        match self {
            Json::Number(JsonNumber::Unsigned(n)) => if *n <= u32::MAX as u64 {
                Ok(*n as u32)
            } else {
                Err(self.bad_value("u32"))
            },
            Json::Number(JsonNumber::Negative(_)) => Err(self.bad_value("u32")),
            _ => Err(self.mismatch("u32")),
        }
    }

    /// Reads an integer of 32 bits.
    pub fn read_i32(&self) -> (r: Result<i32, String>)
        ensures
            outcome(r) == read_i32(self@),
    {
        match self {
            Json::Number(JsonNumber::Unsigned(n)) => if *n <= i32::MAX as u64 {
                Ok(*n as i32)
            } else {
                Err(self.bad_value("i32"))
            },
            Json::Number(JsonNumber::Negative(n)) => if i32::MIN as i64 <= *n && *n
                <= i32::MAX as i64 {
                Ok(*n as i32)
            } else {
                Err(self.bad_value("i32"))
            },
            _ => Err(self.mismatch("i32")),
        }
    }

    /// Reads a list of texts.
    pub fn read_texts(&self) -> (r: Result<Vec<String>, String>)
        ensures
            outcome(r) == read_texts(self@),
    {
        let items: &Vec<Json> = match self {
            Json::Array(items) => items,
            _ => {
                return Err(self.mismatch("a sequence"));
            },
        };
        assert(self@->Array_0 =~= items.deep_view());
        let ghost all = items.deep_view().map_values(|x: JsonView| read_text(x));
        let mut texts: Vec<String> = Vec::new();
        assert(texts.deep_view() =~= Seq::empty());
        let n: usize = items.len();
        for i in 0..n
            invariant
                n == items@.len(),
                all == items.deep_view().map_values(|x: JsonView| read_text(x)),
                read_texts(self@) == collected(all),
                so_far(all, i as int, texts.deep_view()),
        {
            let text: Result<String, String> = items[i].read_text();
            proof {
                collected_next(all, i as int, texts.deep_view());
                assert(all[i as int] == outcome(text));
            }
            match text {
                Ok(text) => {
                    let ghost before = texts.deep_view();
                    texts.push(text);
                    assert(texts.deep_view() =~= before.push(text@));
                },
                Err(e) => {
                    return Err(e);
                },
            }
        }
        assert(all.take(n as int) =~= all);
        Ok(texts)
    }
}

/// The error of a result, for one that is not used otherwise.
pub fn problem_of<T: DeepView>(r: Result<T, String>) -> (e: Option<String>)
    ensures
        e.deep_view() == error_of(outcome(r)),
{
    match r {
        Ok(_) => None,
        Err(message) => Some(message),
    }
}

/// The value of a result that has one.
pub fn value_held<T: DeepView>(r: Result<T, String>) -> (x: Option<T>)
    ensures
        x.deep_view() == held(outcome(r)),
{
    match r {
        Ok(value) => Some(value),
        Err(_) => None,
    }
}

/// The error of a result, for a value that may be `null`.
pub fn problem_unless_null<T: DeepView>(v: &Json, r: Result<T, String>) -> (e: Option<String>)
    ensures
        e.deep_view() == error_unless_null(v@, outcome(r)),
{
    match v {
        Json::Null => None,
        _ => problem_of(r),
    }
}

// ---------------------------------------------------------------------------
// Records
// ---------------------------------------------------------------------------

/// What a record looks like.
pub trait Shape {
    /// What the record is called in messages.
    spec fn title() -> Seq<char>;

    /// The fields, in order.
    spec fn keys() -> Seq<Seq<char>>;

    /// Whether a field may be left out of an object.
    spec fn may_lack(i: int) -> bool;

    /// Whether a field has a default: then it may be left out at the end of an array.
    spec fn has_default(i: int) -> bool;

    /// What is wrong with the value of a field, if anything is.
    spec fn field_error(i: int, v: JsonView) -> Option<Seq<char>>;

    /// How many elements an array that is too long should have.
    spec fn excess() -> Seq<char>;

    fn title_text() -> (r: &'static str)
        ensures
            r@ == Self::title(),
    ;

    fn excess_text() -> (r: &'static str)
        ensures
            r@ == Self::excess(),
    ;

    fn key_count() -> (r: usize)
        ensures
            r == Self::keys().len(),
    ;

    /// The name of a field, whether it may be left out, and whether it has a default.
    fn rule(i: usize) -> (r: (&'static str, bool, bool))
        requires
            i < Self::keys().len(),
        ensures
            r.0@ == Self::keys()[i as int],
            r.1 == Self::may_lack(i as int),
            r.2 == Self::has_default(i as int),
    ;

    fn field_problem(i: usize, v: &Json) -> (r: Option<String>)
        requires
            i < Self::keys().len(),
        ensures
            r.deep_view() == Self::field_error(i as int, v@),
    ;
}

/// The place of a field among the fields of a record, or -1.
pub open spec fn place(keys: Seq<Seq<char>>, key: Seq<char>) -> int
    decreases keys.len(),
{
    if keys.len() == 0 {
        -1
    } else if keys.last() == key {
        keys.len() - 1
    } else {
        place(keys.drop_last(), key)
    }
}

/// What is wrong with the `n`-th entry of an object, if anything is.
pub open spec fn entry_error<S: Shape>(entries: Seq<(Seq<char>, JsonView)>, n: int) -> Option<
    Seq<char>,
> {
    let i = place(S::keys(), entries[n].0);
    if i < 0 {
        None
    } else if key_index(entries.take(n), entries[n].0) >= 0 {
        Some(repeated(entries[n].0))
    } else {
        S::field_error(i, entries[n].1)
    }
}

/// What is wrong with the first `n` entries of an object, if anything is.
pub open spec fn entries_error<S: Shape>(entries: Seq<(Seq<char>, JsonView)>, n: nat) -> Option<
    Seq<char>,
>
    decreases n,
{
    if n == 0 {
        None
    } else {
        match entries_error::<S>(entries, (n - 1) as nat) {
            Some(e) => Some(e),
            None => entry_error::<S>(entries, n - 1),
        }
    }
}

/// The first of the first `n` fields that an object lacks.
pub open spec fn lack_error<S: Shape>(entries: Seq<(Seq<char>, JsonView)>, n: nat) -> Option<
    Seq<char>,
>
    decreases n,
{
    if n == 0 {
        None
    } else {
        match lack_error::<S>(entries, (n - 1) as nat) {
            Some(e) => Some(e),
            None => {
                let key = S::keys()[n - 1];
                if S::may_lack(n - 1) || key_index(entries, key) >= 0 {
                    None
                } else {
                    Some(missing(key))
                }
            },
        }
    }
}

/// What is wrong with the first `n` fields of an array, if anything is.
pub open spec fn items_error<S: Shape>(items: Seq<JsonView>, n: nat) -> Option<Seq<char>>
    decreases n,
{
    if n == 0 {
        None
    } else {
        match items_error::<S>(items, (n - 1) as nat) {
            Some(e) => Some(e),
            None => if n - 1 < items.len() {
                S::field_error(n - 1, items[n - 1])
            } else if S::has_default(n - 1) {
                None
            } else {
                Some(bad_length((n - 1) as nat, elements_of::<S>()))
            },
        }
    }
}

/// What an array that is a record is expected to be.
pub open spec fn elements_of<S: Shape>() -> Seq<char> {
    if S::keys().len() == 1 {
        S::title() + " with 1 element"@
    } else {
        S::title() + " with "@ + numeral(S::keys().len()) + " elements"@
    }
}

fn elements_text<S: Shape>() -> (r: String)
    ensures
        r@ == elements_of::<S>(),
{
    let n: usize = S::key_count();
    if n == 1 {
        joined(S::title_text(), " with 1 element")
    } else {
        let start: String = wrapped(S::title_text(), " with ", decimal(n).as_str());
        joined(start.as_str(), " elements")
    }
}

/// What is wrong with a value that should be a record, if anything is.
pub open spec fn record_error<S: Shape>(v: JsonView) -> Option<Seq<char>> {
    match v {
        JsonView::Object(entries) => match entries_error::<S>(entries, entries.len()) {
            Some(e) => Some(e),
            None => lack_error::<S>(entries, S::keys().len()),
        },
        JsonView::Array(items) => match items_error::<S>(items, S::keys().len()) {
            Some(e) => Some(e),
            None => if items.len() > S::keys().len() {
                Some(bad_length(items.len(), S::excess()))
            } else {
                None
            },
        },
        _ => Some(mismatch(v, S::title())),
    }
}

/// The place of a field among the fields of a record.
pub fn find_place<S: Shape>(key: &str) -> (r: Option<usize>)
    ensures
        match r {
            Some(i) => i < S::keys().len() && place(S::keys(), key@) == i,
            None => place(S::keys(), key@) < 0,
        },
{
    let mut n: usize = S::key_count();
    assert(S::keys().take(n as int) =~= S::keys());
    while n > 0
        invariant
            n <= S::keys().len(),
            place(S::keys(), key@) == place(S::keys().take(n as int), key@),
        decreases n,
    {
        n = n - 1;
        assert(S::keys().take(n + 1).drop_last() =~= S::keys().take(n as int));
        let (name, _, _) = S::rule(n);
        if same_text(name, key) {
            return Some(n);
        }
    }
    None
}

/// The position of the last of the first `n` entries with a key.
pub fn find_key(entries: &Vec<JsonEntry>, n: usize, key: &str) -> (r: Option<usize>)
    requires
        n <= entries@.len(),
    ensures
        match r {
            Some(i) => i < n && key_index(entries.deep_view().take(n as int), key@) == i,
            None => key_index(entries.deep_view().take(n as int), key@) < 0,
        },
{
    let ghost all = entries.deep_view();
    let mut i: usize = n;
    while i > 0
        invariant
            i <= n <= entries@.len(),
            all == entries.deep_view(),
            key_index(all.take(n as int), key@) == key_index(all.take(i as int), key@),
        decreases i,
    {
        i = i - 1;
        assert(all.take(i + 1).drop_last() =~= all.take(i as int));
        assert(all.take(i + 1).last() == entries@[i as int].deep_view());
        if same_text(entries[i].key.as_str(), key) {
            return Some(i);
        }
    }
    None
}

fn entries_problem<S: Shape>(entries: &Vec<JsonEntry>) -> (r: Option<String>)
    ensures
        r.deep_view() == entries_error::<S>(entries.deep_view(), entries.deep_view().len()),
{
    let ghost all = entries.deep_view();
    let n: usize = entries.len();
    for i in 0..n
        invariant
            n == entries@.len(),
            all == entries.deep_view(),
            entries_error::<S>(all, i as nat) is None,
    {
        let entry: &JsonEntry = &entries[i];
        assert(all[i as int] == entry.deep_view());
        if let Some(place) = find_place::<S>(entry.key.as_str()) {
            if find_key(entries, i, entry.key.as_str()).is_some() {
                proof {
                    entries_error_stays::<S>(all, (i + 1) as nat, n as nat);
                }
                return Some(repeated_field(entry.key.as_str()));
            }
            let problem: Option<String> = S::field_problem(place, &entry.value);
            if problem.is_some() {
                proof {
                    entries_error_stays::<S>(all, (i + 1) as nat, n as nat);
                }
                return problem;
            }
        }
    }
    None
}

proof fn entries_error_stays<S: Shape>(entries: Seq<(Seq<char>, JsonView)>, n: nat, m: nat)
    requires
        n <= m,
        entries_error::<S>(entries, n) is Some,
    ensures
        entries_error::<S>(entries, m) == entries_error::<S>(entries, n),
    decreases m,
{
    if n < m {
        entries_error_stays::<S>(entries, n, (m - 1) as nat);
    }
}

/// The first field that an object lacks.
pub fn lack_problem<S: Shape>(entries: &Vec<JsonEntry>) -> (r: Option<String>)
    ensures
        r.deep_view() == lack_error::<S>(entries.deep_view(), S::keys().len()),
{
    let ghost all = entries.deep_view();
    let n: usize = S::key_count();
    assert(all.take(all.len() as int) =~= all);
    for i in 0..n
        invariant
            n == S::keys().len(),
            all == entries.deep_view(),
            all.take(all.len() as int) == all,
            lack_error::<S>(all, i as nat) is None,
    {
        let (key, may_lack, _) = S::rule(i);
        if !may_lack && find_key(entries, entries.len(), key).is_none() {
            proof {
                lack_error_stays::<S>(all, (i + 1) as nat, n as nat);
            }
            return Some(missing_field(key));
        }
    }
    None
}

proof fn lack_error_stays<S: Shape>(entries: Seq<(Seq<char>, JsonView)>, n: nat, m: nat)
    requires
        n <= m,
        lack_error::<S>(entries, n) is Some,
    ensures
        lack_error::<S>(entries, m) == lack_error::<S>(entries, n),
    decreases m,
{
    if n < m {
        lack_error_stays::<S>(entries, n, (m - 1) as nat);
    }
}

/// What is wrong with the fields of an array, if anything is.
pub fn items_problem<S: Shape>(items: &Vec<Json>) -> (r: Option<String>)
    ensures
        r.deep_view() == items_error::<S>(items.deep_view(), S::keys().len()),
{
    let ghost all = items.deep_view();
    let n: usize = S::key_count();
    for i in 0..n
        invariant
            n == S::keys().len(),
            all == items.deep_view(),
            items_error::<S>(all, i as nat) is None,
    {
        let (_, _, has_default) = S::rule(i);
        if i < items.len() {
            let problem: Option<String> = S::field_problem(i, &items[i]);
            if problem.is_some() {
                proof {
                    items_error_stays::<S>(all, (i + 1) as nat, n as nat);
                }
                return problem;
            }
        } else if !has_default {
            let expected: String = elements_text::<S>();
            proof {
                items_error_stays::<S>(all, (i + 1) as nat, n as nat);
            }
            return Some(bad_length_message(i, expected.as_str()));
        }
    }
    None
}

proof fn items_error_stays<S: Shape>(items: Seq<JsonView>, n: nat, m: nat)
    requires
        n <= m,
        items_error::<S>(items, n) is Some,
    ensures
        items_error::<S>(items, m) == items_error::<S>(items, n),
    decreases m,
{
    if n < m {
        items_error_stays::<S>(items, n, (m - 1) as nat);
    }
}

/// What is wrong with a value that should be a record, if anything is.
pub fn record_problem<S: Shape>(value: &Json) -> (r: Option<String>)
    ensures
        r.deep_view() == record_error::<S>(value@),
{
    match value {
        Json::Object(entries) => {
            assert(value@->Object_0 =~= entries.deep_view());
            let problem: Option<String> = entries_problem::<S>(entries);
            if problem.is_some() {
                problem
            } else {
                lack_problem::<S>(entries)
            }
        },
        Json::Array(items) => {
            assert(value@->Array_0 =~= items.deep_view());
            let problem: Option<String> = items_problem::<S>(items);
            if problem.is_some() {
                problem
            } else if items.len() > S::key_count() {
                Some(bad_length_message(items.len(), S::excess_text()))
            } else {
                None
            }
        },
        _ => Some(value.mismatch(S::title_text())),
    }
}

/// An entry whose key stands nowhere behind it is found.
pub proof fn entry_is_found(entries: Seq<(Seq<char>, JsonView)>, i: int)
    requires
        0 <= i < entries.len(),
        forall|k: int| i < k < entries.len() ==> (#[trigger] entries[k]).0 != entries[i].0,
    ensures
        key_index(entries, entries[i].0) == i,
    decreases entries.len(),
{
    if i < entries.len() - 1 {
        let rest = entries.drop_last();
        assert(entries[entries.len() - 1].0 != entries[i].0);
        assert forall|k: int| i < k < rest.len() implies (#[trigger] rest[k]).0 != rest[i].0 by {
            assert(entries[k].0 != entries[i].0);
        }
        entry_is_found(rest, i);
    }
}

/// A key that no entry has is not found.
pub proof fn entry_is_not_found(entries: Seq<(Seq<char>, JsonView)>, key: Seq<char>)
    requires
        forall|k: int| 0 <= k < entries.len() ==> (#[trigger] entries[k]).0 != key,
    ensures
        key_index(entries, key) == -1,
    decreases entries.len(),
{
    if entries.len() > 0 {
        let rest = entries.drop_last();
        assert(entries[entries.len() - 1].0 != key);
        assert forall|k: int| 0 <= k < rest.len() implies (#[trigger] rest[k]).0 != key by {
            assert(entries[k].0 != key);
        }
        entry_is_not_found(rest, key);
    }
}

/// An entry with the key of a field, which no entry before it has, has no error where
/// its value has none.
pub proof fn known_entry<S: Shape>(entries: Seq<(Seq<char>, JsonView)>, n: int, i: int)
    requires
        0 <= n < entries.len(),
        0 <= i < S::keys().len(),
        entries[n].0 == S::keys()[i],
        forall|k: int| 0 <= k < n ==> (#[trigger] entries[k]).0 != entries[n].0,
        forall|k: int| i < k < S::keys().len() ==> #[trigger] S::keys()[k] != S::keys()[i],
        S::field_error(i, entries[n].1) is None,
    ensures
        entry_error::<S>(entries, n) is None,
{
    place_is_found(S::keys(), i);
    let before = entries.take(n);
    assert forall|k: int| 0 <= k < before.len() implies (#[trigger] before[k]).0 != entries[n].0 by {
        assert(before[k] == entries[k]);
    }
    entry_is_not_found(before, entries[n].0);
}

/// An entry with the key of no field has no error.
pub proof fn unknown_entry<S: Shape>(entries: Seq<(Seq<char>, JsonView)>, n: int)
    requires
        0 <= n < entries.len(),
        forall|k: int| 0 <= k < S::keys().len() ==> #[trigger] S::keys()[k] != entries[n].0,
    ensures
        entry_error::<S>(entries, n) is None,
{
    place_is_not_found(S::keys(), entries[n].0);
}

/// A field that stands nowhere behind its place is found there.
pub proof fn place_is_found(keys: Seq<Seq<char>>, i: int)
    requires
        0 <= i < keys.len(),
        forall|k: int| i < k < keys.len() ==> #[trigger] keys[k] != keys[i],
    ensures
        place(keys, keys[i]) == i,
    decreases keys.len(),
{
    if i < keys.len() - 1 {
        let rest = keys.drop_last();
        assert(keys[keys.len() - 1] != keys[i]);
        assert forall|k: int| i < k < rest.len() implies #[trigger] rest[k] != rest[i] by {
            assert(keys[k] != keys[i]);
        }
        place_is_found(rest, i);
    }
}

proof fn place_is_not_found(keys: Seq<Seq<char>>, key: Seq<char>)
    requires
        forall|k: int| 0 <= k < keys.len() ==> #[trigger] keys[k] != key,
    ensures
        place(keys, key) == -1,
    decreases keys.len(),
{
    if keys.len() > 0 {
        let rest = keys.drop_last();
        assert(keys[keys.len() - 1] != key);
        assert forall|k: int| 0 <= k < rest.len() implies #[trigger] rest[k] != key by {
            assert(keys[k] != key);
        }
        place_is_not_found(rest, key);
    }
}

/// An object whose entries have no error, and which lacks nothing, has none.
pub proof fn record_is_fine<S: Shape>(entries: Seq<(Seq<char>, JsonView)>)
    requires
        forall|n: int| 0 <= n < entries.len() ==> #[trigger] entry_error::<S>(entries, n) is None,
        forall|i: int|
            0 <= i < S::keys().len() ==> S::may_lack(i) || key_index(
                entries,
                #[trigger] S::keys()[i],
            ) >= 0,
    ensures
        record_error::<S>(JsonView::Object(entries)) is None,
{
    entries_are_fine::<S>(entries, entries.len());
    nothing_lacks::<S>(entries, S::keys().len());
}

proof fn entries_are_fine<S: Shape>(entries: Seq<(Seq<char>, JsonView)>, n: nat)
    requires
        n <= entries.len(),
        forall|k: int| 0 <= k < entries.len() ==> #[trigger] entry_error::<S>(entries, k) is None,
    ensures
        entries_error::<S>(entries, n) is None,
    decreases n,
{
    if n > 0 {
        entries_are_fine::<S>(entries, (n - 1) as nat);
    }
}

proof fn nothing_lacks<S: Shape>(entries: Seq<(Seq<char>, JsonView)>, n: nat)
    requires
        n <= S::keys().len(),
        forall|i: int|
            0 <= i < S::keys().len() ==> S::may_lack(i) || key_index(
                entries,
                #[trigger] S::keys()[i],
            ) >= 0,
    ensures
        lack_error::<S>(entries, n) is None,
    decreases n,
{
    if n > 0 {
        nothing_lacks::<S>(entries, (n - 1) as nat);
        assert(S::may_lack(n - 1) || key_index(entries, S::keys()[n - 1]) >= 0);
    }
}

proof fn key_is_found(entries: Seq<(Seq<char>, JsonView)>, i: int)
    requires
        0 <= i < entries.len(),
    ensures
        i <= key_index(entries, entries[i].0) < entries.len(),
    decreases entries.len(),
{
    if entries.last().0 != entries[i].0 {
        key_is_found(entries.drop_last(), i);
    }
}

/// A field that an object gives twice is refused, whatever its values are.
pub proof fn repeated_fields_are_refused<S: Shape>(
    entries: Seq<(Seq<char>, JsonView)>,
    a: int,
    b: int,
)
    requires
        0 <= a < b < entries.len(),
        entries[a].0 == entries[b].0,
        place(S::keys(), entries[a].0) >= 0,
    ensures
        record_error::<S>(JsonView::Object(entries)) is Some,
{
    let before = entries.take(b);
    assert(before[a] == entries[a]);
    key_is_found(before, a);
    assert(entry_error::<S>(entries, b) is Some);
    entries_error_stays::<S>(entries, (b + 1) as nat, entries.len());
}

proof fn key_index_without(entries: Seq<(Seq<char>, JsonView)>, n: int, key: Seq<char>)
    requires
        0 <= n < entries.len(),
        entries[n].0 != key,
    ensures
        key_index(entries, key) == {
            let i = key_index(entries.remove(n), key);
            if i < n {
                i
            } else {
                i + 1
            }
        },
    decreases entries.len(),
{
    let rest = entries.remove(n);
    if n < entries.len() - 1 {
        assert(rest.last() == entries.last());
        assert(rest.drop_last() =~= entries.drop_last().remove(n));
        if entries.last().0 != key {
            key_index_without(entries.drop_last(), n, key);
        }
    } else {
        assert(rest =~= entries.drop_last());
        key_index_is_bounded(rest, key);
    }
}

proof fn key_index_is_bounded(entries: Seq<(Seq<char>, JsonView)>, key: Seq<char>)
    ensures
        -1 <= key_index(entries, key) < entries.len(),
    decreases entries.len(),
{
    if entries.len() > 0 {
        key_index_is_bounded(entries.drop_last(), key);
    }
}

proof fn place_has_key(keys: Seq<Seq<char>>, key: Seq<char>)
    ensures
        -1 <= place(keys, key) < keys.len(),
        place(keys, key) >= 0 ==> keys[place(keys, key)] == key,
        forall|k: int| 0 <= k < keys.len() && #[trigger] keys[k] == key ==> place(keys, key) >= 0,
    decreases keys.len(),
{
    if keys.len() > 0 {
        let rest = keys.drop_last();
        place_has_key(rest, key);
        assert forall|k: int| 0 <= k < keys.len() && #[trigger] keys[k] == key implies place(
            keys,
            key,
        ) >= 0 by {
            if k < rest.len() {
                assert(rest[k] == key);
            }
        }
    }
}

proof fn entries_error_without<S: Shape>(entries: Seq<(Seq<char>, JsonView)>, n: int, m: nat)
    requires
        0 <= n < entries.len(),
        m <= entries.len(),
        place(S::keys(), entries[n].0) < 0,
    ensures
        entries_error::<S>(entries, m) == entries_error::<S>(
            entries.remove(n),
            if m <= n {
                m
            } else {
                (m - 1) as nat
            },
        ),
    decreases m,
{
    let rest = entries.remove(n);
    if m > 0 {
        entries_error_without::<S>(entries, n, (m - 1) as nat);
        let k = m - 1;
        if k < n {
            assert(rest[k] == entries[k]);
            assert(rest.take(k) =~= entries.take(k));
        } else if k > n {
            assert(rest[k - 1] == entries[k]);
            let key = entries[k].0;
            if place(S::keys(), key) >= 0 {
                assert(entries.take(k).remove(n) =~= rest.take(k - 1));
                assert(entries.take(k)[n] == entries[n]);
                key_index_without(entries.take(k), n, key);
                key_index_is_bounded(rest.take(k - 1), key);
            }
        }
    }
}

proof fn lack_error_without<S: Shape>(entries: Seq<(Seq<char>, JsonView)>, n: int, m: nat)
    requires
        0 <= n < entries.len(),
        m <= S::keys().len(),
        place(S::keys(), entries[n].0) < 0,
    ensures
        lack_error::<S>(entries.remove(n), m) == lack_error::<S>(entries, m),
    decreases m,
{
    if m > 0 {
        lack_error_without::<S>(entries, n, (m - 1) as nat);
        let key = S::keys()[m - 1];
        place_has_key(S::keys(), entries[n].0);
        key_index_without(entries, n, key);
        key_index_is_bounded(entries.remove(n), key);
    }
}

/// An entry under a key that is no field of a record changes nothing: neither whether
/// there is an error, nor which, nor the fields.
pub proof fn unknown_fields_are_ignored<S: Shape>(entries: Seq<(Seq<char>, JsonView)>, n: int)
    requires
        0 <= n < entries.len(),
        place(S::keys(), entries[n].0) < 0,
    ensures
        record_error::<S>(JsonView::Object(entries.remove(n))) == record_error::<S>(
            JsonView::Object(entries),
        ),
        forall|i: nat, k: int|
            0 <= k < S::keys().len() ==> #[trigger] field(
                JsonView::Object(entries.remove(n)),
                i,
                S::keys()[k],
            ) == field(JsonView::Object(entries), i, S::keys()[k]),
{
    let rest = entries.remove(n);
    entries_error_without::<S>(entries, n, entries.len());
    lack_error_without::<S>(entries, n, S::keys().len());
    place_has_key(S::keys(), entries[n].0);
    assert forall|i: nat, k: int| 0 <= k < S::keys().len() implies #[trigger] field(
        JsonView::Object(rest),
        i,
        S::keys()[k],
    ) == field(JsonView::Object(entries), i, S::keys()[k]) by {
        let key = S::keys()[k];
        key_index_without(entries, n, key);
        key_index_is_bounded(rest, key);
    }
}

/// The value under a key of an object.
pub fn find_entry<'a>(entries: &'a Vec<JsonEntry>, key: &str) -> (r: Option<&'a Json>)
    ensures
        match r {
            Some(x) => entry_value(entries.deep_view(), key@) == Some(x@),
            None => entry_value(entries.deep_view(), key@) is None,
        },
        r matches Some(x) ==> decreases_to!(*entries => *x),
{
    let ghost all = entries.deep_view();
    assert(all.take(all.len() as int) =~= all);
    match find_key(entries, entries.len(), key) {
        None => None,
        Some(i) => {
            let entry: &JsonEntry = &entries[i];
            assert(all[i as int].1 == entry.value@);
            assert(decreases_to!(entries@ => entries@[i as int]));
            Some(&entry.value)
        },
    }
}

impl Json {
    /// A field of a record, by name or by position.
    pub fn field<'a>(&'a self, position: usize, key: &str) -> (r: Option<&'a Json>)
        ensures
            match r {
                Some(x) => field(self@, position as nat, key@) == Some(x@),
                None => field(self@, position as nat, key@) is None,
            },
            r matches Some(x) ==> decreases_to!(*self => *x),
    {
        match self {
            Json::Object(entries) => {
                assert(self@->Object_0 =~= entries.deep_view());
                find_entry(entries, key)
            },
            Json::Array(items) => {
                if position < items.len() {
                    assert(decreases_to!(items@ => items@[position as int]));
                    Some(&items[position])
                } else {
                    None
                }
            },
            _ => None,
        }
    }
}

// ---------------------------------------------------------------------------
// Fields
// ---------------------------------------------------------------------------

/// A text field of a record without errors: empty where it is left out.
pub open spec fn text_at(v: JsonView, position: nat, key: Seq<char>) -> Seq<char> {
    match field(v, position, key) {
        Some(JsonView::String(s)) => s,
        _ => Seq::empty(),
    }
}

/// A text field that may be `null` or left out.
pub open spec fn optional_text_at(v: JsonView, position: nat, key: Seq<char>) -> Option<Seq<char>> {
    match field(v, position, key) {
        Some(JsonView::String(s)) => Some(s),
        _ => None,
    }
}

/// A boolean field that may be `null` or left out.
pub open spec fn optional_bool_at(v: JsonView, position: nat, key: Seq<char>) -> Option<bool> {
    match field(v, position, key) {
        Some(JsonView::Bool(b)) => Some(b),
        _ => None,
    }
}

/// A number field that may be `null` or left out.
pub open spec fn optional_number_at(v: JsonView, position: nat, key: Seq<char>) -> Option<
    JsonNumberView,
> {
    match field(v, position, key) {
        Some(JsonView::Number(n)) => Some(n),
        _ => None,
    }
}

/// A field of any type, which may be `null` or left out.
pub open spec fn optional_at(v: JsonView, position: nat, key: Seq<char>) -> Option<JsonView> {
    match field(v, position, key) {
        Some(JsonView::Null) => None,
        x => x,
    }
}

/// A field of any type: `null` where it is left out.
pub open spec fn any_at(v: JsonView, position: nat, key: Seq<char>) -> JsonView {
    match field(v, position, key) {
        Some(x) => x,
        None => JsonView::Null,
    }
}

impl Json {
    /// Reads a text field.
    pub fn text_at(&self, position: usize, key: &str) -> (r: String)
        ensures
            r@ == text_at(self@, position as nat, key@),
    {
        match self.field(position, key) {
            Some(Json::String(s)) => s.clone(),
            _ => String::new(),
        }
    }

    /// Reads a text field that may be `null` or left out.
    pub fn optional_text_at(&self, position: usize, key: &str) -> (r: Option<String>)
        ensures
            r.deep_view() == optional_text_at(self@, position as nat, key@),
    {
        match self.field(position, key) {
            Some(Json::String(s)) => Some(s.clone()),
            _ => None,
        }
    }

    /// Reads a boolean field that may be `null` or left out.
    pub fn optional_bool_at(&self, position: usize, key: &str) -> (r: Option<bool>)
        ensures
            r == optional_bool_at(self@, position as nat, key@),
    {
        match self.field(position, key) {
            Some(Json::Bool(b)) => Some(*b),
            _ => None,
        }
    }

    /// Reads a number field that may be `null` or left out.
    pub fn optional_number_at(&self, position: usize, key: &str) -> (r: Option<JsonNumber>)
        ensures
            r.deep_view() == optional_number_at(self@, position as nat, key@),
    {
        match self.field(position, key) {
            Some(Json::Number(n)) => Some(n.duplicate()),
            _ => None,
        }
    }

    /// A copy of a field of any type, which may be `null` or left out.
    pub fn optional_at(&self, position: usize, key: &str) -> (r: Option<Json>)
        ensures
            r.deep_view() == optional_at(self@, position as nat, key@),
    {
        match self.field(position, key) {
            Some(Json::Null) => None,
            Some(x) => Some(x.duplicate()),
            None => None,
        }
    }

    /// A field of any type.
    pub fn any_ref<'a>(&'a self, position: usize, key: &str) -> (r: &'a Json)
        ensures
            r@ == any_at(self@, position as nat, key@),
    {
        match self.field(position, key) {
            Some(x) => x,
            None => &Json::Null,
        }
    }

    /// A copy of a field of any type.
    pub fn any_at(&self, position: usize, key: &str) -> (r: Json)
        ensures
            r@ == any_at(self@, position as nat, key@),
    {
        match self.field(position, key) {
            Some(x) => x.duplicate(),
            None => Json::Null,
        }
    }
}

} // verus!
