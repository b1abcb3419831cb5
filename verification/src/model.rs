//! Shared vocabulary of the specifications: the value of a result, and lists
//! that are read one element at a time.
use vstd::prelude::*;

verus! {

/// The value of a result: what it holds, by its view.
pub open spec fn outcome<T: DeepView, E: DeepView>(r: Result<T, E>) -> Result<T::V, E::V> {
    match r {
        Ok(x) => Ok(x.deep_view()),
        Err(e) => Err(e.deep_view()),
    }
}

/// Some results together: all that they hold, or the first error.
pub open spec fn collected<T, E>(results: Seq<Result<T, E>>) -> Result<Seq<T>, E>
    decreases results.len(),
{
    if results.len() == 0 {
        Ok(Seq::empty())
    } else {
        match collected(results.drop_last()) {
            Err(e) => Err(e),
            Ok(values) => match results.last() {
                Err(e) => Err(e),
                Ok(value) => Ok(values.push(value)),
            },
        }
    }
}

/// Whether the first `n` results hold these values.
pub open spec fn so_far<T, E>(results: Seq<Result<T, E>>, n: int, values: Seq<T>) -> bool {
    collected(results.take(n)) matches Ok(all) && all == values
}

/// The next result adds its value, or its error is the first.
pub proof fn collected_next<T, E>(results: Seq<Result<T, E>>, n: int, values: Seq<T>)
    requires
        0 <= n < results.len(),
        so_far(results, n, values),
    ensures
        match results[n] {
            Ok(value) => so_far(results, n + 1, values.push(value)),
            Err(e) => collected(results) matches Err(first) && first == e,
        },
{
    assert(results.take(n + 1).drop_last() =~= results.take(n));
    if results[n] is Err {
        collected_stops(results, n);
    }
}

/// All results that were collected hold their values.
pub proof fn collected_all<T, E>(results: Seq<Result<T, E>>)
    ensures
        collected(results) matches Ok(values) ==> values.len() == results.len() && forall|i: int|
            0 <= i < results.len() ==> (#[trigger] results[i]) == Ok::<T, E>(values[i]),
    decreases results.len(),
{
    if results.len() > 0 {
        let rest = results.drop_last();
        collected_all(rest);
        if let Ok(values) = collected(results) {
            assert forall|i: int| 0 <= i < results.len() implies (#[trigger] results[i]) == Ok::<
                T,
                E,
            >(values[i]) by {
                if i < rest.len() {
                    assert(rest[i] == results[i]);
                }
            }
        }
    }
}

proof fn collected_stops<T, E>(results: Seq<Result<T, E>>, n: int)
    requires
        0 <= n < results.len(),
        collected(results.take(n + 1)) is Err,
    ensures
        collected(results) == collected(results.take(n + 1)),
    decreases results.len(),
{
    if n + 1 == results.len() {
        assert(results.take(n + 1) =~= results);
    } else {
        assert(results.drop_last().take(n + 1) =~= results.take(n + 1));
        collected_stops(results.drop_last(), n);
    }
}

/// A value that fills in where there is none.
pub open spec fn or_else<T>(first: Option<T>, second: Option<T>) -> Option<T> {
    match first {
        Some(x) => Some(x),
        None => second,
    }
}

/// What an option holds, or else a given value.
pub open spec fn or_value<T>(option: Option<T>, default: T) -> T {
    match option {
        Some(x) => x,
        None => default,
    }
}

/// A text, or nothing where the text is empty.
pub open spec fn nonempty(s: Seq<char>) -> Option<Seq<char>> {
    if s.len() == 0 {
        None
    } else {
        Some(s)
    }
}

/// A text, or nothing where the text is empty.
pub fn nonempty_text(s: &str) -> (r: Option<String>)
    ensures
        r.deep_view() == nonempty(s@),
{
    if s.is_empty() {
        None
    } else {
        Some(crate::text::owned(s))
    }
}

} // verus!
