//! Maps from texts to texts.
use crate::text::same_text;
use vstd::prelude::*;

verus! {

/// A key and its value.
#[derive(Debug)]
pub struct StringPair {
    pub key: String,
    pub value: String,
}

/// A map from texts to texts, kept as a list in which no key stands twice.
#[derive(Debug)]
pub struct StringMap {
    pairs: Vec<StringPair>,
}

/// The map that a list of pairs spells, a later pair before an earlier one.
pub open spec fn map_of(pairs: Seq<(Seq<char>, Seq<char>)>) -> Map<Seq<char>, Seq<char>>
    decreases pairs.len(),
{
    if pairs.len() == 0 {
        Map::empty()
    } else {
        map_of(pairs.drop_last()).insert(pairs.last().0, pairs.last().1)
    }
}

impl DeepView for StringPair {
    type V = (Seq<char>, Seq<char>);

    open spec fn deep_view(&self) -> (Seq<char>, Seq<char>) {
        (self.key@, self.value@)
    }
}

impl View for StringMap {
    type V = Map<Seq<char>, Seq<char>>;

    closed spec fn view(&self) -> Map<Seq<char>, Seq<char>> {
        map_of(self.pairs.deep_view())
    }
}

impl DeepView for StringMap {
    type V = Map<Seq<char>, Seq<char>>;

    open spec fn deep_view(&self) -> Map<Seq<char>, Seq<char>> {
        self@
    }
}

/// Whether no key stands twice in a list of pairs.
pub open spec fn distinct_keys(pairs: Seq<(Seq<char>, Seq<char>)>) -> bool {
    forall|i: int, j: int|
        0 <= i < j < pairs.len() ==> (#[trigger] pairs[i]).0 != (#[trigger] pairs[j]).0
}

/// A key that stands nowhere in the list is not in the map.
proof fn absent_key(pairs: Seq<(Seq<char>, Seq<char>)>, key: Seq<char>)
    requires
        forall|i: int| 0 <= i < pairs.len() ==> (#[trigger] pairs[i]).0 != key,
    ensures
        !map_of(pairs).dom().contains(key),
    decreases pairs.len(),
{
    if pairs.len() > 0 {
        let rest = pairs.drop_last();
        assert forall|i: int| 0 <= i < rest.len() implies (#[trigger] rest[i]).0 != key by {
            assert(rest[i] == pairs[i]);
        }
        absent_key(rest, key);
        assert(pairs.last().0 != key);
    }
}

/// Where no key stands twice, each pair of the list is in the map.
proof fn present_pair(pairs: Seq<(Seq<char>, Seq<char>)>, i: int)
    requires
        distinct_keys(pairs),
        0 <= i < pairs.len(),
    ensures
        map_of(pairs).dom().contains(pairs[i].0),
        map_of(pairs)[pairs[i].0] == pairs[i].1,
    decreases pairs.len(),
{
    if i < pairs.len() - 1 {
        let rest = pairs.drop_last();
        assert(rest[i] == pairs[i]);
        assert forall|a: int, b: int| 0 <= a < b < rest.len() implies (#[trigger] rest[a]).0 != (
        #[trigger] rest[b]).0 by {
            assert(rest[a] == pairs[a] && rest[b] == pairs[b]);
        }
        present_pair(rest, i);
        assert(pairs[i].0 != pairs.last().0);
    }
}

/// Taking a pair out of the list takes its key out of the map.
proof fn removed_pair(pairs: Seq<(Seq<char>, Seq<char>)>, i: int)
    requires
        distinct_keys(pairs),
        0 <= i < pairs.len(),
    ensures
        map_of(pairs.remove(i)) == map_of(pairs).remove(pairs[i].0),
    decreases pairs.len(),
{
    let rest = pairs.drop_last();
    assert forall|a: int, b: int| 0 <= a < b < rest.len() implies (#[trigger] rest[a]).0 != (
    #[trigger] rest[b]).0 by {
        assert(rest[a] == pairs[a] && rest[b] == pairs[b]);
    }
    if i == pairs.len() - 1 {
        assert(pairs.remove(i) =~= rest);
        assert forall|a: int| 0 <= a < rest.len() implies (#[trigger] rest[a]).0
            != pairs[i].0 by {
            assert(rest[a] == pairs[a]);
        }
        absent_key(rest, pairs[i].0);
        assert(map_of(rest) =~= map_of(pairs).remove(pairs[i].0));
    } else {
        removed_pair(rest, i);
        assert(rest[i] == pairs[i]);
        assert(pairs.remove(i).drop_last() =~= rest.remove(i));
        assert(pairs.remove(i).last() == pairs.last());
        assert(pairs[i].0 != pairs.last().0);
        assert(map_of(pairs.remove(i)) =~= map_of(pairs).remove(pairs[i].0));
    }
}

impl StringMap {
    #[verifier::type_invariant]
    closed spec fn well_formed(self) -> bool {
        distinct_keys(self.pairs.deep_view())
    }

    /// The empty map.
    pub fn new() -> (r: StringMap)
        ensures
            r@ == Map::<Seq<char>, Seq<char>>::empty(),
    {
        StringMap { pairs: Vec::new() }
    }

    /// The place of a key in the list.
    fn position(&self, key: &str) -> (r: Option<usize>)
        ensures
            match r {
                Some(i) => i < self.pairs@.len() && self.pairs@[i as int].key@ == key@,
                None => forall|i: int|
                    0 <= i < self.pairs@.len() ==> (#[trigger] self.pairs@[i]).key@ != key@,
            },
    {
        let n: usize = self.pairs.len();
        for i in 0..n
            invariant
                n == self.pairs@.len(),
                forall|k: int| 0 <= k < i ==> (#[trigger] self.pairs@[k]).key@ != key@,
        {
            if same_text(self.pairs[i].key.as_str(), key) {
                return Some(i);
            }
        }
        None
    }

    /// What stands under a key.
    pub fn get(&self, key: &str) -> (r: Option<&String>)
        ensures
            match r {
                Some(value) => self@.dom().contains(key@) && self@[key@] == value@,
                None => !self@.dom().contains(key@),
            },
    {
        proof {
            use_type_invariant(self);
        }
        match self.position(key) {
            Some(i) => {
                proof {
                    present_pair(self.pairs.deep_view(), i as int);
                }
                Some(&self.pairs[i].value)
            },
            None => {
                proof {
                    absent_key(self.pairs.deep_view(), key@);
                }
                None
            },
        }
    }

    /// The map with a value put under a key, in place of what stood there.
    pub fn with(self, key: String, value: String) -> (r: StringMap)
        ensures
            r@ == self@.insert(key@, value@),
    {
        proof {
            use_type_invariant(&self);
        }
        let ghost before = self.pairs.deep_view();
        let found: Option<usize> = self.position(key.as_str());
        let mut pairs: Vec<StringPair> = self.pairs;
        let ghost ks = key@;
        let ghost vs = value@;
        match found {
            Some(i) => {
                proof {
                    removed_pair(before, i as int);
                }
                pairs.remove(i);
                assert(pairs.deep_view() =~= before.remove(i as int));
            },
            None => {
                proof {
                    absent_key(before, key@);
                }
            },
        }
        let ghost between = pairs.deep_view();
        assert(forall|k: int| 0 <= k < between.len() ==> (#[trigger] between[k]).0 != ks);
        assert(distinct_keys(between));
        pairs.push(StringPair { key, value });
        assert(pairs.deep_view() =~= between.push((ks, vs)));
        assert(pairs.deep_view().drop_last() =~= between);
        assert(map_of(pairs.deep_view()) =~= map_of(before).insert(ks, vs));
        StringMap { pairs }
    }

    /// The pairs of the map.
    pub fn pairs(&self) -> (r: &Vec<StringPair>)
        ensures
            map_of(r.deep_view()) == self@,
            distinct_keys(r.deep_view()),
    {
        proof {
            use_type_invariant(self);
        }
        &self.pairs
    }
}

} // verus!
