//! Strings: comparison, prefixes, joining and decimal numerals.
use vstd::prelude::*;
use vstd::string::*;

verus! {

/// Whether two strings hold the same characters.
pub fn same_text(a: &str, b: &str) -> (r: bool)
    ensures
        r == (a@ == b@),
{
    let left: String = a.to_owned();
    let right: String = b.to_owned();
    left == right
}

/// An owned copy of a string.
pub fn owned(s: &str) -> (r: String)
    ensures
        r@ == s@,
{
    s.to_owned()
}

/// Two strings, one after the other.
pub fn joined(a: &str, b: &str) -> (r: String)
    ensures
        r@ == a@ + b@,
{
    let left: String = a.to_owned();
    left.concat(b)
}

/// Whether `s` starts with `prefix`.
pub open spec fn starts_with(s: Seq<char>, prefix: Seq<char>) -> bool {
    &&& prefix.len() <= s.len()
    &&& s.subrange(0, prefix.len() as int) == prefix
}

/// What follows `prefix` in `s`, where `s` starts with it.
pub open spec fn after_prefix(s: Seq<char>, prefix: Seq<char>) -> Option<Seq<char>> {
    if starts_with(s, prefix) {
        Some(s.subrange(prefix.len() as int, s.len() as int))
    } else {
        None
    }
}

/// The rest of `s` behind `prefix`, or nothing where `s` does not start with it.
pub fn strip_prefix(s: &str, prefix: &str) -> (r: Option<String>)
    ensures
        match r {
            Some(rest) => after_prefix(s@, prefix@) == Some(rest@),
            None => after_prefix(s@, prefix@) is None,
        },
{
    let n: usize = prefix.unicode_len();
    let m: usize = s.unicode_len();
    if n <= m && same_text(s.substring_char(0, n), prefix) {
        Some(owned(s.substring_char(n, m)))
    } else {
        None
    }
}

/// The decimal digit of a number below ten.
pub open spec fn digit(d: nat) -> char {
    if d == 0 {
        '0'
    } else if d == 1 {
        '1'
    } else if d == 2 {
        '2'
    } else if d == 3 {
        '3'
    } else if d == 4 {
        '4'
    } else if d == 5 {
        '5'
    } else if d == 6 {
        '6'
    } else if d == 7 {
        '7'
    } else if d == 8 {
        '8'
    } else {
        '9'
    }
}

/// The decimal numeral of a number.
pub open spec fn numeral(n: nat) -> Seq<char>
    decreases n,
{
    if n < 10 {
        seq![digit(n)]
    } else {
        numeral(n / 10).push(digit(n % 10))
    }
}

/// Different numbers have different numerals.
pub proof fn numeral_identifies(a: nat, b: nat)
    requires
        numeral(a) == numeral(b),
    ensures
        a == b,
    decreases a,
{
    numeral_is_not_empty(a / 10);
    numeral_is_not_empty(b / 10);
    assert(numeral(a).last() == digit(a % 10));
    assert(numeral(b).last() == digit(b % 10));
    if a >= 10 && b >= 10 {
        assert(numeral(a).drop_last() =~= numeral(a / 10));
        assert(numeral(b).drop_last() =~= numeral(b / 10));
        numeral_identifies(a / 10, b / 10);
    } else if a >= 10 {
        assert(numeral(a).len() > 1);
    } else if b >= 10 {
        assert(numeral(b).len() > 1);
    }
}

proof fn numeral_is_not_empty(n: nat)
    ensures
        numeral(n).len() > 0,
{
}

fn digit_text(d: u64) -> (r: &'static str)
    requires
        d < 10,
    ensures
        r@ == seq![digit(d as nat)],
{
    proof {
        reveal_strlit("0");
        reveal_strlit("1");
        reveal_strlit("2");
        reveal_strlit("3");
        reveal_strlit("4");
        reveal_strlit("5");
        reveal_strlit("6");
        reveal_strlit("7");
        reveal_strlit("8");
        reveal_strlit("9");
    }
    if d == 0 {
        "0"
    } else if d == 1 {
        "1"
    } else if d == 2 {
        "2"
    } else if d == 3 {
        "3"
    } else if d == 4 {
        "4"
    } else if d == 5 {
        "5"
    } else if d == 6 {
        "6"
    } else if d == 7 {
        "7"
    } else if d == 8 {
        "8"
    } else {
        "9"
    }
}

/// The decimal numeral of a number of 64 bits.
pub fn decimal_of(n: u64) -> (r: String)
    ensures
        r@ == numeral(n as nat),
    decreases n,
{
    if n < 10 {
        owned(digit_text(n))
    } else {
        let head: String = decimal_of(n / 10);
        let r: String = head.concat(digit_text(n % 10));
        assert(r@ =~= numeral(n as nat));
        r
    }
}

/// The decimal numeral of `n`.
pub fn decimal(n: usize) -> (r: String)
    ensures
        r@ == numeral(n as nat),
{
    decimal_of(n as u64)
}

/// The number that a decimal digit stands for.
pub open spec fn digit_value(c: char) -> nat {
    if '0' <= c <= '9' {
        (c as u32 - '0' as u32) as nat
    } else {
        0
    }
}

/// The number that some decimal digits spell.
pub open spec fn digits_value(digits: Seq<char>) -> nat
    decreases digits.len(),
{
    if digits.len() == 0 {
        0
    } else {
        10 * digits_value(digits.drop_last()) + digit_value(digits.last())
    }
}

/// A numeral spells its number in decimal digits, without a zero in front.
pub proof fn numerals_spell_their_number(n: nat)
    ensures
        digits_value(numeral(n)) == n,
        forall|i: int| 0 <= i < numeral(n).len() ==> '0' <= #[trigger] numeral(n)[i] <= '9',
        numeral(n).len() > 0,
        n > 0 ==> numeral(n)[0] != '0',
    decreases n,
{
    if n < 10 {
        assert(numeral(n).drop_last() =~= Seq::<char>::empty());
        assert(digits_value(Seq::<char>::empty()) == 0);
    } else {
        numerals_spell_their_number(n / 10);
        assert(numeral(n).drop_last() =~= numeral(n / 10));
    }
}

/// What follows a prefix is what was put behind it, and nothing follows where the text does
/// not start with the prefix.
pub proof fn prefixes_come_off(s: Seq<char>, prefix: Seq<char>)
    ensures
        after_prefix(prefix + s, prefix) == Some(s),
        after_prefix(s, prefix) matches Some(rest) ==> s == prefix + rest,
        after_prefix(s, prefix) is None ==> forall|rest: Seq<char>| s != #[trigger] (prefix + rest),
        starts_with(s, prefix) <==> after_prefix(s, prefix) is Some,
{
    let both = prefix + s;
    assert(both.subrange(0, prefix.len() as int) =~= prefix);
    assert(both.subrange(prefix.len() as int, both.len() as int) =~= s);
    if let Some(rest) = after_prefix(s, prefix) {
        assert(s =~= prefix + rest);
    } else {
        assert forall|rest: Seq<char>| s != #[trigger] (prefix + rest) by {
            if s == prefix + rest {
                assert(s.subrange(0, prefix.len() as int) =~= prefix);
            }
        }
    }
}

} // verus!
