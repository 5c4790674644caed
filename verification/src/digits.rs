//! The lexical side of `u256` literals: the grammar that accepted strings
//! match (one digit, then any number of digits), the number a digit string
//! denotes, and the canonical decimal text of a number.

use vstd::prelude::*;

verus! {

/// `2^256`: the least number too large for a `u256` payload.
pub open spec fn u256_bound() -> int {
    0x10000000000000000000000000000000000000000000000000000000000000000int
}

/// An ASCII decimal digit.
pub open spec fn is_digit_char(c: char) -> bool {
    '0' <= c && c <= '9'
}

/// Numeric value of a decimal digit character.
pub open spec fn digit_value(c: char) -> int {
    c as int - '0' as int
}

/// Digit character for a value in `0..=9`.
pub open spec fn digit_char(d: int) -> char {
    if d == 0 {
        '0'
    } else if d == 1 {
        '1'
    } else if d == 2 {
        '2'
    } else if d == 3 {
        '3'
    } else if d == 4 {
        '4'
    } else if d == 5 {
        '5'
    } else if d == 6 {
        '6'
    } else if d == 7 {
        '7'
    } else if d == 8 {
        '8'
    } else {
        '9'
    }
}

/// Every character of `s` is a decimal digit.
pub open spec fn all_digits(s: Seq<char>) -> bool {
    forall|i: int| 0 <= i < s.len() ==> is_digit_char(#[trigger] s[i])
}

/// The lexical grammar of a `u256` literal: a digit followed by any number of
/// further digits. Leading zeros are deliberately admitted; canonicalization
/// happens on display, not on input.
pub open spec fn matches_u256_grammar(s: Seq<char>) -> bool {
    s.len() > 0 && all_digits(s)
}

/// The number denoted by a digit string, most significant digit first.
/// The empty string denotes zero.
pub open spec fn dec_value(s: Seq<char>) -> int
    decreases s.len(),
{
    if s.len() == 0 {
        0
    } else {
        10 * dec_value(s.drop_last()) + digit_value(s.last())
    }
}

/// The digits of a positive number, most significant first; empty for zero.
pub open spec fn dec_digits(n: nat) -> Seq<char>
    decreases n,
{
    if n == 0 {
        Seq::empty()
    } else {
        dec_digits(n / 10).push(digit_char(n as int % 10))
    }
}

/// The canonical decimal text of a number: no sign, no leading zero, and
/// `"0"` for zero.
pub open spec fn dec_string(n: nat) -> Seq<char> {
    if n == 0 {
        seq!['0']
    } else {
        dec_digits(n)
    }
}

/// The strings from which construction of a `u256` payload succeeds: they
/// match the grammar and denote a number below `2^256`.
pub open spec fn construct_ok(s: Seq<char>) -> bool {
    matches_u256_grammar(s) && dec_value(s) < u256_bound()
}

/// Message of a parse failure, carrying the rejected text.
pub open spec fn failed_parse_msg(s: Seq<char>) -> Seq<char> {
    "input string is not a well-formed u256 value: "@ + s
}

/// Message of an overflow failure.
pub open spec fn overflow_msg() -> Seq<char> {
    "overflow when converting to u256"@
}

/// Exec check of the lexical grammar.
pub fn check_u256_grammar(s: &str) -> (r: bool)
    ensures
        r == matches_u256_grammar(s@),
{
    let len = s.unicode_len();
    if len == 0 {
        return false;
    }
    let mut i: usize = 0;
    while i < len
        invariant
            len == s@.len(),
            0 <= i <= len,
            forall|j: int| 0 <= j < i ==> is_digit_char(#[trigger] s@[j]),
        decreases len - i,
    {
        let c = s.get_char(i);
        if !('0' <= c && c <= '9') {
            return false;
        }
        i = i + 1;
    }
    true
}

/// A digit string denotes a number no less than zero.
pub proof fn lemma_dec_value_nonneg(s: Seq<char>)
    requires
        all_digits(s),
    ensures
        dec_value(s) >= 0,
    decreases s.len(),
{
    if s.len() > 0 {
        assert(all_digits(s.drop_last()));
        lemma_dec_value_nonneg(s.drop_last());
    }
}

/// The canonical digits of a number are digits, denote that number again, and
/// never start with a zero.
pub proof fn lemma_dec_digits_value(n: nat)
    ensures
        all_digits(dec_digits(n)),
        dec_value(dec_digits(n)) == n,
        n > 0 ==> dec_digits(n).len() > 0 && dec_digits(n).first() != '0',
    decreases n,
{
    if n > 0 {
        lemma_dec_digits_value(n / 10);
        let prefix = dec_digits(n / 10);
        let d = n as int % 10;
        let whole = prefix.push(digit_char(d));
        assert(whole.drop_last() =~= prefix);
        assert(whole.last() == digit_char(d));
        assert(is_digit_char(digit_char(d)));
        assert(digit_value(digit_char(d)) == d);
        assert(dec_value(whole) == 10 * (n / 10) + n % 10);
        assert(all_digits(whole));
        if n / 10 > 0 {
            assert(whole.first() == prefix.first());
        } else {
            assert(whole.len() == 1);
            assert(whole.first() == digit_char(d));
            assert(d != 0);
        }
    }
}

/// Canonical text round-trips: it matches the grammar, denotes the number it
/// was made from, and carries no sign and no leading zero.
pub proof fn lemma_dec_string_value(n: nat)
    ensures
        matches_u256_grammar(dec_string(n)),
        dec_value(dec_string(n)) == n,
        n == 0 ==> dec_string(n) == seq!['0'],
        n > 0 ==> dec_string(n).first() != '0',
{
    if n == 0 {
        let s = seq!['0'];
        assert(s.len() == 1);
        assert(s.last() == '0');
        assert(s.drop_last() =~= Seq::<char>::empty());
        assert(dec_value(s.drop_last()) == 0);
        assert(digit_value('0') == 0);
        assert(dec_value(s) == 10 * dec_value(s.drop_last()) + digit_value(s.last()));
        assert(dec_value(s) == 0);
        assert(all_digits(s));
    } else {
        lemma_dec_digits_value(n);
    }
}

/// Round-trip idempotence of construction and display: the canonical text of
/// the number an accepted string denotes matches the grammar, denotes the same
/// number again, and is itself already canonical, so one further
/// construct-and-display step changes nothing.
pub proof fn lemma_round_trip(s: Seq<char>)
    requires
        matches_u256_grammar(s),
    ensures
        matches_u256_grammar(dec_string(dec_value(s) as nat)),
        dec_value(dec_string(dec_value(s) as nat)) == dec_value(s),
        dec_string(dec_value(dec_string(dec_value(s) as nat)) as nat) == dec_string(
            dec_value(s) as nat,
        ),
{
    lemma_dec_value_nonneg(s);
    lemma_dec_string_value(dec_value(s) as nat);
}

} // verus!
