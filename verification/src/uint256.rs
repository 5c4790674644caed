//! The `u256` payload: a 256-bit unsigned integer held as four 64-bit words,
//! constructed from decimal text and rendered back to canonical decimal text.
//! The decimal conversions delegate to the big-integer library; ordering and
//! equality are computed and proved here.

use vstd::prelude::*;

use crate::digits::{
    all_digits, construct_ok, dec_string, dec_value, matches_u256_grammar, u256_bound,
    check_u256_grammar, failed_parse_msg, overflow_msg,
};
use crate::names::Name;

verus! {

/// A 256-bit unsigned integer. `w0` holds the least significant 64 bits,
/// `w3` the most significant.
#[derive(Debug, Clone, Copy, PartialEq, Eq, Structural)]
pub struct UINT256 {
    pub w0: u64,
    pub w1: u64,
    pub w2: u64,
    pub w3: u64,
}

/// The number a payload holds.
pub open spec fn limbs_value(v: UINT256) -> int {
    v.w0 + v.w1 * 0x10000000000000000int + v.w2 * 0x100000000000000000000000000000000int
        + v.w3 * 0x1000000000000000000000000000000000000000000000000int
}

/// A payload holds a number in `0 .. 2^256`.
pub proof fn lemma_limbs_value_range(v: UINT256)
    ensures
        0 <= limbs_value(v) < u256_bound(),
{
}

/// Word-by-word comparison, most significant word first.
pub open spec fn limbs_lex_lt(a: UINT256, b: UINT256) -> bool {
    ||| a.w3 < b.w3
    ||| (a.w3 == b.w3 && (a.w2 < b.w2 || (a.w2 == b.w2 && (a.w1 < b.w1 || (a.w1 == b.w1
        && a.w0 < b.w0)))))
}

/// A word-by-word smaller payload holds a smaller number.
#[verifier::rlimit(50)]
proof fn lemma_lex_implies_lt(a: UINT256, b: UINT256)
    requires
        limbs_lex_lt(a, b),
    ensures
        limbs_value(a) < limbs_value(b),
{
    let p64 = 0x10000000000000000int;
    let p128 = 0x100000000000000000000000000000000int;
    let p192 = 0x1000000000000000000000000000000000000000000000000int;
    if a.w3 < b.w3 {
        assert(a.w3 as int + 1 <= b.w3 as int);
        assert(a.w0 < p64 && a.w1 < p64 && a.w2 < p64);
        assert(a.w0 + a.w1 * p64 + a.w2 * p128 < p192);
        assert(limbs_value(a) < (a.w3 as int + 1) * p192);
        assert((a.w3 as int + 1) * p192 <= b.w3 as int * p192);
        assert(b.w3 as int * p192 <= limbs_value(b));
    } else if a.w2 < b.w2 {
        assert(a.w0 + a.w1 * p64 < p128);
        assert(limbs_value(a) < a.w3 as int * p192 + (a.w2 as int + 1) * p128);
        assert((a.w2 as int + 1) * p128 <= b.w2 as int * p128);
    } else if a.w1 < b.w1 {
        assert(a.w0 < p64);
        assert(limbs_value(a) < a.w3 as int * p192 + a.w2 as int * p128 + (a.w1 as int + 1)
            * p64);
        assert((a.w1 as int + 1) * p64 <= b.w1 as int * p64);
    } else {
        assert(a.w0 < b.w0);
    }
}

/// The word order is the numeric order, and equal numbers have equal words.
#[verifier::rlimit(50)]
pub proof fn lemma_limb_order(a: UINT256, b: UINT256)
    ensures
        limbs_lex_lt(a, b) <==> limbs_value(a) < limbs_value(b),
        (limbs_value(a) == limbs_value(b)) <==> a == b,
{
    if limbs_lex_lt(a, b) {
        lemma_lex_implies_lt(a, b);
    } else if limbs_lex_lt(b, a) {
        lemma_lex_implies_lt(b, a);
    } else {
        assert(a.w3 == b.w3 && a.w2 == b.w2 && a.w1 == b.w1 && a.w0 == b.w0);
        assert(a == b);
    }
}

/// Total order consistency: of `lt`, equality and `gt` exactly one holds for
/// any two payloads, and `le` agrees with `lt`-or-equal.
pub proof fn lemma_total_order(x: UINT256, y: UINT256)
    ensures
        (limbs_value(x) < limbs_value(y)) || (x == y) || (limbs_value(y) < limbs_value(x)),
        (limbs_value(x) < limbs_value(y)) ==> !(x == y) && !(limbs_value(y) < limbs_value(x)),
        (x == y) ==> !(limbs_value(x) < limbs_value(y)) && !(limbs_value(y) < limbs_value(x)),
        (limbs_value(x) <= limbs_value(y)) <==> ((limbs_value(x) < limbs_value(y)) || x == y),
{
    lemma_limb_order(x, y);
}

/// Why constructing a payload from text failed.
#[derive(Debug)]
pub enum U256Error {
    /// The text does not match the lexical grammar of a `u256` literal.
    FailedParse(String),
    /// The text is a digit string but denotes a number of more than 256 bits.
    Overflow,
}

/// The message a construction error carries.
pub open spec fn u256_error_msg(e: U256Error) -> Seq<char> {
    match e {
        U256Error::FailedParse(s) => failed_parse_msg(s@),
        U256Error::Overflow => overflow_msg(),
    }
}

impl U256Error {
    /// Renders the error as a human-readable message.
    pub fn message(&self) -> (r: String)
        ensures
            r@ == u256_error_msg(*self),
    {
        match self {
            U256Error::FailedParse(s) => {
                let mut m = String::from_str("input string is not a well-formed u256 value: ");
                m.append(s.as_str());
                m
            },
            U256Error::Overflow => String::from_str("overflow when converting to u256"),
        }
    }
}

/// Relies on `ethers::types::U256::from_dec_str` (the `uint` crate's decimal
/// parser): it folds the decimal digits of the string into a 256-bit number,
/// reports an invalid-character error on any non-digit byte, and an
/// invalid-length error when the number does not fit in 256 bits. Both
/// failures collapse to `None` here; the caller has already told them apart
/// by checking the grammar first.
#[verifier::external_body]
fn parse_decimal_payload(s: &str) -> (r: Option<UINT256>)
    ensures
        (r is Some) <==> (all_digits(s@) && dec_value(s@) < u256_bound()),
        match r {
            Some(v) => limbs_value(v) == dec_value(s@),
            None => true,
        },
{
    match ethers::types::U256::from_dec_str(s) {
        Ok(u) => Some(UINT256 { w0: u.0[0], w1: u.0[1], w2: u.0[2], w3: u.0[3] }),
        Err(_) => None,
    }
}

/// Relies on the `Display` of `ethers::types::U256` (the `uint` crate's
/// decimal formatter): it prints the number in decimal with no sign and no
/// leading zeros, and prints `"0"` for zero.
#[verifier::external_body]
fn payload_to_decimal(v: &UINT256) -> (r: String)
    ensures
        r@ == dec_string(limbs_value(*v) as nat),
{
    format!("{}", ethers::types::U256([v.w0, v.w1, v.w2, v.w3]))
}

impl UINT256 {
    /// The typename of `u256` values.
    pub fn typename() -> (r: Name)
        ensures
            r@ == "u256"@,
    {
        Name::of_str("u256")
    }

    /// Converts a string into a payload: the string must match the lexical
    /// grammar (digits only, at least one) and denote a number below `2^256`.
    /// The two failure modes are told apart exactly: a grammar mismatch is a
    /// parse failure carrying the offending text, a well-formed but too large
    /// number is an overflow.
    pub fn from_str(s: &str) -> (r: Result<UINT256, U256Error>)
        ensures
            construct_ok(s@) ==> (match r {
                Ok(v) => limbs_value(v) == dec_value(s@),
                Err(_) => false,
            }),
            !matches_u256_grammar(s@) ==> (match r {
                Ok(_) => false,
                Err(e) => e matches U256Error::FailedParse(t) && t@ == s@,
            }),
            (matches_u256_grammar(s@) && dec_value(s@) >= u256_bound()) ==> (r matches Err(
                U256Error::Overflow,
            )),
    {
        if !check_u256_grammar(s) {
            return Err(U256Error::FailedParse(s.to_owned()));
        }
        match parse_decimal_payload(s) {
            Some(v) => Ok(v),
            None => Err(U256Error::Overflow),
        }
    }

    /// Renders the payload as canonical decimal text: the unique digit string
    /// without leading zeros that denotes it.
    pub fn to_decimal_string(&self) -> (r: String)
        ensures
            r@ == dec_string(limbs_value(*self) as nat),
    {
        payload_to_decimal(self)
    }

    /// Numeric `<` on payloads.
    pub fn lt(&self, other: &UINT256) -> (r: bool)
        ensures
            r == (limbs_value(*self) < limbs_value(*other)),
    {
        proof {
            lemma_limb_order(*self, *other);
        }
        if self.w3 != other.w3 {
            self.w3 < other.w3
        } else if self.w2 != other.w2 {
            self.w2 < other.w2
        } else if self.w1 != other.w1 {
            self.w1 < other.w1
        } else {
            self.w0 < other.w0
        }
    }

    /// Numeric `<=` on payloads.
    pub fn le(&self, other: &UINT256) -> (r: bool)
        ensures
            r == (limbs_value(*self) <= limbs_value(*other)),
    {
        proof {
            lemma_limb_order(*other, *self);
        }
        !other.lt(self)
    }

    /// Numeric `>` on payloads.
    pub fn gt(&self, other: &UINT256) -> (r: bool)
        ensures
            r == (limbs_value(*self) > limbs_value(*other)),
    {
        other.lt(self)
    }

    /// Numeric `>=` on payloads.
    pub fn ge(&self, other: &UINT256) -> (r: bool)
        ensures
            r == (limbs_value(*self) >= limbs_value(*other)),
    {
        other.le(self)
    }

    /// Payload equality is numeric equality.
    pub fn same_value(&self, other: &UINT256) -> (r: bool)
        ensures
            r == (limbs_value(*self) == limbs_value(*other)),
    {
        proof {
            lemma_limb_order(*self, *other);
        }
        *self == *other
    }
}

} // verus!
