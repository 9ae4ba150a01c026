//! Prices in ether, held as the decimal text in which they are stored.
//!
//! A price is a decimal number: an optional sign, digits with at most one
//! point among them, and an optional exponent of ten.

use vstd::prelude::*;
use vstd::string::{StrSliceExecFns, StringExecFns};

verus! {

/// Whether `c` is one of the ten decimal digits.
pub open spec fn is_digit(c: char) -> bool {
    '0' <= c <= '9'
}

/// Whether `c` is a decimal digit other than zero.
pub open spec fn is_nonzero_digit(c: char) -> bool {
    '1' <= c <= '9'
}

/// Whether `c` is a plus or a minus sign.
pub open spec fn is_sign(c: char) -> bool {
    c == '+' || c == '-'
}

/// Whether `c` marks the exponent of a number.
pub open spec fn is_exponent_mark(c: char) -> bool {
    c == 'e' || c == 'E'
}

/// Whether the text begins with a minus sign.
pub open spec fn is_negated(s: Seq<char>) -> bool {
    s.len() > 0 && s[0] == '-'
}

/// The text without its sign.
pub open spec fn magnitude(s: Seq<char>) -> Seq<char> {
    if s.len() > 0 && is_sign(s[0]) {
        s.subrange(1, s.len() as int)
    } else {
        s
    }
}

/// Whether every character of the text is a digit.
pub open spec fn all_digits(s: Seq<char>) -> bool {
    forall|i: int| 0 <= i < s.len() ==> is_digit(#[trigger] s[i])
}

/// A mantissa: digits with at most one point, before, among or behind them,
/// and at least one digit.
pub open spec fn is_mantissa(m: Seq<char>) -> bool {
    &&& forall|i: int| 0 <= i < m.len() ==> is_digit(#[trigger] m[i]) || m[i] == '.'
    &&& forall|i: int, j: int|
        0 <= i < j < m.len() && #[trigger] m[i] == '.' ==> #[trigger] m[j] != '.'
    &&& exists|i: int| 0 <= i < m.len() && is_digit(#[trigger] m[i])
}

/// What may follow the mark of an exponent: an optional sign and at least one
/// digit.
pub open spec fn is_exponent(x: Seq<char>) -> bool {
    magnitude(x).len() > 0 && all_digits(magnitude(x))
}

/// Whether the unsigned text `u` is a number whose mantissa ends before the
/// position `e`: what stands before `e` is a mantissa, and what follows is
/// nothing, or the mark of an exponent and an exponent.
pub open spec fn splits_at(u: Seq<char>, e: int) -> bool {
    &&& 0 <= e <= u.len()
    &&& is_mantissa(u.subrange(0, e))
    &&& e < u.len() ==> is_exponent_mark(u[e]) && is_exponent(u.subrange(e + 1, u.len() as int))
}

/// An unsigned decimal: a mantissa, with or without an exponent.
pub open spec fn is_unsigned_decimal(u: Seq<char>) -> bool {
    exists|e: int| splits_at(u, e)
}

/// A decimal number: an unsigned decimal, with or without a sign before it.
pub open spec fn is_decimal(s: Seq<char>) -> bool {
    is_unsigned_decimal(magnitude(s))
}

/// Whether some digit of the text is not zero.
pub open spec fn has_nonzero_digit(m: Seq<char>) -> bool {
    exists|i: int| 0 <= i < m.len() && is_nonzero_digit(#[trigger] m[i])
}

/// A decimal number that is greater than zero: it has no minus sign, and some
/// digit of its mantissa is not zero.
pub open spec fn is_positive_decimal(s: Seq<char>) -> bool {
    &&& !is_negated(s)
    &&& exists|e: int| #[trigger]
        splits_at(magnitude(s), e) && has_nonzero_digit(magnitude(s).subrange(0, e))
}

/// A number has one mantissa: a text splits at one position at most.
pub proof fn lemma_split_is_unique(u: Seq<char>, a: int, b: int)
    requires
        splits_at(u, a),
        splits_at(u, b),
    ensures
        a == b,
{
    if a < b {
        assert(u.subrange(0, b)[a] == u[a]);
    }
    if b < a {
        assert(u.subrange(0, a)[b] == u[b]);
    }
}

/// What a scan of a text finds: whether it is a decimal number, and whether
/// that number is greater than zero.
pub struct Scan {
    pub decimal: bool,
    pub positive: bool,
}

/// What a scan finds of the mantissa at the head of a text.
struct Mantissa {
    /// Where the mantissa ends.
    end: usize,
    /// Whether it holds a digit.
    has_digit: bool,
    /// Whether it holds a digit that is not zero.
    nonzero: bool,
}

/// Takes one leading sign off a text.
fn strip_sign<'a>(text: &'a str) -> (rest: &'a str)
    ensures
        rest@ == magnitude(text@),
{
    let n = text.unicode_len();
    if n > 0 {
        let c = text.get_char(0);
        if c == '+' || c == '-' {
            return text.substring_char(1, n);
        }
    }
    text
}

/// Whether every character of a text is a digit.
fn only_digits(text: &str) -> (yes: bool)
    ensures
        yes == all_digits(text@),
{
    let n = text.unicode_len();
    let mut i: usize = 0;
    while i < n
        invariant
            0 <= i <= n,
            n == text@.len(),
            forall|k: int| 0 <= k < i ==> is_digit(#[trigger] text@[k]),
        decreases n - i,
    {
        let c = text.get_char(i);
        if !(c >= '0' && c <= '9') {
            return false;
        }
        i += 1;
    }
    true
}

/// Whether a text may follow the mark of an exponent.
fn exponent_follows(text: &str) -> (yes: bool)
    ensures
        yes == is_exponent(text@),
{
    let digits = strip_sign(text);
    digits.unicode_len() > 0 && only_digits(digits)
}

/// Scans the digits and the one point that a text begins with.
fn scan_mantissa(u: &str) -> (m: Mantissa)
    ensures
        m.end <= u@.len(),
        forall|k: int| 0 <= k < m.end ==> is_digit(#[trigger] u@[k]) || u@[k] == '.',
        forall|i: int, j: int|
            0 <= i < j < m.end && #[trigger] u@[i] == '.' ==> #[trigger] u@[j] != '.',
        m.has_digit == exists|k: int| 0 <= k < m.end && is_digit(#[trigger] u@[k]),
        m.nonzero == exists|k: int| 0 <= k < m.end && is_nonzero_digit(#[trigger] u@[k]),
        m.end < u@.len() ==> !is_digit(u@[m.end as int]),
        m.end < u@.len() && u@[m.end as int] == '.' ==> exists|k: int|
            0 <= k < m.end && #[trigger] u@[k] == '.',
{
    let n = u.unicode_len();
    let mut i: usize = 0;
    let mut stop = false;
    let mut point_seen = false;
    let mut has_digit = false;
    let mut nonzero = false;
    let ghost mut point_at: int = 0;
    let ghost mut digit_at: int = 0;
    let ghost mut nonzero_at: int = 0;
    while i < n && !stop
        invariant
            0 <= i <= n,
            n == u@.len(),
            forall|k: int| 0 <= k < i ==> is_digit(#[trigger] u@[k]) || u@[k] == '.',
            point_seen ==> 0 <= point_at < i && u@[point_at] == '.',
            forall|k: int| 0 <= k < i && #[trigger] u@[k] == '.' ==> point_seen && k == point_at,
            has_digit ==> 0 <= digit_at < i && is_digit(u@[digit_at]),
            !has_digit ==> forall|k: int| 0 <= k < i ==> !is_digit(#[trigger] u@[k]),
            nonzero ==> 0 <= nonzero_at < i && is_nonzero_digit(u@[nonzero_at]),
            !nonzero ==> forall|k: int| 0 <= k < i ==> !is_nonzero_digit(#[trigger] u@[k]),
            stop ==> i < n && !is_digit(u@[i as int]) && (u@[i as int] == '.' ==> point_seen),
        decreases n - i, if stop { 0int } else { 1int },
    {
        let c = u.get_char(i);
        if c == '.' && !point_seen {
            point_seen = true;
            proof {
                point_at = i as int;
            }
            i += 1;
        } else if c >= '0' && c <= '9' {
            if !has_digit {
                has_digit = true;
                proof {
                    digit_at = i as int;
                }
            }
            if c != '0' && !nonzero {
                nonzero = true;
                proof {
                    nonzero_at = i as int;
                }
            }
            i += 1;
        } else {
            stop = true;
        }
    }
    proof {
        if has_digit {
            assert(is_digit(u@[digit_at]));
        }
        if nonzero {
            assert(is_nonzero_digit(u@[nonzero_at]));
        }
        if i < n && u@[i as int] == '.' {
            assert(u@[point_at] == '.');
        }
    }
    Mantissa { end: i, has_digit, nonzero }
}

/// Scans `text` once and classifies it.
pub fn scan(text: &str) -> (found: Scan)
    ensures
        found.decimal == is_decimal(text@),
        found.positive == is_positive_decimal(text@),
{
    let negated = text.unicode_len() > 0 && text.get_char(0) == '-';
    let u = strip_sign(text);
    let n = u.unicode_len();
    let m = scan_mantissa(u);
    let ghost head = u@.subrange(0, m.end as int);
    proof {
        assert(forall|k: int| 0 <= k < head.len() ==> head[k] == u@[k]);
        // No position but the end of the scanned mantissa can split the text.
        assert forall|e: int| splits_at(u@, e) implies e == m.end by {
            if e < m.end {
                assert(is_digit(u@[e]) || u@[e] == '.');
            }
            if e > m.end {
                let longer = u@.subrange(0, e);
                assert(longer[m.end as int] == u@[m.end as int]);
                if u@[m.end as int] == '.' {
                    let k = choose|k: int| 0 <= k < m.end && #[trigger] u@[k] == '.';
                    assert(longer[k] == u@[k]);
                }
            }
        }
        if m.has_digit {
            let k = choose|k: int| 0 <= k < m.end && is_digit(#[trigger] u@[k]);
            assert(is_digit(head[k]));
            assert(is_mantissa(head));
        } else {
            assert(forall|k: int| 0 <= k < head.len() ==> !is_digit(#[trigger] head[k]));
            assert(!is_mantissa(head));
        }
        if m.nonzero {
            let k = choose|k: int| 0 <= k < m.end && is_nonzero_digit(#[trigger] u@[k]);
            assert(is_nonzero_digit(head[k]));
        } else {
            assert(forall|k: int| 0 <= k < head.len() ==> !is_nonzero_digit(#[trigger] head[k]));
        }
        assert(m.nonzero == has_nonzero_digit(head));
    }
    if !m.has_digit {
        return Scan { decimal: false, positive: false };
    }
    if m.end < n {
        let c = u.get_char(m.end);
        if !(c == 'e' || c == 'E') {
            return Scan { decimal: false, positive: false };
        }
        if !exponent_follows(u.substring_char(m.end + 1, n)) {
            return Scan { decimal: false, positive: false };
        }
    }
    assert(splits_at(u@, m.end as int));
    Scan { decimal: true, positive: !negated && m.nonzero }
}

/// A price in ether.
///
/// The decimal text is the stored form of the price: it is written to a record
/// as it is and read back unchanged.
#[derive(Debug)]
pub struct Price {
    text: String,
}

impl Clone for Price {
    fn clone(&self) -> (copy: Self)
        ensures
            copy == *self,
    {
        Price { text: self.text.clone() }
    }
}

impl View for Price {
    type V = Seq<char>;

    closed spec fn view(&self) -> Seq<char> {
        self.text@
    }
}

impl Price {
    /// Whether the value holds a decimal number.
    pub open spec fn wf(self) -> bool {
        is_decimal(self@)
    }

    /// Reads a price from decimal text, keeping the text as given. Returns
    /// `None` exactly when the text is not a decimal number.
    pub fn parse(text: &str) -> (parsed: Option<Self>)
        ensures
            parsed.is_some() == is_decimal(text@),
            parsed matches Some(p) ==> p@ == text@ && p.wf(),
    {
        if scan(text).decimal {
            Some(Price { text: String::from_str(text) })
        } else {
            None
        }
    }

    /// The decimal text.
    pub fn to_string(&self) -> (text: String)
        ensures
            text@ == self@,
    {
        self.text.clone()
    }

    /// Whether the price is greater than zero.
    pub fn is_positive(&self) -> (positive: bool)
        ensures
            positive == is_positive_decimal(self@),
    {
        scan(self.text.as_str()).positive
    }
}

} // verus!
