use vstd::prelude::*;

use crate::list::List;
use crate::text::{digit, digit_char};

verus! {

/// An integer literal of any size: its sign, and its decimal digits without leading zeros.
/// Zero has no digits and is not negative.
pub struct LitInt {
    negative: bool,
    digits: List<u8>,
}

/// Ten to the power `n`.
pub open spec fn pow10(n: nat) -> nat
    decreases n,
{
    if n == 0 {
        1
    } else {
        10 * pow10((n - 1) as nat)
    }
}

/// The number that a list of digits stands for, the most significant first.
pub open spec fn magnitude(digits: List<u8>) -> nat
    decreases digits,
{
    match digits {
        List::Nil => 0,
        List::Cons(d, rest) => d as nat * pow10(rest@.len()) + magnitude(*rest),
    }
}

/// Whether every element is a decimal digit.
pub open spec fn all_digits(digits: List<u8>) -> bool
    decreases digits,
{
    match digits {
        List::Nil => true,
        List::Cons(d, rest) => d <= 9 && all_digits(*rest),
    }
}

/// Whether a sign and digits are in the form in which a literal keeps them: digits only, no
/// leading zero, no negative zero.
pub open spec fn normal(negative: bool, digits: List<u8>) -> bool {
    &&& all_digits(digits)
    &&& match digits {
        List::Nil => !negative,
        List::Cons(d, _) => d > 0,
    }
}

/// The integer that a sign and digits stand for.
pub open spec fn signed(negative: bool, digits: List<u8>) -> int {
    if negative {
        -(magnitude(digits) as int)
    } else {
        magnitude(digits) as int
    }
}

impl LitInt {
    #[verifier::type_invariant]
    spec fn wf(self) -> bool {
        normal(self.negative, self.digits)
    }

    /// The integer itself.
    pub closed spec fn value(self) -> int {
        signed(self.negative, self.digits)
    }
}

proof fn lemma_magnitude_bound(digits: List<u8>)
    requires
        all_digits(digits),
    ensures
        magnitude(digits) < pow10(digits@.len()),
    decreases digits,
{
    match digits {
        List::Nil => {},
        List::Cons(d, rest) => {
            lemma_magnitude_bound(*rest);
            let p = pow10(rest@.len());
            assert(digits@.len() == rest@.len() + 1);
            assert(d as nat * p + p <= 10 * p) by (nonlinear_arith)
                requires
                    d <= 9,
            ;
        },
    }
}

proof fn lemma_pow10_monotone(a: nat, b: nat)
    requires
        a <= b,
    ensures
        pow10(a) <= pow10(b),
        0 < pow10(a),
    decreases b,
{
    if b > 0 {
        if a < b {
            lemma_pow10_monotone(a, (b - 1) as nat);
        } else {
            lemma_pow10_monotone((a - 1) as nat, (b - 1) as nat);
        }
    }
}

/// A longer number without leading zero is larger.
proof fn lemma_longer_is_larger(a: List<u8>, b: List<u8>)
    requires
        all_digits(a),
        all_digits(b),
        a@.len() < b@.len(),
        b matches List::Cons(d, _) ==> d > 0,
    ensures
        magnitude(a) < magnitude(b),
{
    lemma_magnitude_bound(a);
    match b {
        List::Nil => {},
        List::Cons(d, rest) => {
            assert(b@.len() == rest@.len() + 1);
            lemma_pow10_monotone(a@.len(), rest@.len());
            assert(d as nat * pow10(rest@.len()) >= pow10(rest@.len())) by (nonlinear_arith)
                requires
                    d > 0,
            ;
        },
    }
}

/// Compares two digit lists by length.
fn shorter(a: &List<u8>, b: &List<u8>) -> (r: bool)
    ensures
        r == (a@.len() < b@.len()),
    decreases a,
{
    match (a, b) {
        (_, List::Nil) => false,
        (List::Nil, List::Cons(_, _)) => true,
        (List::Cons(_, s), List::Cons(_, t)) => shorter(&**s, &**t),
    }
}

/// Compares two digit lists of the same length.
fn smaller(a: &List<u8>, b: &List<u8>) -> (r: bool)
    requires
        all_digits(*a),
        all_digits(*b),
        a@.len() == b@.len(),
    ensures
        r == (magnitude(*a) < magnitude(*b)),
    decreases a,
{
    match (a, b) {
        (List::Cons(x, s), List::Cons(y, t)) => {
            let ghost p = pow10(s@.len());
            assert(s@.len() == t@.len());
            proof {
                lemma_magnitude_bound(**s);
                lemma_magnitude_bound(**t);
            }
            if *x < *y {
                assert(*x as nat * p + p <= *y as nat * p) by (nonlinear_arith)
                    requires
                        *x < *y,
                ;
                true
            } else if *y < *x {
                assert(*y as nat * p + p <= *x as nat * p) by (nonlinear_arith)
                    requires
                        *y < *x,
                ;
                false
            } else {
                smaller(&**s, &**t)
            }
        },
        _ => false,
    }
}

/// Whether one magnitude is less than another.
fn magnitude_less(a: &List<u8>, b: &List<u8>) -> (r: bool)
    requires
        all_digits(*a),
        all_digits(*b),
        *a matches List::Cons(d, _) ==> d > 0,
        *b matches List::Cons(d, _) ==> d > 0,
    ensures
        r == (magnitude(*a) < magnitude(*b)),
{
    if shorter(a, b) {
        proof {
            lemma_longer_is_larger(*a, *b);
        }
        true
    } else if shorter(b, a) {
        proof {
            lemma_longer_is_larger(*b, *a);
        }
        false
    } else {
        smaller(a, b)
    }
}

impl LitInt {
    /// Whether this integer is less than the other.
    pub fn less(&self, other: &LitInt) -> (r: bool)
        ensures
            r == (self.value() < other.value()),
    {
        proof {
            use_type_invariant(self);
            use_type_invariant(other);
            lemma_zero_only_empty(self.digits);
            lemma_zero_only_empty(other.digits);
        }
        if self.negative {
            if other.negative {
                magnitude_less(&other.digits, &self.digits)
            } else {
                true
            }
        } else if other.negative {
            false
        } else {
            magnitude_less(&self.digits, &other.digits)
        }
    }

    /// The literal for a machine integer.
    pub fn from_u64(n: u64) -> (r: LitInt)
        ensures
            r.value() == n,
    {
        let mut digits: List<u8> = List::Nil;
        let mut rest: u64 = n;
        let ghost mut scale: nat = 1;
        while rest > 0
            invariant
                all_digits(digits),
                rest * scale + magnitude(digits) == n,
                scale == pow10(digits@.len()),
                rest == 0 ==> (digits matches List::Cons(d, _) ==> d > 0),
            decreases rest,
        {
            let d: u8 = (rest % 10) as u8;
            let ghost old_digits = digits;
            let ghost old_scale = scale;
            let ghost old_rest = rest;
            digits = List::Cons(d, Box::new(digits));
            rest = rest / 10;
            proof {
                assert(digits@.len() == old_digits@.len() + 1);
                scale = 10 * old_scale;
                assert(old_rest * old_scale == (old_rest / 10) * (10 * old_scale) + (old_rest % 10)
                    * old_scale) by (nonlinear_arith)
                    requires
                        old_rest == (old_rest / 10) * 10 + old_rest % 10,
                ;
            }
        }
        LitInt { negative: false, digits }
    }

    /// The literal with the other sign.
    pub fn negated(&self) -> (r: LitInt)
        ensures
            r.value() == -self.value(),
    {
        proof {
            use_type_invariant(self);
        }
        let negative = match &self.digits {
            List::Nil => false,
            List::Cons(_, _) => !self.negative,
        };
        LitInt { negative, digits: dupe_digits(&self.digits) }
    }

    /// The literal with the given sign and digits, where they are in the form in which a literal
    /// keeps them.
    pub fn from_digits(negative: bool, digits: List<u8>) -> (r: Option<LitInt>)
        ensures
            r is Some == normal(negative, digits),
            r is Some ==> (r->0).value() == signed(negative, digits),
    {
        if !check_digits(&digits) {
            return None;
        }
        let fits = match &digits {
            List::Nil => !negative,
            List::Cons(d, _) => *d > 0,
        };
        if fits {
            Some(LitInt { negative, digits })
        } else {
            None
        }
    }

    /// The literal as it is written in decimal notation.
    pub closed spec fn written(self) -> Seq<char> {
        let digits = self.digits@.map_values(|d: u8| digit(d as nat));
        if digits.len() == 0 {
            seq!['0']
        } else if self.negative {
            seq!['-'] + digits
        } else {
            digits
        }
    }

    /// The literal as it is written in decimal notation.
    pub fn text(&self) -> (r: String)
        ensures
            r@ == self.written(),
    {
        proof {
            use_type_invariant(self);
        }
        let mut out: String = String::new();
        if self.digits.is_empty() {
            out.push('0');
            assert(out@ =~= seq!['0']);
            return out;
        }
        if self.negative {
            out.push('-');
        }
        let ghost sign = out@;
        push_digits(&self.digits, &mut out);
        assert(out@ =~= sign + self.digits@.map_values(|d: u8| digit(d as nat)));
        assert(out@ =~= self.written());
        out
    }

    pub fn dupe(&self) -> (r: LitInt)
        ensures
            r == *self,
    {
        proof {
            use_type_invariant(self);
        }
        LitInt { negative: self.negative, digits: dupe_digits(&self.digits) }
    }
}

fn push_digits(digits: &List<u8>, out: &mut String)
    requires
        all_digits(*digits),
    ensures
        final(out)@ == old(out)@ + digits@.map_values(|d: u8| digit(d as nat)),
    decreases digits,
{
    match digits {
        List::Nil => {},
        List::Cons(d, rest) => {
            out.push(digit_char(*d as u64));
            push_digits(&**rest, out);
        },
    }
    assert(out@ =~= old(out)@ + digits@.map_values(|d: u8| digit(d as nat)));
}

fn dupe_digits(digits: &List<u8>) -> (r: List<u8>)
    ensures
        r == *digits,
    decreases digits,
{
    match digits {
        List::Nil => List::Nil,
        List::Cons(d, rest) => List::Cons(*d, Box::new(dupe_digits(&**rest))),
    }
}

fn check_digits(digits: &List<u8>) -> (r: bool)
    ensures
        r == all_digits(*digits),
    decreases digits,
{
    match digits {
        List::Nil => true,
        List::Cons(d, rest) => *d <= 9 && check_digits(&**rest),
    }
}

proof fn lemma_zero_only_empty(digits: List<u8>)
    requires
        all_digits(digits),
        digits matches List::Cons(d, _) ==> d > 0,
    ensures
        magnitude(digits) == 0 <==> digits is Nil,
{
    match digits {
        List::Nil => {},
        List::Cons(d, rest) => {
            lemma_pow10_monotone(0, rest@.len());
            assert(d as nat * pow10(rest@.len()) > 0) by (nonlinear_arith)
                requires
                    d > 0,
                    pow10(rest@.len()) > 0,
            ;
        },
    }
}

} // verus!
