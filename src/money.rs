//! Exact decimal amounts: an integer mantissa and a power-of-ten scale.
use vstd::prelude::*;

verus! {

/// The largest scale an amount may carry (digits after the decimal point).
pub const MAX_SCALE: u32 = 28;

/// The largest magnitude of a mantissa (`2^96 - 1`).
pub const MAX_UNITS: i128 = 79228162514264337593543950335;

pub open spec fn pow10(n: nat) -> int
    decreases n,
{
    if n == 0 {
        1
    } else {
        10 * pow10((n - 1) as nat)
    }
}

pub proof fn lemma_pow10_positive(n: nat)
    ensures
        pow10(n) >= 1,
    decreases n,
{
    if n > 0 {
        lemma_pow10_positive((n - 1) as nat);
    }
}

pub proof fn lemma_pow10_add(m: nat, n: nat)
    ensures
        pow10(m + n) == pow10(m) * pow10(n),
    decreases m,
{
    if m > 0 {
        lemma_pow10_add((m - 1) as nat, n);
        assert((m + n - 1) as nat == ((m - 1) as nat + n) as nat);
        assert(pow10(m + n) == 10 * pow10((m + n - 1) as nat));
        assert(10 * (pow10((m - 1) as nat) * pow10(n)) == (10 * pow10((m - 1) as nat)) * pow10(n))
            by (nonlinear_arith);
    }
}

/// An exact decimal number `units * 10^(-scale)`.
#[derive(Clone, Copy, Debug, PartialEq, Eq, Structural)]
pub struct Money {
    pub units: i128,
    pub scale: u32,
}

/// The larger of two scales, at which both amounts are exact integers.
pub open spec fn common_scale(a: Money, b: Money) -> nat {
    if a.scale >= b.scale {
        a.scale as nat
    } else {
        b.scale as nat
    }
}

impl Money {
    pub open spec fn wf(self) -> bool {
        self.scale <= MAX_SCALE && -MAX_UNITS <= self.units <= MAX_UNITS
    }

    /// The mantissa of this amount written at scale `s` (for `s >= scale`).
    pub open spec fn at_scale(self, s: nat) -> int {
        self.units * pow10((s - self.scale) as nat)
    }

    /// The amount in units of `10^(-MAX_SCALE)`: an exact integer for every
    /// well-formed amount, so amounts compare and add as integers.
    pub open spec fn value(self) -> int {
        self.at_scale(MAX_SCALE as nat)
    }

    /// An amount of `units * 10^(-scale)`, when it lies in range.
    pub fn new(units: i128, scale: u32) -> (r: Option<Money>)
        ensures
            r is Some <==> (scale <= MAX_SCALE && -MAX_UNITS <= units <= MAX_UNITS),
            r matches Some(m) ==> m.units == units && m.scale == scale && m.wf(),
    {
        if scale <= MAX_SCALE && -MAX_UNITS <= units && units <= MAX_UNITS {
            Some(Money { units, scale })
        } else {
            None
        }
    }

    /// Whether this amount is in range: a scale of at most `MAX_SCALE` and a
    /// mantissa of at most `MAX_UNITS` in magnitude.
    pub fn wf_check(&self) -> (r: bool)
        ensures
            r == self.wf(),
    {
        self.scale <= MAX_SCALE && -MAX_UNITS <= self.units && self.units <= MAX_UNITS
    }

    pub fn zero() -> (r: Money)
        ensures
            r.wf(),
            r.value() == 0,
    {
        Money { units: 0, scale: 0 }
    }

    pub fn is_positive(&self) -> (r: bool)
        ensures
            r == (self.value() > 0),
    {
        proof {
            lemma_pow10_positive((MAX_SCALE - self.scale) as nat);
            lemma_sign_of_scaled(self.units as int, pow10((MAX_SCALE - self.scale) as nat));
        }
        self.units > 0
    }

    pub fn is_negative(&self) -> (r: bool)
        ensures
            r == (self.value() < 0),
    {
        proof {
            lemma_pow10_positive((MAX_SCALE - self.scale) as nat);
            lemma_sign_of_scaled(self.units as int, pow10((MAX_SCALE - self.scale) as nat));
        }
        self.units < 0
    }
}

proof fn lemma_sign_of_scaled(x: int, p: int)
    requires
        p >= 1,
    ensures
        (x * p > 0) == (x > 0),
        (x * p < 0) == (x < 0),
        (x * p == 0) == (x == 0),
{
    if x > 0 {
        assert(x * p > 0) by (nonlinear_arith)
            requires
                x > 0,
                p >= 1,
        ;
    } else if x < 0 {
        assert(x * p < 0) by (nonlinear_arith)
            requires
                x < 0,
                p >= 1,
        ;
    }
}

/// `x * 10^d`, or `None` when that leaves the range of `i128`.
fn rescale(x: i128, d: u32) -> (r: Option<i128>)
    ensures
        r matches Some(v) ==> v == x * pow10(d as nat),
        r is None ==> (x * pow10(d as nat) > i128::MAX || x * pow10(d as nat) < i128::MIN),
{
    let mut v: i128 = x;
    let mut i: u32 = 0;
    while i < d
        invariant
            i <= d,
            v == x * pow10(i as nat),
        decreases d - i,
    {
        if v > i128::MAX / 10 || v < i128::MIN / 10 {
            proof {
                let rest = (d - i) as nat;
                lemma_pow10_add(i as nat, rest);
                assert((i + rest) as nat == d as nat);
                assert(x * pow10(d as nat) == v * pow10(rest)) by (nonlinear_arith)
                    requires
                        pow10(d as nat) == pow10(i as nat) * pow10(rest),
                        v == x * pow10(i as nat),
                ;
                lemma_pow10_positive((rest - 1) as nat);
                assert(pow10(rest) == 10 * pow10((rest - 1) as nat));
                let p = pow10(rest);
                if v > 0 {
                    assert(v * p >= v * 10) by (nonlinear_arith)
                        requires
                            v > 0,
                            p >= 10,
                    ;
                } else {
                    assert(v * p <= v * 10) by (nonlinear_arith)
                        requires
                            v < 0,
                            p >= 10,
                    ;
                }
            }
            return None;
        }
        proof {
            assert(pow10((i + 1) as nat) == 10 * pow10(i as nat));
            assert(x * (10 * pow10(i as nat)) == (x * pow10(i as nat)) * 10) by (nonlinear_arith);
        }
        v = v * 10;
        i = i + 1;
    }
    Some(v)
}

/// Writing both amounts at a common scale `s` does not change how they compare
/// or what they add up to: at the finest scale each value is `at_scale(s)`
/// times the same power of ten.
proof fn lemma_value_from_scale(m: Money, s: nat)
    requires
        m.scale <= s <= MAX_SCALE,
    ensures
        m.value() == m.at_scale(s) * pow10((MAX_SCALE - s) as nat),
{
    let a = (s - m.scale) as nat;
    let b = (MAX_SCALE - s) as nat;
    lemma_pow10_add(a, b);
    assert((a + b) as nat == (MAX_SCALE - m.scale) as nat);
    assert(m.units * (pow10(a) * pow10(b)) == (m.units * pow10(a)) * pow10(b)) by (nonlinear_arith);
}

proof fn lemma_scaled_order(x: int, y: int, p: int)
    requires
        p >= 1,
    ensures
        (x <= y) == (x * p <= y * p),
        (x < y) == (x * p < y * p),
        x * p + y * p == (x + y) * p,
        x * p - y * p == (x - y) * p,
{
    assert(x * p + y * p == (x + y) * p) by (nonlinear_arith);
    assert(x * p - y * p == (x - y) * p) by (nonlinear_arith);
    if x <= y {
        assert(x * p <= y * p) by (nonlinear_arith)
            requires
                x <= y,
                p >= 1,
        ;
    } else {
        assert(x * p > y * p) by (nonlinear_arith)
            requires
                x > y,
                p >= 1,
        ;
    }
    if x < y {
        assert(x * p < y * p) by (nonlinear_arith)
            requires
                x < y,
                p >= 1,
        ;
    } else {
        assert(x * p >= y * p) by (nonlinear_arith)
            requires
                x >= y,
                p >= 1,
        ;
    }
}

/// Both mantissas at the common scale, each when it fits in `i128`.
fn align(a: &Money, b: &Money) -> (r: (Option<i128>, Option<i128>, u32))
    requires
        a.wf(),
        b.wf(),
    ensures
        r.2 as nat == common_scale(*a, *b),
        r.0 matches Some(v) ==> v == a.at_scale(r.2 as nat),
        r.1 matches Some(v) ==> v == b.at_scale(r.2 as nat),
        r.0 is None ==> r.1 == Some(b.units) && b.scale == r.2 && (a.at_scale(r.2 as nat)
            > i128::MAX || a.at_scale(r.2 as nat) < i128::MIN),
        r.1 is None ==> r.0 == Some(a.units) && a.scale == r.2 && (b.at_scale(r.2 as nat)
            > i128::MAX || b.at_scale(r.2 as nat) < i128::MIN),
{
    let s = if a.scale >= b.scale {
        a.scale
    } else {
        b.scale
    };
    let x = rescale(a.units, s - a.scale);
    let y = rescale(b.units, s - b.scale);
    proof {
        assert(pow10(0) == 1);
        assert(a.units * 1 == a.units);
        assert(b.units * 1 == b.units);
    }
    (x, y, s)
}

impl Money {
    /// Whether `self <= other` as exact decimal numbers, whatever their scales.
    pub fn le(&self, other: &Money) -> (r: bool)
        requires
            self.wf(),
            other.wf(),
        ensures
            r == (self.value() <= other.value()),
    {
        let (x, y, s) = align(self, other);
        proof {
            let p = pow10((MAX_SCALE - s) as nat);
            lemma_pow10_positive((MAX_SCALE - s) as nat);
            lemma_value_from_scale(*self, s as nat);
            lemma_value_from_scale(*other, s as nat);
            lemma_scaled_order(self.at_scale(s as nat), other.at_scale(s as nat), p);
            lemma_pow10_positive((s - self.scale) as nat);
            lemma_pow10_positive((s - other.scale) as nat);
            lemma_sign_of_scaled(self.units as int, pow10((s - self.scale) as nat));
            lemma_sign_of_scaled(other.units as int, pow10((s - other.scale) as nat));
        }
        match (x, y) {
            (Some(u), Some(v)) => u <= v,
            (None, _) => self.units < 0,
            (_, None) => other.units > 0,
        }
    }

    /// Whether `self < other` as exact decimal numbers.
    pub fn lt(&self, other: &Money) -> (r: bool)
        requires
            self.wf(),
            other.wf(),
        ensures
            r == (self.value() < other.value()),
    {
        !other.le(self)
    }

    /// The exact sum, written at the common scale; `None` when its mantissa
    /// there would exceed `MAX_UNITS` in magnitude.
    pub fn checked_add(&self, other: &Money) -> (r: Option<Money>)
        requires
            self.wf(),
            other.wf(),
        ensures
            r is Some <==> -MAX_UNITS <= self.at_scale(common_scale(*self, *other))
                + other.at_scale(common_scale(*self, *other)) <= MAX_UNITS,
            r matches Some(m) ==> m.wf() && m.scale == common_scale(*self, *other) && m.value()
                == self.value() + other.value(),
    {
        let (x, y, s) = align(self, other);
        proof {
            let p = pow10((MAX_SCALE - s) as nat);
            lemma_pow10_positive((MAX_SCALE - s) as nat);
            lemma_value_from_scale(*self, s as nat);
            lemma_value_from_scale(*other, s as nat);
            lemma_scaled_order(self.at_scale(s as nat), other.at_scale(s as nat), p);
        }
        match (x, y) {
            (Some(u), Some(v)) => {
                match u.checked_add(v) {
                    Some(t) => {
                        if -MAX_UNITS <= t && t <= MAX_UNITS {
                            let m = Money { units: t, scale: s };
                            proof {
                                lemma_value_from_scale(m, s as nat);
                                assert(pow10(0) == 1);
                                assert((s - m.scale) as nat == 0);
                                assert(t * 1 == t);
                                assert(m.at_scale(s as nat) == t);
                            }
                            Some(m)
                        } else {
                            None
                        }
                    },
                    None => None,
                }
            },
            _ => None,
        }
    }

    /// The exact difference `self - other`, written at the common scale; `None`
    /// when its mantissa there would exceed `MAX_UNITS` in magnitude.
    pub fn checked_sub(&self, other: &Money) -> (r: Option<Money>)
        requires
            self.wf(),
            other.wf(),
        ensures
            r is Some <==> -MAX_UNITS <= self.at_scale(common_scale(*self, *other))
                - other.at_scale(common_scale(*self, *other)) <= MAX_UNITS,
            r matches Some(m) ==> m.wf() && m.scale == common_scale(*self, *other) && m.value()
                == self.value() - other.value(),
    {
        let (x, y, s) = align(self, other);
        proof {
            let p = pow10((MAX_SCALE - s) as nat);
            lemma_pow10_positive((MAX_SCALE - s) as nat);
            lemma_value_from_scale(*self, s as nat);
            lemma_value_from_scale(*other, s as nat);
            lemma_scaled_order(self.at_scale(s as nat), other.at_scale(s as nat), p);
        }
        match (x, y) {
            (Some(u), Some(v)) => {
                match u.checked_sub(v) {
                    Some(t) => {
                        if -MAX_UNITS <= t && t <= MAX_UNITS {
                            let m = Money { units: t, scale: s };
                            proof {
                                lemma_value_from_scale(m, s as nat);
                                assert(pow10(0) == 1);
                                assert((s - m.scale) as nat == 0);
                                assert(t * 1 == t);
                                assert(m.at_scale(s as nat) == t);
                            }
                            Some(m)
                        } else {
                            None
                        }
                    },
                    None => None,
                }
            },
            _ => None,
        }
    }
}

} // verus!
