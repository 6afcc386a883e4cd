//! Exact decimal amounts: an integer number of units at a decimal scale.

use vstd::prelude::*;

verus! {

/// The largest number of decimal places an amount can have.
pub const MAX_SCALE: u32 = 28;

/// The largest magnitude of an amount's units: `2^96 - 1`.
pub const MAX_UNITS: i128 = 79_228_162_514_264_337_593_543_950_335;

/// Ten to the power `n`.
pub open spec fn pow10(n: nat) -> int
    decreases n,
{
    if n == 0 {
        1
    } else {
        10 * pow10((n - 1) as nat)
    }
}

/// Powers of ten are positive.
pub proof fn lemma_pow10_positive(n: nat)
    ensures
        pow10(n) >= 1,
    decreases n,
{
    if n > 0 {
        lemma_pow10_positive((n - 1) as nat);
    }
}

/// Powers of ten multiply as their exponents add.
pub proof fn lemma_pow10_add(a: nat, b: nat)
    ensures
        pow10(a + b) == pow10(a) * pow10(b),
    decreases a,
{
    if a > 0 {
        lemma_pow10_add((a - 1) as nat, b);
        assert(pow10(a + b) == 10 * pow10((a - 1 + b) as nat));
        assert(10 * (pow10((a - 1) as nat) * pow10(b)) == (10 * pow10((a - 1) as nat)) * pow10(b))
            by (nonlinear_arith);
    } else {
        assert(pow10(0) * pow10(b) == pow10(b)) by (nonlinear_arith)
            requires
                pow10(0) == 1,
        ;
    }
}

/// Whether `units` lies within the magnitude an amount can hold.
pub open spec fn units_fit(units: int) -> bool {
    -MAX_UNITS <= units <= MAX_UNITS
}

/// A decimal amount: `units / 10^scale`, exactly.
///
/// Two amounts with the same [`Money::value`] denote the same number even
/// when their scales differ (`1.5` and `1.50`).
#[derive(Clone, Copy, Debug)]
pub struct Money {
    units: i128,
    scale: u32,
}

impl Money {
    /// The integer this amount counts in, before the decimal point is placed.
    pub closed spec fn spec_units(self) -> int {
        self.units as int
    }

    /// The number of decimal places.
    pub closed spec fn spec_scale(self) -> nat {
        self.scale as nat
    }

    /// Units and scale are within their limits. Every amount that executable
    /// code holds is well formed.
    #[verifier::type_invariant]
    pub open spec fn wf(self) -> bool {
        units_fit(self.spec_units()) && self.spec_scale() <= MAX_SCALE
    }

    /// The amount as a whole number of `10^-28`, the finest step any amount
    /// can have: the common measure in which amounts are compared and summed.
    pub open spec fn value(self) -> int {
        self.spec_units() * pow10((MAX_SCALE - self.spec_scale()) as nat)
    }

    /// The amount `units / 10^scale`, or `None` where it cannot be held.
    pub fn new(units: i128, scale: u32) -> (result: Option<Money>)
        ensures
            result is Some <==> units_fit(units as int) && scale <= MAX_SCALE,
            result matches Some(m) ==> m.spec_units() == units && m.spec_scale() == scale && m.wf(),
    {
        if scale <= MAX_SCALE && -MAX_UNITS <= units && units <= MAX_UNITS {
            Some(Money { units, scale })
        } else {
            None
        }
    }

    /// Zero, with no decimal places.
    pub fn zero() -> (result: Money)
        ensures
            result.spec_units() == 0,
            result.spec_scale() == 0,
            result.value() == 0,
            result.wf(),
    {
        Money { units: 0, scale: 0 }
    }

    /// The units, as a machine integer.
    pub fn units(&self) -> (result: i128)
        ensures
            result == self.spec_units(),
            units_fit(result as int),
    {
        proof {
            use_type_invariant(self);
        }
        self.units
    }

    /// The number of decimal places, as a machine integer.
    pub fn scale(&self) -> (result: u32)
        ensures
            result == self.spec_scale(),
            result <= MAX_SCALE,
    {
        proof {
            use_type_invariant(self);
        }
        self.scale
    }
}

impl Money {
    /// What this amount counts when written with `scale` decimal places
    /// (meaningful for a `scale` no smaller than its own).
    pub open spec fn units_at(self, scale: nat) -> int {
        self.spec_units() * pow10((scale - self.spec_scale()) as nat)
    }

    /// The scale of a sum or difference: the larger of the two scales.
    pub open spec fn joint_scale(self, other: Money) -> nat {
        if self.spec_scale() >= other.spec_scale() {
            self.spec_scale()
        } else {
            other.spec_scale()
        }
    }

    /// Whether the sum of the two amounts can be held: both amounts, written
    /// at the joint scale, and their sum there stay within [`MAX_UNITS`].
    pub open spec fn can_add(self, other: Money) -> bool {
        let s = self.joint_scale(other);
        &&& units_fit(self.units_at(s))
        &&& units_fit(other.units_at(s))
        &&& units_fit(self.units_at(s) + other.units_at(s))
    }

    /// Whether the difference of the two amounts can be held.
    pub open spec fn can_sub(self, other: Money) -> bool {
        let s = self.joint_scale(other);
        &&& units_fit(self.units_at(s))
        &&& units_fit(other.units_at(s))
        &&& units_fit(self.units_at(s) - other.units_at(s))
    }

    /// The sum of the two amounts, where [`Money::can_add`] holds.
    pub closed spec fn spec_add(self, other: Money) -> Money {
        let s = self.joint_scale(other);
        Money { units: (self.units_at(s) + other.units_at(s)) as i128, scale: s as u32 }
    }

    /// The difference of the two amounts, where [`Money::can_sub`] holds.
    pub closed spec fn spec_sub(self, other: Money) -> Money {
        let s = self.joint_scale(other);
        Money { units: (self.units_at(s) - other.units_at(s)) as i128, scale: s as u32 }
    }

    /// Whether the amount is below zero.
    pub fn is_negative(&self) -> (result: bool)
        ensures
            result == (self.value() < 0),
            result == (self.spec_units() < 0),
    {
        proof {
            lemma_value_sign(*self);
        }
        self.units < 0
    }

    /// Whether the amount is above zero.
    pub fn is_positive(&self) -> (result: bool)
        ensures
            result == (self.value() > 0),
            result == (self.spec_units() > 0),
    {
        proof {
            lemma_value_sign(*self);
        }
        self.units > 0
    }

    /// The same amount written with `scale` decimal places, where `scale` is
    /// no smaller than its own and the units still fit.
    pub fn rescaled(&self, scale: u32) -> (result: Option<Money>)
        ensures
            result is Some <==> self.spec_scale() <= scale <= MAX_SCALE && units_fit(
                self.units_at(scale as nat),
            ),
            result matches Some(m) ==> m.spec_scale() == scale && m.spec_units() == self.units_at(
                scale as nat,
            ) && m.value() == self.value() && m.wf(),
    {
        proof {
            use_type_invariant(self);
        }
        if scale < self.scale || scale > MAX_SCALE {
            return None;
        }
        let mut units: i128 = self.units;
        let mut at: u32 = self.scale;
        while at < scale
            invariant
                self.scale <= at <= scale <= MAX_SCALE,
                units == self.units_at(at as nat),
                units_fit(units as int),
            decreases scale - at,
        {
            if units > MAX_UNITS_TENTH || units < -MAX_UNITS_TENTH {
                proof {
                    lemma_units_at_step(*self, at as nat);
                    lemma_units_at_grows(*self, (at + 1) as nat, scale as nat);
                }
                return None;
            }
            proof {
                assert(self.units_at((at + 1) as nat) == 10 * self.units_at(at as nat)) by {
                    lemma_units_at_step(*self, at as nat);
                }
            }
            units = units * 10;
            at = at + 1;
        }
        proof {
            lemma_units_at_value(*self, scale as nat);
        }
        Some(Money { units, scale })
    }

    /// The sum of the two amounts, at the larger of their scales; `None`
    /// where it cannot be held.
    pub fn checked_add(&self, other: &Money) -> (result: Option<Money>)
        ensures
            result is Some <==> self.can_add(*other),
            result matches Some(m) ==> {
                &&& m.spec_scale() == self.joint_scale(*other)
                &&& m.spec_units() == self.units_at(m.spec_scale()) + other.units_at(
                    m.spec_scale(),
                )
                &&& m.value() == self.value() + other.value()
                &&& m.wf()
                &&& m == self.spec_add(*other)
            },
    {
        let scale: u32 = if self.scale >= other.scale {
            self.scale
        } else {
            other.scale
        };
        proof {
            use_type_invariant(self);
            use_type_invariant(other);
        }
        match (self.rescaled(scale), other.rescaled(scale)) {
            (Some(a), Some(b)) => {
                let units: i128 = a.units + b.units;
                if units > MAX_UNITS || units < -MAX_UNITS {
                    None
                } else {
                    let sum = Money { units, scale };
                    proof {
                        lemma_value_of_sum(sum, a, b);
                    }
                    Some(sum)
                }
            },
            _ => None,
        }
    }

    /// The difference of the two amounts, at the larger of their scales;
    /// `None` where it cannot be held.
    pub fn checked_sub(&self, other: &Money) -> (result: Option<Money>)
        ensures
            result is Some <==> self.can_sub(*other),
            result matches Some(m) ==> {
                &&& m.spec_scale() == self.joint_scale(*other)
                &&& m.spec_units() == self.units_at(m.spec_scale()) - other.units_at(
                    m.spec_scale(),
                )
                &&& m.value() == self.value() - other.value()
                &&& m.wf()
                &&& m == self.spec_sub(*other)
            },
    {
        let scale: u32 = if self.scale >= other.scale {
            self.scale
        } else {
            other.scale
        };
        proof {
            use_type_invariant(self);
            use_type_invariant(other);
        }
        match (self.rescaled(scale), other.rescaled(scale)) {
            (Some(a), Some(b)) => {
                let units: i128 = a.units - b.units;
                if units > MAX_UNITS || units < -MAX_UNITS {
                    None
                } else {
                    let difference = Money { units, scale };
                    proof {
                        lemma_value_of_difference(difference, a, b);
                    }
                    Some(difference)
                }
            },
            _ => None,
        }
    }
}

/// A sum that can be held has the value of its two parts together.
pub proof fn lemma_sum(a: Money, b: Money)
    requires
        a.wf(),
        b.wf(),
        a.can_add(b),
    ensures
        a.spec_add(b).wf(),
        a.spec_add(b).spec_scale() == a.joint_scale(b),
        a.spec_add(b).spec_units() == a.units_at(a.joint_scale(b)) + b.units_at(a.joint_scale(b)),
        a.spec_add(b).value() == a.value() + b.value(),
{
    let s = a.joint_scale(b);
    let p = pow10((MAX_SCALE - s) as nat);
    let x = a.units_at(s);
    let y = b.units_at(s);
    lemma_units_at_value(a, s);
    lemma_units_at_value(b, s);
    assert((x + y) * p == x * p + y * p) by (nonlinear_arith);
}

/// A difference that can be held has the value of the first part less the
/// second.
pub proof fn lemma_difference(a: Money, b: Money)
    requires
        a.wf(),
        b.wf(),
        a.can_sub(b),
    ensures
        a.spec_sub(b).wf(),
        a.spec_sub(b).spec_scale() == a.joint_scale(b),
        a.spec_sub(b).spec_units() == a.units_at(a.joint_scale(b)) - b.units_at(a.joint_scale(b)),
        a.spec_sub(b).value() == a.value() - b.value(),
{
    let s = a.joint_scale(b);
    let p = pow10((MAX_SCALE - s) as nat);
    let x = a.units_at(s);
    let y = b.units_at(s);
    lemma_units_at_value(a, s);
    lemma_units_at_value(b, s);
    assert((x - y) * p == x * p - y * p) by (nonlinear_arith);
}

/// A tenth of [`MAX_UNITS`], rounded down: the largest magnitude that can be
/// multiplied by ten.
const MAX_UNITS_TENTH: i128 = 7_922_816_251_426_433_759_354_395_033;

/// An amount has the sign of its units.
pub proof fn lemma_value_sign(m: Money)
    ensures
        (m.value() < 0) == (m.spec_units() < 0),
        (m.value() > 0) == (m.spec_units() > 0),
        (m.value() == 0) == (m.spec_units() == 0),
{
    let p = pow10((MAX_SCALE - m.spec_scale()) as nat);
    let u = m.spec_units();
    lemma_pow10_positive((MAX_SCALE - m.spec_scale()) as nat);
    assert((u * p < 0) == (u < 0) && (u * p > 0) == (u > 0)) by (nonlinear_arith)
        requires
            p >= 1,
    ;
}

proof fn lemma_units_at_step(m: Money, at: nat)
    requires
        m.spec_scale() <= at,
    ensures
        m.units_at(at + 1) == 10 * m.units_at(at),
{
    let d = (at - m.spec_scale()) as nat;
    let u = m.spec_units();
    assert(pow10(d + 1) == 10 * pow10(d));
    assert(u * (10 * pow10(d)) == 10 * (u * pow10(d))) by (nonlinear_arith);
}

proof fn lemma_units_at_grows(m: Money, from: nat, to: nat)
    requires
        m.spec_scale() <= from <= to,
        !units_fit(m.units_at(from)),
    ensures
        !units_fit(m.units_at(to)),
{
    let a = (from - m.spec_scale()) as nat;
    let b = (to - from) as nat;
    let u = m.spec_units();
    lemma_pow10_add(a, b);
    lemma_pow10_positive(b);
    let x = u * pow10(a);
    let k = pow10(b);
    assert(u * (pow10(a) * k) == x * k) by (nonlinear_arith)
        requires
            x == u * pow10(a),
    ;
    assert((x > MAX_UNITS ==> x * k > MAX_UNITS) && (x < -MAX_UNITS ==> x * k < -MAX_UNITS))
        by (nonlinear_arith)
        requires
            k >= 1,
    ;
}

proof fn lemma_units_at_value(m: Money, scale: nat)
    requires
        m.spec_scale() <= scale <= MAX_SCALE,
    ensures
        m.units_at(scale) * pow10((MAX_SCALE - scale) as nat) == m.value(),
{
    let a = (scale - m.spec_scale()) as nat;
    let b = (MAX_SCALE - scale) as nat;
    let u = m.spec_units();
    lemma_pow10_add(a, b);
    assert((u * pow10(a)) * pow10(b) == u * (pow10(a) * pow10(b))) by (nonlinear_arith);
}

proof fn lemma_value_of_sum(sum: Money, a: Money, b: Money)
    requires
        sum.spec_scale() == a.spec_scale() == b.spec_scale() <= MAX_SCALE,
        sum.spec_units() == a.spec_units() + b.spec_units(),
    ensures
        sum.value() == a.value() + b.value(),
{
    let p = pow10((MAX_SCALE - sum.spec_scale()) as nat);
    let x = a.spec_units();
    let y = b.spec_units();
    assert((x + y) * p == x * p + y * p) by (nonlinear_arith);
}

proof fn lemma_value_of_difference(difference: Money, a: Money, b: Money)
    requires
        difference.spec_scale() == a.spec_scale() == b.spec_scale() <= MAX_SCALE,
        difference.spec_units() == a.spec_units() - b.spec_units(),
    ensures
        difference.value() == a.value() - b.value(),
{
    let p = pow10((MAX_SCALE - difference.spec_scale()) as nat);
    let x = a.spec_units();
    let y = b.spec_units();
    assert((x - y) * p == x * p - y * p) by (nonlinear_arith);
}

} // verus!
