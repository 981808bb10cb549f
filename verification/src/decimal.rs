//! Fixed-point decimal amounts.
//!
//! A [`Decimal`] is a signed 96-bit mantissa together with a scale: it stands
//! for `mantissa / 10^scale`. The arithmetic itself is done by the
//! `rust_decimal` crate; this module holds the value, its numeric reading and
//! the calls into that crate.

use vstd::prelude::*;
use vstd::std_specs::cmp::PartialEqSpecImpl;

verus! {

/// The largest scale a decimal can carry.
pub const MAX_SCALE: u32 = 28;

/// The largest magnitude a mantissa can have: `2^96 - 1`.
pub const MAX_MANTISSA: i128 = 79_228_162_514_264_337_593_543_950_335i128;

/// `10^e`.
pub open spec fn pow10(e: nat) -> int
    decreases e,
{
    if e == 0 {
        1
    } else {
        10 * pow10((e - 1) as nat)
    }
}

/// A decimal number `mantissa / 10^scale`.
#[derive(Clone, Copy, Debug)]
pub struct Decimal {
    mantissa: i128,
    scale: u32,
}

impl View for Decimal {
    type V = (int, nat);

    /// The mantissa and the scale.
    closed spec fn view(&self) -> (int, nat) {
        (self.mantissa as int, self.scale as nat)
    }
}

/// Whether `(mantissa, scale)` is within the limits of a decimal.
pub open spec fn representable(parts: (int, nat)) -> bool {
    &&& -MAX_MANTISSA <= parts.0 <= MAX_MANTISSA
    &&& parts.1 <= MAX_SCALE
}

/// The number that `(mantissa, scale)` stands for, counted in units of `10^-28`.
pub open spec fn units_of(parts: (int, nat)) -> int {
    parts.0 * pow10((MAX_SCALE - parts.1) as nat)
}

/// What `rust_decimal` gives for the sum of two decimals: `None` on overflow.
pub uninterp spec fn decimal_sum(a: (int, nat), b: (int, nat)) -> Option<(int, nat)>;

/// What `rust_decimal` gives for the difference of two decimals: `None` on overflow.
pub uninterp spec fn decimal_difference(a: (int, nat), b: (int, nat)) -> Option<(int, nat)>;

/// What `rust_decimal` gives for the product of two decimals: `None` on overflow.
pub uninterp spec fn decimal_product(a: (int, nat), b: (int, nat)) -> Option<(int, nat)>;

/// What `rust_decimal` gives for the quotient of two decimals: `None` on
/// overflow and on division by zero.
pub uninterp spec fn decimal_quotient(a: (int, nat), b: (int, nat)) -> Option<(int, nat)>;

/// `Decimal::checked_add` of `rust_decimal`, on decimals rebuilt from their
/// mantissa and scale. Not proved: the mantissa and scale of what it returns
/// are `decimal_sum` of those of the arguments.
#[verifier::external_body]
fn outside_checked_add(a: Decimal, b: Decimal) -> (r: Option<Decimal>)
    requires
        a.wf(),
        b.wf(),
    ensures
        decimal_sum(a@, b@) == (match r {
            Some(d) => Some(d@),
            None => None,
        }),
        r matches Some(d) ==> d.wf(),
{
    let x = rust_decimal::Decimal::from_i128_with_scale(a.mantissa, a.scale);
    let y = rust_decimal::Decimal::from_i128_with_scale(b.mantissa, b.scale);
    match x.checked_add(y) {
        Some(z) => Some(Decimal { mantissa: z.mantissa(), scale: z.scale() }),
        None => None,
    }
}

/// `Decimal::checked_sub` of `rust_decimal`, on decimals rebuilt from their
/// mantissa and scale. Not proved: the mantissa and scale of what it returns
/// are `decimal_difference` of those of the arguments.
#[verifier::external_body]
fn outside_checked_sub(a: Decimal, b: Decimal) -> (r: Option<Decimal>)
    requires
        a.wf(),
        b.wf(),
    ensures
        decimal_difference(a@, b@) == (match r {
            Some(d) => Some(d@),
            None => None,
        }),
        r matches Some(d) ==> d.wf(),
{
    let x = rust_decimal::Decimal::from_i128_with_scale(a.mantissa, a.scale);
    let y = rust_decimal::Decimal::from_i128_with_scale(b.mantissa, b.scale);
    match x.checked_sub(y) {
        Some(z) => Some(Decimal { mantissa: z.mantissa(), scale: z.scale() }),
        None => None,
    }
}

/// `Decimal::checked_mul` of `rust_decimal`, on decimals rebuilt from their
/// mantissa and scale. Not proved: the mantissa and scale of what it returns
/// are `decimal_product` of those of the arguments.
#[verifier::external_body]
fn outside_checked_mul(a: Decimal, b: Decimal) -> (r: Option<Decimal>)
    requires
        a.wf(),
        b.wf(),
    ensures
        decimal_product(a@, b@) == (match r {
            Some(d) => Some(d@),
            None => None,
        }),
        r matches Some(d) ==> d.wf(),
{
    let x = rust_decimal::Decimal::from_i128_with_scale(a.mantissa, a.scale);
    let y = rust_decimal::Decimal::from_i128_with_scale(b.mantissa, b.scale);
    match x.checked_mul(y) {
        Some(z) => Some(Decimal { mantissa: z.mantissa(), scale: z.scale() }),
        None => None,
    }
}

/// `Decimal::checked_div` of `rust_decimal`, on decimals rebuilt from their
/// mantissa and scale. Not proved: the mantissa and scale of what it returns
/// are `decimal_quotient` of those of the arguments, and a zero divisor gives
/// `None`.
#[verifier::external_body]
fn outside_checked_div(a: Decimal, b: Decimal) -> (r: Option<Decimal>)
    requires
        a.wf(),
        b.wf(),
    ensures
        decimal_quotient(a@, b@) == (match r {
            Some(d) => Some(d@),
            None => None,
        }),
        r matches Some(d) ==> d.wf(),
        b@.0 == 0 ==> r is None,
{
    let x = rust_decimal::Decimal::from_i128_with_scale(a.mantissa, a.scale);
    let y = rust_decimal::Decimal::from_i128_with_scale(b.mantissa, b.scale);
    match x.checked_div(y) {
        Some(z) => Some(Decimal { mantissa: z.mantissa(), scale: z.scale() }),
        None => None,
    }
}

/// `<` of `rust_decimal`, on decimals rebuilt from their mantissa and scale.
/// Not proved: it compares the numbers that the two decimals stand for.
#[verifier::external_body]
fn outside_lt(a: Decimal, b: Decimal) -> (r: bool)
    requires
        a.wf(),
        b.wf(),
    ensures
        r == (units_of(a@) < units_of(b@)),
{
    let x = rust_decimal::Decimal::from_i128_with_scale(a.mantissa, a.scale);
    let y = rust_decimal::Decimal::from_i128_with_scale(b.mantissa, b.scale);
    x < y
}

/// `==` of `rust_decimal`, on decimals rebuilt from their mantissa and scale.
/// Not proved: it holds exactly when the two decimals stand for the same
/// number, whatever their scales.
#[verifier::external_body]
fn outside_eq(a: Decimal, b: Decimal) -> (r: bool)
    requires
        a.wf(),
        b.wf(),
    ensures
        r == (units_of(a@) == units_of(b@)),
{
    let x = rust_decimal::Decimal::from_i128_with_scale(a.mantissa, a.scale);
    let y = rust_decimal::Decimal::from_i128_with_scale(b.mantissa, b.scale);
    x == y
}

/// Why a computation on decimals gave no result.
#[derive(Clone, Copy, Debug, PartialEq, Eq, Structural)]
pub enum ArithmeticError {
    /// A result was too large for a decimal.
    Overflow,
    /// The divisor stood for zero.
    DivisionByZero,
}

/// The sum of two results, where both are there.
pub open spec fn opt_add(a: Option<Decimal>, b: Option<Decimal>) -> Option<Decimal> {
    match (a, b) {
        (Some(x), Some(y)) => x.spec_checked_add(y),
        _ => None,
    }
}

/// The difference of two results, where both are there.
pub open spec fn opt_sub(a: Option<Decimal>, b: Option<Decimal>) -> Option<Decimal> {
    match (a, b) {
        (Some(x), Some(y)) => x.spec_checked_sub(y),
        _ => None,
    }
}

/// The product of two results, where both are there.
pub open spec fn opt_mul(a: Option<Decimal>, b: Option<Decimal>) -> Option<Decimal> {
    match (a, b) {
        (Some(x), Some(y)) => x.spec_checked_mul(y),
        _ => None,
    }
}

/// A result, or the overflow that its absence stands for.
pub open spec fn or_overflow<T>(value: Option<T>) -> Result<T, ArithmeticError> {
    match value {
        Some(v) => Ok(v),
        None => Err(ArithmeticError::Overflow),
    }
}

/// A result, or the overflow that its absence stands for.
pub fn ok_or_overflow<T>(value: Option<T>) -> (r: Result<T, ArithmeticError>)
    ensures
        r == or_overflow(value),
{
    match value {
        Some(v) => Ok(v),
        None => Err(ArithmeticError::Overflow),
    }
}

impl Decimal {
    /// Every decimal is within the limits.
    #[verifier::type_invariant]
    pub closed spec fn wf(self) -> bool {
        representable(self@)
    }

    /// The decimal with the given mantissa and scale.
    pub closed spec fn from_parts(parts: (int, nat)) -> Decimal {
        Decimal { mantissa: parts.0 as i128, scale: parts.1 as u32 }
    }

    /// The number this decimal stands for, counted in units of `10^-28`.
    pub open spec fn units(self) -> int {
        units_of(self@)
    }

    /// The sum as `rust_decimal` computes it.
    pub open spec fn spec_checked_add(self, rhs: Decimal) -> Option<Decimal> {
        match decimal_sum(self@, rhs@) {
            Some(p) => Some(Decimal::from_parts(p)),
            None => None,
        }
    }

    /// The difference as `rust_decimal` computes it.
    pub open spec fn spec_checked_sub(self, rhs: Decimal) -> Option<Decimal> {
        match decimal_difference(self@, rhs@) {
            Some(p) => Some(Decimal::from_parts(p)),
            None => None,
        }
    }

    /// The product as `rust_decimal` computes it.
    pub open spec fn spec_checked_mul(self, rhs: Decimal) -> Option<Decimal> {
        match decimal_product(self@, rhs@) {
            Some(p) => Some(Decimal::from_parts(p)),
            None => None,
        }
    }

    /// The quotient as `rust_decimal` computes it.
    pub open spec fn spec_checked_div(self, rhs: Decimal) -> Option<Decimal> {
        match decimal_quotient(self@, rhs@) {
            Some(p) => Some(Decimal::from_parts(p)),
            None => None,
        }
    }

    /// The quotient as `rust_decimal` computes it, with the reason where
    /// there is none.
    pub open spec fn spec_div(self, rhs: Decimal) -> Result<Decimal, ArithmeticError> {
        if rhs.units() == 0 {
            Err(ArithmeticError::DivisionByZero)
        } else {
            or_overflow(self.spec_checked_div(rhs))
        }
    }

    /// `num / 10^scale`.
    pub open spec fn spec_new(num: int, scale: nat) -> Decimal {
        Decimal::from_parts((num, scale))
    }

    /// Whether `self` stands for exactly the sum of `a` and `b`.
    pub open spec fn is_exact_sum(self, a: Decimal, b: Decimal) -> bool {
        self.units() == a.units() + b.units()
    }

    /// Whether `self` stands for exactly the difference of `a` and `b`.
    pub open spec fn is_exact_difference(self, a: Decimal, b: Decimal) -> bool {
        self.units() == a.units() - b.units()
    }

    /// What `from_parts` builds from representable parts has those parts.
    pub proof fn lemma_view_from_parts(parts: (int, nat))
        requires
            representable(parts),
        ensures
            Decimal::from_parts(parts)@ == parts,
    {
    }

    /// `num / 10^scale`, or `None` where the mantissa or the scale is out of
    /// range.
    pub fn try_from_i128_with_scale(num: i128, scale: u32) -> (r: Option<Decimal>)
        ensures
            r is Some <==> representable((num as int, scale as nat)),
            r matches Some(d) ==> d@ == (num as int, scale as nat),
    {
        if scale > MAX_SCALE || num > MAX_MANTISSA || num < -MAX_MANTISSA {
            None
        } else {
            Some(Decimal { mantissa: num, scale })
        }
    }

    /// `num / 10^scale`.
    pub fn new(num: i64, scale: u32) -> (r: Decimal)
        requires
            scale <= MAX_SCALE,
        ensures
            r == Decimal::spec_new(num as int, scale as nat),
            r@ == (num as int, scale as nat),
    {
        Decimal { mantissa: num as i128, scale }
    }

    /// Zero, with scale 0.
    pub fn zero() -> (r: Decimal)
        ensures
            r == Decimal::spec_new(0, 0),
            r@ == (0int, 0nat),
            r.units() == 0,
    {
        Decimal { mantissa: 0, scale: 0 }
    }

    /// The mantissa.
    pub fn mantissa(&self) -> (r: i128)
        ensures
            r == self@.0,
            -MAX_MANTISSA <= r <= MAX_MANTISSA,
    {
        proof {
            use_type_invariant(self);
        }
        self.mantissa
    }

    /// The scale.
    pub fn scale(&self) -> (r: u32)
        ensures
            r == self@.1,
            r <= MAX_SCALE,
    {
        proof {
            use_type_invariant(self);
        }
        self.scale
    }

    /// Whether this decimal stands for zero.
    pub fn is_zero(&self) -> (r: bool)
        ensures
            r == (self@.0 == 0),
            r == (self.units() == 0),
    {
        proof {
            lemma_units_sign(self@);
        }
        self.mantissa == 0
    }

    /// `self + rhs`, or `None` on overflow.
    pub fn checked_add(self, rhs: Decimal) -> (r: Option<Decimal>)
        ensures
            r == self.spec_checked_add(rhs),
    {
        proof {
            use_type_invariant(self);
            use_type_invariant(rhs);
        }
        outside_checked_add(self, rhs)
    }

    /// `self - rhs`, or `None` on overflow.
    pub fn checked_sub(self, rhs: Decimal) -> (r: Option<Decimal>)
        ensures
            r == self.spec_checked_sub(rhs),
    {
        proof {
            use_type_invariant(self);
            use_type_invariant(rhs);
        }
        outside_checked_sub(self, rhs)
    }

    /// `self * rhs`, or `None` on overflow.
    pub fn checked_mul(self, rhs: Decimal) -> (r: Option<Decimal>)
        ensures
            r == self.spec_checked_mul(rhs),
    {
        proof {
            use_type_invariant(self);
            use_type_invariant(rhs);
        }
        outside_checked_mul(self, rhs)
    }

    /// `self / rhs`, or `None` on overflow and where `rhs` is zero.
    pub fn checked_div(self, rhs: Decimal) -> (r: Option<Decimal>)
        ensures
            r == self.spec_checked_div(rhs),
            rhs.units() == 0 ==> r is None,
    {
        proof {
            use_type_invariant(self);
            use_type_invariant(rhs);
            lemma_units_sign(rhs@);
        }
        outside_checked_div(self, rhs)
    }

    /// `self / rhs`, with the reason where there is none.
    pub fn div(self, rhs: Decimal) -> (r: Result<Decimal, ArithmeticError>)
        ensures
            r == self.spec_div(rhs),
    {
        if rhs.is_zero() {
            Err(ArithmeticError::DivisionByZero)
        } else {
            ok_or_overflow(self.checked_div(rhs))
        }
    }

    /// Whether `self` is the smaller number.
    pub fn lt(&self, rhs: &Decimal) -> (r: bool)
        ensures
            r == (self.units() < rhs.units()),
    {
        proof {
            use_type_invariant(self);
            use_type_invariant(rhs);
        }
        outside_lt(*self, *rhs)
    }

    /// Whether `self` is the larger number.
    pub fn gt(&self, rhs: &Decimal) -> (r: bool)
        ensures
            r == (self.units() > rhs.units()),
    {
        rhs.lt(self)
    }

    /// The larger of the two; `self` where they stand for the same number.
    pub fn max(self, rhs: Decimal) -> (r: Decimal)
        ensures
            r == self.spec_max(rhs),
    {
        if self.lt(&rhs) {
            rhs
        } else {
            self
        }
    }

    /// The smaller of the two; `self` where they stand for the same number.
    pub fn min(self, rhs: Decimal) -> (r: Decimal)
        ensures
            r == self.spec_min(rhs),
    {
        if self.gt(&rhs) {
            rhs
        } else {
            self
        }
    }

    /// The larger of the two; `self` where they stand for the same number.
    pub open spec fn spec_max(self, rhs: Decimal) -> Decimal {
        if self.units() < rhs.units() {
            rhs
        } else {
            self
        }
    }

    /// The smaller of the two; `self` where they stand for the same number.
    pub open spec fn spec_min(self, rhs: Decimal) -> Decimal {
        if self.units() > rhs.units() {
            rhs
        } else {
            self
        }
    }
}

impl PartialEq for Decimal {
    /// Numeric equality: `1.0 == 1.00`.
    fn eq(&self, other: &Decimal) -> (r: bool) {
        proof {
            use_type_invariant(self);
            use_type_invariant(other);
        }
        outside_eq(*self, *other)
    }
}

impl PartialEqSpecImpl for Decimal {
    open spec fn obeys_eq_spec() -> bool {
        true
    }

    open spec fn eq_spec(&self, other: &Decimal) -> bool {
        self.units() == other.units()
    }
}

/// Zero stands for zero.
pub proof fn lemma_zero_units()
    ensures
        Decimal::spec_new(0, 0).units() == 0,
{
    Decimal::lemma_view_from_parts((0, 0));
}

/// `10^e` is positive.
pub proof fn lemma_pow10_positive(e: nat)
    ensures
        pow10(e) > 0,
    decreases e,
{
    if e > 0 {
        lemma_pow10_positive((e - 1) as nat);
    }
}

/// A decimal's number has the sign of its mantissa.
pub proof fn lemma_units_sign(parts: (int, nat))
    ensures
        (units_of(parts) == 0) == (parts.0 == 0),
        (units_of(parts) > 0) == (parts.0 > 0),
        (units_of(parts) < 0) == (parts.0 < 0),
{
    let p = pow10((MAX_SCALE - parts.1) as nat);
    lemma_pow10_positive((MAX_SCALE - parts.1) as nat);
    assert((parts.0 * p == 0) == (parts.0 == 0)) by (nonlinear_arith)
        requires
            p > 0,
    ;
    assert((parts.0 * p > 0) == (parts.0 > 0)) by (nonlinear_arith)
        requires
            p > 0,
    ;
    assert((parts.0 * p < 0) == (parts.0 < 0)) by (nonlinear_arith)
        requires
            p > 0,
    ;
}

} // verus!
