//! What a numeric type gives the trees that are evaluated in it, beside the
//! operators `+`, `-`, `*` and `/` of `std::ops`.
//!
//! Each operation comes with the function that it computes (`.._spec`) and,
//! where it is not defined everywhere, with the operands on which it is
//! (`.._req`). The bodies given here leave the function open and the operation
//! defined everywhere; an implementation says what holds of its own type.
use vstd::prelude::*;
use vstd::arithmetic::power::pow;

verus! {

/// A numeric type with an additive identity.
pub trait Zero: Sized {
    /// The additive identity.
    open spec fn zero_spec() -> Self {
        arbitrary()
    }

    fn zero() -> (r: Self)
        ensures
            r == Self::zero_spec(),
    ;
}

/// A numeric type with a multiplicative identity.
pub trait Identity: Sized {
    /// The multiplicative identity.
    open spec fn identity_spec() -> Self {
        arbitrary()
    }

    fn identity() -> (r: Self)
        ensures
            r == Self::identity_spec(),
    ;
}

/// Raising to a power.
pub trait Pow<Rhs = Self>: Sized {
    type Output;

    /// The power of `self` to `rhs` is defined.
    open spec fn pow_req(self, rhs: Rhs) -> bool {
        true
    }

    /// `self` to the power of `rhs`.
    open spec fn pow_spec(self, rhs: Rhs) -> Self::Output {
        arbitrary()
    }

    fn pow(self, rhs: Rhs) -> (r: Self::Output)
        requires
            self.pow_req(rhs),
        ensures
            r == self.pow_spec(rhs),
    ;
}

/// The natural logarithm.
pub trait Logarithm: Sized {
    type Output;

    /// The logarithm of `self` is defined.
    open spec fn log_req(self) -> bool {
        true
    }

    /// The logarithm of `self`.
    open spec fn log_spec(self) -> Self::Output {
        arbitrary()
    }

    fn log(self) -> (r: Self::Output)
        requires
            self.log_req(),
        ensures
            r == self.log_spec(),
    ;
}

/// The exponential function.
pub trait Expable: Sized {
    type Output;

    /// The exponential of `self` is defined.
    open spec fn exp_req(self) -> bool {
        true
    }

    /// The exponential of `self`.
    open spec fn exp_spec(self) -> Self::Output {
        arbitrary()
    }

    fn exp(self) -> (r: Self::Output)
        requires
            self.exp_req(),
        ensures
            r == self.exp_spec(),
    ;
}

impl Zero for i32 {
    open spec fn zero_spec() -> i32 {
        0
    }

    fn zero() -> (r: i32) {
        0
    }
}

impl Identity for i32 {
    open spec fn identity_spec() -> i32 {
        1
    }

    fn identity() -> (r: i32) {
        1
    }
}

/// The exponent that an `i32` stands for: itself where it is not negative,
/// else the unsigned number with the same 32 bits.
pub open spec fn exponent(rhs: i32) -> nat {
    if rhs >= 0 {
        rhs as nat
    } else {
        (rhs + 0x1_0000_0000) as nat
    }
}

/// The distance of `x` from zero.
pub open spec fn magnitude(x: int) -> int {
    if x < 0 {
        -x
    } else {
        x
    }
}

/// Below the exponent `e`, a power of a base of magnitude two or more has at
/// most half the magnitude of the power at `e`.
proof fn lemma_pow_grows(b: int, i: nat, e: nat)
    requires
        b <= -2 || 2 <= b,
        i <= e,
    ensures
        i < e ==> 2 * magnitude(pow(b, i)) <= magnitude(pow(b, e)),
    decreases e - i,
{
    reveal(pow);
    let p = pow(b, i);
    if i < e {
        lemma_pow_grows(b, i + 1, e);
        assert(pow(b, (i + 1) as nat) == b * p);
        assert(magnitude(b * p) >= 2 * magnitude(p)) by (nonlinear_arith)
            requires
                b <= -2 || 2 <= b,
        ;
    }
}

/// The powers of 0, 1 and -1.
proof fn lemma_pow_unit(e: nat)
    ensures
        pow(0, e) == if e == 0 { 1int } else { 0int },
        pow(1, e) == 1,
        pow(-1, e) == if e % 2 == 0 { 1int } else { -1int },
    decreases e,
{
    reveal(pow);
    if e > 0 {
        lemma_pow_unit((e - 1) as nat);
    }
}

/// The exponent that `rhs` stands for, as a number.
fn exponent_bits(rhs: i32) -> (e: u32)
    ensures
        e == exponent(rhs),
{
    if rhs >= 0 {
        rhs as u32
    } else {
        let wide: i64 = rhs as i64 + 0x1_0000_0000i64;
        wide as u32
    }
}

/// The power of one `i32` to another. The exponent is read as an unsigned
/// number (see [`exponent`]), so a negative one stands for a number above two
/// thousand million, and the power fits only for the bases 0, 1 and -1.
impl Pow for i32 {
    type Output = i32;

    /// The power is defined where it fits in an `i32`.
    open spec fn pow_req(self, rhs: i32) -> bool {
        i32::MIN <= pow(self as int, exponent(rhs)) <= i32::MAX
    }

    open spec fn pow_spec(self, rhs: i32) -> i32 {
        pow(self as int, exponent(rhs)) as i32
    }

    fn pow(self, rhs: i32) -> (r: i32) {
        let e: u32 = exponent_bits(rhs);
        proof {
            lemma_pow_unit(e as nat);
            reveal(pow);
        }
        if e == 0 || self == 1 {
            return 1;
        }
        if self == 0 {
            return 0;
        }
        if self == -1 {
            return if e % 2 == 0 { 1 } else { -1 };
        }
        let mut acc: i32 = 1;
        let mut i: u32 = 0;
        while i < e
            invariant
                i <= e,
                acc == pow(self as int, i as nat),
                self <= -2 || 2 <= self,
                i32::MIN <= pow(self as int, e as nat) <= i32::MAX,
            decreases e - i,
        {
            proof {
                reveal(pow);
                lemma_pow_grows(self as int, (i + 1) as nat, e as nat);
                assert(pow(self as int, (i + 1) as nat) == self * pow(self as int, i as nat));
            }
            acc = acc * self;
            i = i + 1;
        }
        acc
    }
}

} // verus!
