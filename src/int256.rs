//! Exact-width 256-bit integers, unsigned and signed, with checked arithmetic.
use vstd::prelude::*;

verus! {

/// 2^128, the weight of the high half of a `U256`.
pub open spec fn two_pow_128() -> nat {
    0x1_0000_0000_0000_0000_0000_0000_0000_0000nat
}

/// 2^255, the bound of the signed range.
pub open spec fn two_pow_255() -> nat {
    two_pow_128() * 0x8000_0000_0000_0000_0000_0000_0000_0000nat
}

/// 2^256, the bound of the unsigned range.
pub open spec fn two_pow_256() -> nat {
    two_pow_128() * two_pow_128()
}

/// An unsigned 256-bit integer, held as two 128-bit halves.
#[derive(Clone, Copy, Debug, PartialEq, Eq, Structural)]
pub struct U256 {
    pub hi: u128,
    pub lo: u128,
}

impl View for U256 {
    type V = nat;

    open spec fn view(&self) -> nat {
        self.hi as nat * two_pow_128() + self.lo as nat
    }
}

proof fn lemma_halves_order(a: U256, b: U256)
    ensures
        a.hi < b.hi ==> a@ < b@,
        a.hi == b.hi ==> (a@ < b@ <==> a.lo < b.lo),
        a@ < two_pow_256(),
        a@ == b@ ==> a == b,
{
    assert(a.hi < b.hi ==> a@ < b@) by (nonlinear_arith)
        requires
            a@ == a.hi as nat * two_pow_128() + a.lo as nat,
            b@ == b.hi as nat * two_pow_128() + b.lo as nat,
            a.lo < two_pow_128(),
    ;
    assert(b.hi < a.hi ==> b@ < a@) by (nonlinear_arith)
        requires
            a@ == a.hi as nat * two_pow_128() + a.lo as nat,
            b@ == b.hi as nat * two_pow_128() + b.lo as nat,
            b.lo < two_pow_128(),
    ;
    assert(a@ < two_pow_256()) by (nonlinear_arith)
        requires
            a@ == a.hi as nat * two_pow_128() + a.lo as nat,
            a.lo < two_pow_128(),
            a.hi < two_pow_128(),
            two_pow_256() == two_pow_128() * two_pow_128(),
    ;
}

impl U256 {
    pub fn zero() -> (r: U256)
        ensures
            r@ == 0,
    {
        U256 { hi: 0, lo: 0 }
    }

    /// The value `hi * 2^128 + lo`.
    pub fn from_halves(hi: u128, lo: u128) -> (r: U256)
        ensures
            r@ == hi as nat * two_pow_128() + lo as nat,
    {
        U256 { hi, lo }
    }

    pub fn from_u128(v: u128) -> (r: U256)
        ensures
            r@ == v as nat,
    {
        U256 { hi: 0, lo: v }
    }

    pub fn is_zero(&self) -> (r: bool)
        ensures
            r == (self@ == 0),
    {
        self.hi == 0 && self.lo == 0
    }

    pub fn lt(&self, other: &U256) -> (r: bool)
        ensures
            r == (self@ < other@),
    {
        proof {
            lemma_halves_order(*self, *other);
        }
        self.hi < other.hi || (self.hi == other.hi && self.lo < other.lo)
    }

    pub fn le(&self, other: &U256) -> (r: bool)
        ensures
            r == (self@ <= other@),
    {
        proof {
            lemma_halves_order(*other, *self);
        }
        !other.lt(self)
    }

    pub fn eq(&self, other: &U256) -> (r: bool)
        ensures
            r == (self@ == other@),
    {
        proof {
            lemma_halves_order(*self, *other);
            lemma_halves_order(*other, *self);
        }
        self.hi == other.hi && self.lo == other.lo
    }

    /// The sum, or `None` where it does not fit in 256 bits.
    pub fn checked_add(&self, other: &U256) -> (r: Option<U256>)
        ensures
            r is Some <==> self@ + other@ < two_pow_256(),
            r matches Some(s) ==> s@ == self@ + other@,
    {
        let (lo, carry) = if self.lo <= u128::MAX - other.lo {
            (self.lo + other.lo, 0u128)
        } else {
            (self.lo - (u128::MAX - other.lo) - 1, 1u128)
        };
        assert(lo as nat + carry as nat * two_pow_128() == self.lo as nat + other.lo as nat);
        if self.hi <= u128::MAX - other.hi && self.hi + other.hi <= u128::MAX - carry {
            let r = U256 { hi: self.hi + other.hi + carry, lo };
            assert(r@ == self@ + other@) by (nonlinear_arith)
                requires
                    r@ == r.hi as nat * two_pow_128() + r.lo as nat,
                    self@ == self.hi as nat * two_pow_128() + self.lo as nat,
                    other@ == other.hi as nat * two_pow_128() + other.lo as nat,
                    r.hi == self.hi + other.hi + carry,
                    r.lo == lo,
                    lo as nat + carry as nat * two_pow_128() == self.lo as nat + other.lo as nat,
            ;
            Some(r)
        } else {
            assert(self@ + other@ >= two_pow_256()) by (nonlinear_arith)
                requires
                    self@ == self.hi as nat * two_pow_128() + self.lo as nat,
                    other@ == other.hi as nat * two_pow_128() + other.lo as nat,
                    self.hi as nat + other.hi as nat + carry as nat >= two_pow_128(),
                    lo as nat + carry as nat * two_pow_128() == self.lo as nat + other.lo as nat,
                    two_pow_256() == two_pow_128() * two_pow_128(),
            ;
            None
        }
    }

    /// The difference `self - other`, which the caller knows is not negative.
    pub fn sub(&self, other: &U256) -> (r: U256)
        requires
            other@ <= self@,
        ensures
            r@ == self@ - other@,
    {
        proof {
            lemma_halves_order(*self, *other);
            lemma_halves_order(*other, *self);
        }
        let r = if self.lo >= other.lo {
            U256 { hi: self.hi - other.hi, lo: self.lo - other.lo }
        } else {
            U256 { hi: self.hi - other.hi - 1, lo: (u128::MAX - other.lo) + self.lo + 1 }
        };
        assert(r@ + other@ == self@) by (nonlinear_arith)
            requires
                r@ == r.hi as nat * two_pow_128() + r.lo as nat,
                self@ == self.hi as nat * two_pow_128() + self.lo as nat,
                other@ == other.hi as nat * two_pow_128() + other.lo as nat,
                self.lo >= other.lo ==> r.hi == self.hi - other.hi && r.lo == self.lo - other.lo,
                self.lo < other.lo ==> r.hi == self.hi - other.hi - 1 && r.lo
                    == two_pow_128() + self.lo - other.lo,
        ;
        r
    }
}


/// The value of a sign and a magnitude.
pub open spec fn signed_value(negative: bool, magnitude: nat) -> int {
    if negative {
        -(magnitude as int)
    } else {
        magnitude as int
    }
}

/// The range of a signed 256-bit integer: `-2^255 ..= 2^255 - 1`.
pub open spec fn fits_i256(v: int) -> bool {
    -(two_pow_255() as int) <= v && v < two_pow_255() as int
}

/// A signed 256-bit integer, held as a sign and a magnitude. Zero is never
/// negative, so two well-formed values are equal exactly when their fields are.
#[derive(Clone, Copy, Debug, PartialEq, Eq, Structural)]
pub struct I256 {
    pub negative: bool,
    pub magnitude: U256,
}

impl View for I256 {
    type V = int;

    open spec fn view(&self) -> int {
        signed_value(self.negative, self.magnitude@)
    }
}

fn two_pow_255_u256() -> (r: U256)
    ensures
        r@ == two_pow_255(),
{
    U256::from_halves(0x8000_0000_0000_0000_0000_0000_0000_0000u128, 0)
}

impl I256 {
    pub open spec fn wf(&self) -> bool {
        if self.negative {
            0 < self.magnitude@ <= two_pow_255()
        } else {
            self.magnitude@ < two_pow_255()
        }
    }

    pub fn zero() -> (r: I256)
        ensures
            r.wf(),
            r@ == 0,
    {
        I256 { negative: false, magnitude: U256::zero() }
    }

    /// The value of a sign and a magnitude, or `None` where it does not fit.
    pub fn from_sign_magnitude(negative: bool, magnitude: U256) -> (r: Option<I256>)
        ensures
            r is Some <==> fits_i256(signed_value(negative, magnitude@)),
            r matches Some(v) ==> v.wf() && v@ == signed_value(negative, magnitude@),
    {
        let bound = two_pow_255_u256();
        if magnitude.is_zero() {
            Some(I256::zero())
        } else if negative {
            if magnitude.le(&bound) {
                Some(I256 { negative: true, magnitude })
            } else {
                None
            }
        } else if magnitude.lt(&bound) {
            Some(I256 { negative: false, magnitude })
        } else {
            None
        }
    }

    /// An unsigned value read as signed, or `None` where it is 2^255 or more.
    pub fn from_unsigned(u: U256) -> (r: Option<I256>)
        ensures
            r is Some <==> u@ < two_pow_255(),
            r matches Some(v) ==> v.wf() && v@ == u@,
    {
        I256::from_sign_magnitude(false, u)
    }

    pub fn from_i128(v: i128) -> (r: I256)
        ensures
            r.wf(),
            r@ == v as int,
    {
        let magnitude: u128 = if v >= 0 {
            v as u128
        } else if v == i128::MIN {
            0x8000_0000_0000_0000_0000_0000_0000_0000u128
        } else {
            (-v) as u128
        };
        let m = U256::from_u128(magnitude);
        assert(m@ <= two_pow_255()) by (nonlinear_arith)
            requires
                m@ == magnitude as nat,
                magnitude <= 0x8000_0000_0000_0000_0000_0000_0000_0000u128,
                two_pow_255() == two_pow_128() * 0x8000_0000_0000_0000_0000_0000_0000_0000nat,
                two_pow_128() > 1,
        ;
        I256 { negative: v < 0, magnitude: m }
    }

    /// Whether two well-formed values are equal.
    pub fn same_value(&self, other: &I256) -> (r: bool)
        requires
            self.wf(),
            other.wf(),
        ensures
            r == (self@ == other@),
    {
        self.negative == other.negative && self.magnitude.eq(&other.magnitude)
    }

    pub fn is_zero(&self) -> (r: bool)
        requires
            self.wf(),
        ensures
            r == (self@ == 0),
    {
        self.magnitude.is_zero()
    }

    pub fn is_positive(&self) -> (r: bool)
        requires
            self.wf(),
        ensures
            r == (self@ > 0),
    {
        !self.negative && !self.magnitude.is_zero()
    }

    pub fn is_negative(&self) -> (r: bool)
        requires
            self.wf(),
        ensures
            r == (self@ < 0),
    {
        self.negative
    }

    /// The sum, or `None` where it leaves the signed range.
    pub fn checked_add(&self, other: &I256) -> (r: Option<I256>)
        ensures
            r is Some <==> fits_i256(self@ + other@),
            r matches Some(v) ==> v.wf() && v@ == self@ + other@,
    {
        combine(self.negative, self.magnitude, other.negative, other.magnitude)
    }

    /// The difference, or `None` where it leaves the signed range.
    pub fn checked_sub(&self, other: &I256) -> (r: Option<I256>)
        ensures
            r is Some <==> fits_i256(self@ - other@),
            r matches Some(v) ==> v.wf() && v@ == self@ - other@,
    {
        combine(self.negative, self.magnitude, !other.negative, other.magnitude)
    }

    /// The sum with an unsigned value, or `None` where it leaves the signed range.
    pub fn checked_add_unsigned(&self, u: &U256) -> (r: Option<I256>)
        ensures
            r is Some <==> fits_i256(self@ + u@),
            r matches Some(v) ==> v.wf() && v@ == self@ + u@,
    {
        combine(self.negative, self.magnitude, false, *u)
    }

    /// The difference with an unsigned value, or `None` where it leaves the signed range.
    pub fn checked_sub_unsigned(&self, u: &U256) -> (r: Option<I256>)
        ensures
            r is Some <==> fits_i256(self@ - u@),
            r matches Some(v) ==> v.wf() && v@ == self@ - u@,
    {
        combine(self.negative, self.magnitude, true, *u)
    }
}

/// The sum of two signed magnitudes, or `None` where it leaves the signed range.
fn combine(a_neg: bool, a_mag: U256, b_neg: bool, b_mag: U256) -> (r: Option<I256>)
    ensures
        r is Some <==> fits_i256(signed_value(a_neg, a_mag@) + signed_value(b_neg, b_mag@)),
        r matches Some(v) ==> v.wf() && v@ == signed_value(a_neg, a_mag@) + signed_value(
            b_neg,
            b_mag@,
        ),
{
    if a_neg == b_neg {
        match a_mag.checked_add(&b_mag) {
            Some(m) => I256::from_sign_magnitude(a_neg, m),
            None => {
                assert(two_pow_256() > two_pow_255()) by (nonlinear_arith)
                    requires
                        two_pow_256() == two_pow_128() * two_pow_128(),
                        two_pow_255() == two_pow_128() * 0x8000_0000_0000_0000_0000_0000_0000_0000nat,
                        two_pow_128() == 0x1_0000_0000_0000_0000_0000_0000_0000_0000nat,
                ;
                None
            },
        }
    } else if b_mag.le(&a_mag) {
        I256::from_sign_magnitude(a_neg, a_mag.sub(&b_mag))
    } else {
        I256::from_sign_magnitude(b_neg, b_mag.sub(&a_mag))
    }
}

} // verus!
