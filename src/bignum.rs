use vstd::prelude::*;
use num_bigint::{BigInt, Sign};
use vstd::arithmetic::power::pow;

verus! {

/// Base of the digits of a `BigNum`: 2^32.
pub open spec fn digit_base() -> int {
    4294967296
}

/// Value of little-endian base-2^32 digits.
pub open spec fn digits_value(d: Seq<u32>) -> int
    decreases d.len(),
{
    if d.len() == 0 {
        0
    } else {
        d[0] as int + digit_base() * digits_value(d.subrange(1, d.len() as int))
    }
}

/// An arbitrary-precision integer: a sign and a magnitude written as base-2^32
/// digits, least significant first. Zero may be written with either sign and
/// with any number of zero digits.
#[derive(Clone, Debug)]
pub struct BigNum {
    pub negative: bool,
    pub digits: Vec<u32>,
}

impl BigNum {
    /// The integer this value stands for.
    pub open spec fn value(&self) -> int {
        if self.negative {
            -digits_value(self.digits@)
        } else {
            digits_value(self.digits@)
        }
    }

    /// Zero.
    pub fn zero() -> (r: BigNum)
        ensures
            r.value() == 0,
    {
        BigNum { negative: false, digits: Vec::new() }
    }

    /// The integer `v`.
    pub fn from_u64(v: u64) -> (r: BigNum)
        ensures
            r.value() == v as int,
    {
        let lo: u32 = (v % 4294967296) as u32;
        let hi: u32 = (v / 4294967296) as u32;
        let mut digits: Vec<u32> = Vec::new();
        digits.push(lo);
        digits.push(hi);
        let r = BigNum { negative: false, digits };
        proof {
            let d = r.digits@;
            let t = d.subrange(1, 2);
            assert(t.subrange(1, 1) =~= Seq::<u32>::empty());
            assert(digits_value(t.subrange(1, 1)) == 0);
            assert(t[0] == hi);
            assert(digits_value(t) == hi as int);
            assert(v as int == lo as int + digit_base() * hi as int);
        }
        r
    }

    /// A copy of this value, digit for digit.
    pub fn copy(&self) -> (r: BigNum)
        ensures
            r.negative == self.negative,
            r.digits@ == self.digits@,
            r.value() == self.value(),
    {
        let mut digits: Vec<u32> = Vec::new();
        let n = self.digits.len();
        let mut i: usize = 0;
        while i < n
            invariant
                n == self.digits@.len(),
                i <= n,
                digits@ == self.digits@.subrange(0, i as int),
            decreases n - i,
        {
            digits.push(self.digits[i]);
            i = i + 1;
            assert(digits@ =~= self.digits@.subrange(0, i as int));
        }
        assert(digits@ =~= self.digits@);
        BigNum { negative: self.negative, digits }
    }

    /// Compares the two integers.
    pub fn compare(&self, other: &BigNum) -> (r: core::cmp::Ordering)
        ensures
            (r == core::cmp::Ordering::Less) == (self.value() < other.value()),
            (r == core::cmp::Ordering::Equal) == (self.value() == other.value()),
            (r == core::cmp::Ordering::Greater) == (self.value() > other.value()),
    {
        big_cmp(self, other)
    }

    /// `self` raised to the power `exponent`.
    pub fn pow(&self, exponent: u32) -> (r: BigNum)
        ensures
            r.value() == pow(self.value(), exponent as nat),
    {
        big_pow(self, exponent)
    }
}

impl PartialEq for BigNum {
    fn eq(&self, other: &BigNum) -> (r: bool) {
        match self.compare(other) {
            core::cmp::Ordering::Equal => true,
            _ => false,
        }
    }
}

impl vstd::std_specs::cmp::PartialEqSpecImpl for BigNum {
    open spec fn obeys_eq_spec() -> bool {
        true
    }

    open spec fn eq_spec(&self, other: &BigNum) -> bool {
        self.value() == other.value()
    }
}

/// Relies on `BigInt::from_slice`, `Ord::cmp` for `BigInt`: both operands are
/// read from their sign and base-2^32 digits, and compared as integers.
#[verifier::external_body]
fn big_cmp(a: &BigNum, b: &BigNum) -> (r: core::cmp::Ordering)
    ensures
        (r == core::cmp::Ordering::Less) == (a.value() < b.value()),
        (r == core::cmp::Ordering::Equal) == (a.value() == b.value()),
        (r == core::cmp::Ordering::Greater) == (a.value() > b.value()),
{
    let sa = if a.negative { Sign::Minus } else { Sign::Plus };
    let sb = if b.negative { Sign::Minus } else { Sign::Plus };
    BigInt::from_slice(sa, &a.digits).cmp(&BigInt::from_slice(sb, &b.digits))
}

/// Relies on `BigInt::pow`: the integer power, handed back through
/// `BigInt::to_u32_digits` as sign and base-2^32 digits.
#[verifier::external_body]
fn big_pow(b: &BigNum, exponent: u32) -> (r: BigNum)
    ensures
        r.value() == pow(b.value(), exponent as nat),
{
    let s = if b.negative { Sign::Minus } else { Sign::Plus };
    let (sign, digits) = BigInt::from_slice(s, &b.digits).pow(exponent).to_u32_digits();
    BigNum { negative: sign == Sign::Minus, digits }
}

} // verus!
