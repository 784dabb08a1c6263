//! The 256-bit unsigned working width: a limb representation whose
//! mathematical value is its view, verified comparisons on it, and trusted
//! wrappers around the `primitive_types::U256` arithmetic that carries out
//! the heavy operations.

use vstd::prelude::*;
use vstd::arithmetic::power::pow;

verus! {

/// `2^256`, the first value that does not fit in the working width.
pub open spec fn wide_limit() -> nat {
    0x10000000000000000000000000000000000000000000000000000000000000000nat
}

/// A 256-bit unsigned integer held as four 64-bit limbs, least significant
/// first. Its view is the mathematical value the limbs encode.
#[derive(Debug, Clone, Copy, PartialEq, Eq, Structural)]
pub struct U256 {
    limb0: u64,
    limb1: u64,
    limb2: u64,
    limb3: u64,
}

impl View for U256 {
    type V = nat;

    closed spec fn view(&self) -> nat {
        (self.limb0 + self.limb1 * 0x10000000000000000int
            + self.limb2 * 0x100000000000000000000000000000000int
            + self.limb3 * 0x1000000000000000000000000000000000000000000000000int) as nat
    }
}

/// Every value of the working width lies below `2^256`.
pub proof fn lemma_u256_view_bound(a: U256)
    ensures
        a@ < wide_limit(),
{
}

impl U256 {
    /// Embeds a 64-bit value into the working width.
    pub fn from_u64(x: u64) -> (r: U256)
        ensures
            r@ == x,
    {
        U256 { limb0: x, limb1: 0, limb2: 0, limb3: 0 }
    }

    /// Builds a value from its four 64-bit limbs, least significant first.
    pub fn from_limbs(l0: u64, l1: u64, l2: u64, l3: u64) -> (r: U256)
        ensures
            r@ == l0 + l1 * 0x10000000000000000int
                + l2 * 0x100000000000000000000000000000000int
                + l3 * 0x1000000000000000000000000000000000000000000000000int,
    {
        U256 { limb0: l0, limb1: l1, limb2: l2, limb3: l3 }
    }

    /// True exactly when the value is zero.
    pub fn is_zero(&self) -> (r: bool)
        ensures
            r <==> self@ == 0,
    {
        self.limb0 == 0 && self.limb1 == 0 && self.limb2 == 0 && self.limb3 == 0
    }

    /// True exactly when `self` is strictly greater than `other`.
    pub fn gt(&self, other: &U256) -> (r: bool)
        ensures
            r <==> self@ > other@,
    {
        if self.limb3 != other.limb3 {
            self.limb3 > other.limb3
        } else if self.limb2 != other.limb2 {
            self.limb2 > other.limb2
        } else if self.limb1 != other.limb1 {
            self.limb1 > other.limb1
        } else {
            self.limb0 > other.limb0
        }
    }
}

/// Relies on `primitive_types::U256`'s `Add` impl: the exact 256-bit sum;
/// it panics on overflow, which the precondition rules out.
#[verifier::external_body]
pub(crate) fn u256_plus(a: &U256, b: &U256) -> (r: U256)
    requires
        a@ + b@ < wide_limit(),
    ensures
        r@ == a@ + b@,
{
    let x = primitive_types::U256([a.limb0, a.limb1, a.limb2, a.limb3]);
    let y = primitive_types::U256([b.limb0, b.limb1, b.limb2, b.limb3]);
    let s = x + y;
    U256 { limb0: s.0[0], limb1: s.0[1], limb2: s.0[2], limb3: s.0[3] }
}

/// Relies on `primitive_types::U256`'s `Sub` impl: the exact difference;
/// it panics on underflow, which the precondition rules out.
#[verifier::external_body]
pub(crate) fn u256_minus(a: &U256, b: &U256) -> (r: U256)
    requires
        b@ <= a@,
    ensures
        r@ == a@ - b@,
{
    let x = primitive_types::U256([a.limb0, a.limb1, a.limb2, a.limb3]);
    let y = primitive_types::U256([b.limb0, b.limb1, b.limb2, b.limb3]);
    let d = x - y;
    U256 { limb0: d.0[0], limb1: d.0[1], limb2: d.0[2], limb3: d.0[3] }
}

/// Relies on `primitive_types::U256`'s `Rem` impl: the Euclidean remainder;
/// it panics on a zero divisor, which the precondition rules out.
#[verifier::external_body]
pub(crate) fn u256_mod(a: &U256, m: &U256) -> (r: U256)
    requires
        m@ > 0,
    ensures
        r@ == a@ % m@,
{
    let x = primitive_types::U256([a.limb0, a.limb1, a.limb2, a.limb3]);
    let y = primitive_types::U256([m.limb0, m.limb1, m.limb2, m.limb3]);
    let v = x % y;
    U256 { limb0: v.0[0], limb1: v.0[1], limb2: v.0[2], limb3: v.0[3] }
}

/// Relies on `primitive_types::U256::checked_add`: the exact sum, or `None`
/// exactly when the sum does not fit in 256 bits.
#[verifier::external_body]
pub(crate) fn u256_checked_add(a: &U256, b: &U256) -> (r: Option<U256>)
    ensures
        match r {
            Some(s) => a@ + b@ < wide_limit() && s@ == a@ + b@,
            None => a@ + b@ >= wide_limit(),
        },
{
    let x = primitive_types::U256([a.limb0, a.limb1, a.limb2, a.limb3]);
    let y = primitive_types::U256([b.limb0, b.limb1, b.limb2, b.limb3]);
    match x.checked_add(y) {
        Some(s) => Some(U256 { limb0: s.0[0], limb1: s.0[1], limb2: s.0[2], limb3: s.0[3] }),
        None => None,
    }
}

/// Relies on `primitive_types::U256::checked_mul`: the exact product, or
/// `None` exactly when the product does not fit in 256 bits.
#[verifier::external_body]
pub(crate) fn u256_checked_mul(a: &U256, b: &U256) -> (r: Option<U256>)
    ensures
        match r {
            Some(p) => a@ * b@ < wide_limit() && p@ == a@ * b@,
            None => a@ * b@ >= wide_limit(),
        },
{
    let x = primitive_types::U256([a.limb0, a.limb1, a.limb2, a.limb3]);
    let y = primitive_types::U256([b.limb0, b.limb1, b.limb2, b.limb3]);
    match x.checked_mul(y) {
        Some(p) => Some(U256 { limb0: p.0[0], limb1: p.0[1], limb2: p.0[2], limb3: p.0[3] }),
        None => None,
    }
}

/// Relies on `primitive_types::U256::checked_div`: the integer quotient, or
/// `None` exactly when the divisor is zero.
#[verifier::external_body]
pub(crate) fn u256_checked_div(a: &U256, b: &U256) -> (r: Option<U256>)
    ensures
        match r {
            Some(q) => b@ > 0 && q@ == a@ / b@,
            None => b@ == 0,
        },
{
    let x = primitive_types::U256([a.limb0, a.limb1, a.limb2, a.limb3]);
    let y = primitive_types::U256([b.limb0, b.limb1, b.limb2, b.limb3]);
    match x.checked_div(y) {
        Some(q) => Some(U256 { limb0: q.0[0], limb1: q.0[1], limb2: q.0[2], limb3: q.0[3] }),
        None => None,
    }
}

/// Relies on `primitive_types::U256::checked_pow`: the exact power, or
/// `None` exactly when the power does not fit in 256 bits. Its
/// square-and-multiply loop never forms a product larger than the full
/// power, so the overflow flag is exact; `0^0` is `1`.
#[verifier::external_body]
pub(crate) fn u256_checked_pow(a: &U256, e: &U256) -> (r: Option<U256>)
    ensures
        match r {
            Some(p) => pow(a@ as int, e@) < wide_limit() && p@ == pow(a@ as int, e@),
            None => pow(a@ as int, e@) >= wide_limit(),
        },
{
    let x = primitive_types::U256([a.limb0, a.limb1, a.limb2, a.limb3]);
    let y = primitive_types::U256([e.limb0, e.limb1, e.limb2, e.limb3]);
    match x.checked_pow(y) {
        Some(p) => Some(U256 { limb0: p.0[0], limb1: p.0[1], limb2: p.0[2], limb3: p.0[3] }),
        None => None,
    }
}

} // verus!
