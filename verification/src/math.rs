//! The field abstraction: a fixed non-zero modulus and the arithmetic
//! operations closed over it. Every operation returns a value reduced into
//! `[0, modulus)` or a typed failure; none panics.

use vstd::prelude::*;
use vstd::arithmetic::power::pow;
use vstd::arithmetic::div_mod::{
    lemma_small_mod, lemma_mod_self_0, lemma_mod_bound, lemma_mod_add_multiples_vanish,
};

use crate::error::ModCError;
use crate::wide::{
    U256, wide_limit, lemma_u256_view_bound, u256_plus, u256_minus, u256_mod, u256_checked_add,
    u256_checked_mul, u256_checked_div, u256_checked_pow,
};

verus! {

/// What reduction returns: `a mod m`.
pub open spec fn reduce_val(a: int, m: int) -> int {
    a % m
}

/// What addition returns: the sum reduced into `[0, m)`.
pub open spec fn add_val(a: int, b: int, m: int) -> int {
    (a + b) % m
}

/// What subtraction returns: both operands reduced, then wrap-around
/// subtraction into `[0, m)`.
pub open spec fn sub_val(a: int, b: int, m: int) -> int {
    (a % m + m - b % m) % m
}

/// What the additive inverse returns: the value that completes `a mod m`
/// to a multiple of `m`.
pub open spec fn add_inv_val(a: int, m: int) -> int {
    (m - a % m) % m
}

/// What multiplication returns: the product reduced into `[0, m)`.
pub open spec fn mult_val(a: int, b: int, m: int) -> int {
    (a * b) % m
}

/// What division returns: the plain integer quotient reduced into `[0, m)`.
/// This is deliberately not `a * b^-1 mod m`.
pub open spec fn div_val(a: int, b: int, m: int) -> int {
    (a / b) % m
}

/// What exponentiation returns: the full power reduced into `[0, m)`.
pub open spec fn pow_val(a: int, e: nat, m: int) -> int {
    pow(a, e) % m
}

/// The base the multiplicative inverse exponentiates: `a` itself when
/// `a <= m`, otherwise `a` reduced.
pub open spec fn inv_base(a: int, m: int) -> int {
    if a > m {
        a % m
    } else {
        a
    }
}

/// What the multiplicative inverse returns: the Fermat-style power
/// `base^(m - base) mod m`, with the base chosen by `inv_base`. This
/// exponent is the one the operation is defined with; it coincides with the
/// textbook inverse only for particular `a` and prime `m`.
pub open spec fn mult_inv_val(a: int, m: int) -> int {
    pow(inv_base(a, m), (m - inv_base(a, m)) as nat) % m
}

/// For operands already reduced into `[0, m)`, subtraction agrees with the
/// wrap-around formula `(a - b + m) % m`, and its result lies in `[0, m)`.
pub proof fn lemma_sub_reduced_operands(a: int, b: int, m: int)
    requires
        0 < m,
        0 <= a < m,
        0 <= b < m,
    ensures
        sub_val(a, b, m) == (a - b + m) % m,
        0 <= sub_val(a, b, m) < m,
{
    lemma_small_mod(a as nat, m as nat);
    lemma_small_mod(b as nat, m as nat);
    lemma_mod_bound(a + m - b, m);
}

/// Adding a value of `(0, m)` to its additive inverse yields zero in the
/// field.
pub proof fn lemma_add_inverse_cancels(a: int, m: int)
    requires
        0 < m,
        0 < a < m,
    ensures
        add_val(a, add_inv_val(a, m), m) == 0,
{
    lemma_small_mod(a as nat, m as nat);
    lemma_small_mod((m - a) as nat, m as nat);
    lemma_mod_self_0(m);
}

/// Reduction at the boundaries: the modulus itself reduces to zero, and
/// zero is left unchanged.
pub proof fn lemma_reduce_boundary(m: int)
    requires
        0 < m,
    ensures
        reduce_val(m, m) == 0,
        reduce_val(0, m) == 0,
{
    lemma_mod_self_0(m);
    lemma_small_mod(0, m as nat);
}

/// Every operation's result lies in the canonical range `[0, m)`.
pub proof fn lemma_results_reduced(a: int, b: int, e: nat, m: int)
    requires
        0 < m,
    ensures
        0 <= reduce_val(a, m) < m,
        0 <= add_val(a, b, m) < m,
        0 <= sub_val(a, b, m) < m,
        0 <= add_inv_val(a, m) < m,
        0 <= mult_val(a, b, m) < m,
        0 <= div_val(a, b, m) < m,
        0 <= pow_val(a, e, m) < m,
        0 <= mult_inv_val(a, m) < m,
{
    lemma_mod_bound(a, m);
    lemma_mod_bound(b, m);
    lemma_mod_bound(a + b, m);
    lemma_mod_bound(a % m + m - b % m, m);
    lemma_mod_bound(m - a % m, m);
    lemma_mod_bound(a * b, m);
    lemma_mod_bound(a / b, m);
    lemma_mod_bound(pow(a, e), m);
    lemma_mod_bound(pow(inv_base(a, m), (m - inv_base(a, m)) as nat), m);
}

/// Arithmetic modulo a fixed 256-bit modulus. The modulus is validated at
/// construction, positive for the lifetime of the value, and never mutated.
#[derive(Debug, Clone, Copy, PartialEq, Eq, Structural)]
pub struct Field {
    modulus: U256,
}

impl Field {
    /// The modulus as a mathematical value.
    pub closed spec fn modulus_val(&self) -> nat {
        self.modulus@
    }

    /// A field is well formed exactly when its modulus is positive; the
    /// constructor establishes this and nothing can break it.
    pub open spec fn wf(&self) -> bool {
        self.modulus_val() > 0
    }

    /// Validates and wraps a modulus: zero is rejected with `ModulusZero`,
    /// anything else becomes a well-formed field holding it unchanged.
    pub fn new(modulus: U256) -> (r: Result<Field, ModCError>)
        ensures
            match r {
                Ok(f) => modulus@ > 0 && f.wf() && f.modulus_val() == modulus@,
                Err(e) => modulus@ == 0 && e == ModCError::ModulusZero,
            },
    {
        if modulus.is_zero() {
            return Err(ModCError::ModulusZero);
        }
        Ok(Field { modulus })
    }

    /// Reduces `a` into `[0, modulus)`; total, since the modulus is positive.
    pub fn self_mod(&self, a: U256) -> (r: U256)
        requires
            self.wf(),
        ensures
            r@ == reduce_val(a@ as int, self.modulus_val() as int),
    {
        u256_mod(&a, &self.modulus)
    }

    /// Adds in the working width, then reduces. Fails with `Overflow`
    /// exactly when the unreduced sum does not fit in 256 bits.
    pub fn add(&self, a: U256, b: U256) -> (r: Result<U256, ModCError>)
        requires
            self.wf(),
        ensures
            match r {
                Ok(s) => a@ + b@ < wide_limit() && s@ == add_val(
                    a@ as int,
                    b@ as int,
                    self.modulus_val() as int,
                ),
                Err(e) => a@ + b@ >= wide_limit() && e == ModCError::Overflow,
            },
    {
        match u256_checked_add(&a, &b) {
            Some(s) => Ok(u256_mod(&s, &self.modulus)),
            None => Err(ModCError::Overflow),
        }
    }

    /// Reduces both operands, then subtracts with wrap-around below zero.
    /// Never fails: neither branch can underflow.
    pub fn sub(&self, a: U256, b: U256) -> (r: Result<U256, ModCError>)
        requires
            self.wf(),
        ensures
            r matches Ok(d) && d@ == sub_val(a@ as int, b@ as int, self.modulus_val() as int),
    {
        let ghost m: int = self.modulus_val() as int;
        proof {
            lemma_mod_bound(a@ as int, m);
            lemma_mod_bound(b@ as int, m);
        }
        let a_red = self.self_mod(a);
        let b_red = self.self_mod(b);
        if b_red.gt(&a_red) {
            proof {
                lemma_u256_view_bound(self.modulus);
            }
            let gap = u256_minus(&self.modulus, &b_red);
            let shifted = u256_plus(&a_red, &gap);
            Ok(u256_mod(&shifted, &self.modulus))
        } else {
            let diff = u256_minus(&a_red, &b_red);
            proof {
                lemma_mod_add_multiples_vanish(diff@ as int, m);
                lemma_small_mod(diff@, m as nat);
            }
            Ok(diff)
        }
    }

    /// Returns the value that completes `a mod modulus` to a multiple of the
    /// modulus. Never fails; the error channel is kept for consistency with
    /// the sibling operations.
    pub fn add_inv(&self, a: U256) -> (r: Result<U256, ModCError>)
        requires
            self.wf(),
        ensures
            r matches Ok(x) && x@ == add_inv_val(a@ as int, self.modulus_val() as int),
    {
        proof {
            lemma_mod_bound(a@ as int, self.modulus_val() as int);
        }
        let a_red = self.self_mod(a);
        let flipped = u256_minus(&self.modulus, &a_red);
        Ok(u256_mod(&flipped, &self.modulus))
    }

    /// Multiplies in the working width, then reduces. Fails with `Underflow`
    /// (the label this operation shares with division by zero) exactly when
    /// the unreduced product does not fit in 256 bits.
    pub fn mult(&self, a: U256, b: U256) -> (r: Result<U256, ModCError>)
        requires
            self.wf(),
        ensures
            match r {
                Ok(p) => a@ * b@ < wide_limit() && p@ == mult_val(
                    a@ as int,
                    b@ as int,
                    self.modulus_val() as int,
                ),
                Err(e) => a@ * b@ >= wide_limit() && e == ModCError::Underflow,
            },
    {
        match u256_checked_mul(&a, &b) {
            Some(p) => Ok(u256_mod(&p, &self.modulus)),
            None => Err(ModCError::Underflow),
        }
    }

    /// The Fermat-style multiplicative inverse: `base^(modulus - base)`
    /// reduced, where `base` is `a` reduced only when `a` exceeds the
    /// modulus. Fails with `InverseZero` for `a == 0`, and with `Overflow`
    /// exactly when the unreduced power does not fit in 256 bits.
    pub fn mult_inv(&self, a: U256) -> (r: Result<U256, ModCError>)
        requires
            self.wf(),
        ensures
            match r {
                Ok(p) => a@ > 0 && pow(
                    inv_base(a@ as int, self.modulus_val() as int),
                    (self.modulus_val() - inv_base(a@ as int, self.modulus_val() as int)) as nat,
                ) < wide_limit() && p@ == mult_inv_val(a@ as int, self.modulus_val() as int),
                Err(e) => (a@ == 0 && e == ModCError::InverseZero) || (a@ > 0 && pow(
                    inv_base(a@ as int, self.modulus_val() as int),
                    (self.modulus_val() - inv_base(a@ as int, self.modulus_val() as int)) as nat,
                ) >= wide_limit() && e == ModCError::Overflow),
            },
    {
        if a.is_zero() {
            return Err(ModCError::InverseZero);
        }
        if a.gt(&self.modulus) {
            proof {
                lemma_mod_bound(a@ as int, self.modulus_val() as int);
            }
            let mod_a = self.self_mod(a);
            let exponent = u256_minus(&self.modulus, &mod_a);
            match u256_checked_pow(&mod_a, &exponent) {
                Some(p) => Ok(u256_mod(&p, &self.modulus)),
                None => Err(ModCError::Overflow),
            }
        } else {
            let exponent = u256_minus(&self.modulus, &a);
            match u256_checked_pow(&a, &exponent) {
                Some(p) => Ok(u256_mod(&p, &self.modulus)),
                None => Err(ModCError::Overflow),
            }
        }
    }

    /// The plain integer quotient `a / b`, reduced. This is not modular
    /// division by an inverse. Fails with `Underflow` (the shared label)
    /// exactly when `b` is zero.
    pub fn div(&self, a: U256, b: U256) -> (r: Result<U256, ModCError>)
        requires
            self.wf(),
        ensures
            match r {
                Ok(q) => b@ > 0 && q@ == div_val(a@ as int, b@ as int, self.modulus_val() as int),
                Err(e) => b@ == 0 && e == ModCError::Underflow,
            },
    {
        match u256_checked_div(&a, &b) {
            Some(q) => Ok(u256_mod(&q, &self.modulus)),
            None => Err(ModCError::Underflow),
        }
    }

    /// The full power `a^power` in the working width, then reduced; no
    /// modular reduction happens during exponentiation. Fails with
    /// `Overflow` exactly when the unreduced power does not fit in 256 bits.
    pub fn pow(&self, a: U256, power: U256) -> (r: Result<U256, ModCError>)
        requires
            self.wf(),
        ensures
            match r {
                Ok(p) => pow(a@ as int, power@) < wide_limit() && p@ == pow_val(
                    a@ as int,
                    power@,
                    self.modulus_val() as int,
                ),
                Err(e) => pow(a@ as int, power@) >= wide_limit() && e == ModCError::Overflow,
            },
    {
        match u256_checked_pow(&a, &power) {
            Some(p) => Ok(u256_mod(&p, &self.modulus)),
            None => Err(ModCError::Overflow),
        }
    }
}

} // verus!

