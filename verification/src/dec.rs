use vstd::prelude::*;
use vstd::arithmetic::div_mod::{
    lemma_basic_div, lemma_div_by_multiple, lemma_div_denominator, lemma_fundamental_div_mod,
};
use vstd::arithmetic::mul::{
    lemma_mul_inequality, lemma_mul_is_associative, lemma_mul_is_commutative,
    lemma_mul_upper_bound,
};

verus! {

/// Number of decimal places carried by a fixed-point amount.
pub const DECIMAL_PLACES: u32 = 18;

/// 2^64, used to split 128-bit values into 64-bit halves.
pub const TWO64: u128 = 0x1_0000_0000_0000_0000;

/// 10^n.
pub open spec fn pow10(n: nat) -> int
    decreases n,
{
    if n == 0 {
        1
    } else {
        10 * pow10((n - 1) as nat)
    }
}

/// 10^n is positive.
pub proof fn lemma_pow10_pos(n: nat)
    ensures
        pow10(n) >= 1,
    decreases n,
{
    if n > 0 {
        lemma_pow10_pos((n - 1) as nat);
    }
}

/// 10^(a+b) == 10^a * 10^b.
pub proof fn lemma_pow10_adds(a: nat, b: nat)
    ensures
        pow10(a + b) == pow10(a) * pow10(b),
    decreases a,
{
    if a == 0 {
    } else {
        lemma_pow10_adds((a - 1) as nat, b);
        assert(pow10(a + b) == 10 * (pow10((a - 1) as nat) * pow10(b)));
        lemma_mul_is_associative(10, pow10((a - 1) as nat), pow10(b));
    }
}

/// 10^n does not decrease as n grows.
pub proof fn lemma_pow10_increases(a: nat, b: nat)
    requires
        a <= b,
    ensures
        pow10(a) <= pow10(b),
{
    lemma_pow10_adds(a, (b - a) as nat);
    lemma_pow10_pos(a);
    lemma_pow10_pos((b - a) as nat);
    lemma_mul_inequality(1, pow10((b - a) as nat), pow10(a));
    lemma_mul_is_commutative(pow10(a), pow10((b - a) as nat));
}

/// The concrete value of 10^18.
pub proof fn lemma_pow10_18()
    ensures
        pow10(18) == 1_000_000_000_000_000_000,
{
    reveal_with_fuel(pow10, 19);
}

/// The concrete value of 10^38, the largest power of ten a 128-bit
/// value can hold.
pub proof fn lemma_pow10_38()
    ensures
        pow10(38) == 0x4B3B4CA85A86C47A_098A224000000000,
{
    reveal_with_fuel(pow10, 39);
}

/// 10^39 exceeds every 128-bit value.
pub proof fn lemma_pow10_39_exceeds_u128()
    ensures
        pow10(39) > u128::MAX,
{
    lemma_pow10_38();
    assert(pow10(39) == 10 * pow10(38)) by {
        reveal_with_fuel(pow10, 2);
        lemma_pow10_adds(1, 38);
    }
}

/// Computes 10^n for n up to 38.
pub fn pow10_u128(n: u32) -> (r: u128)
    requires
        n <= 38,
    ensures
        r == pow10(n as nat),
{
    let mut r: u128 = 1;
    let mut k: u32 = 0;
    while k < n
        invariant
            k <= n,
            n <= 38,
            r == pow10(k as nat),
        decreases n - k,
    {
        proof {
            assert(10 * pow10(k as nat) == pow10((k + 1) as nat));
            lemma_pow10_increases((k + 1) as nat, 38);
            lemma_pow10_38();
        }
        r = r * 10;
        k = k + 1;
    }
    r
}

/// A nonnegative fixed-point number with 18 decimal places whose
/// atomic part is a 256-bit value, stored as two 128-bit limbs.
#[derive(Clone, Copy, Debug, PartialEq, Eq, Structural)]
pub struct Dec256 {
    /// The upper 128 bits of the atomic part.
    pub hi: u128,
    /// The lower 128 bits of the atomic part.
    pub lo: u128,
}

impl Dec256 {
    /// The atomic part: the represented value times 10^18.
    pub open spec fn spec_atomics(self) -> int {
        self.hi * 0x1_0000_0000_0000_0000_0000_0000_0000_0000 + self.lo
    }

    /// The zero value.
    pub fn zero() -> (r: Dec256)
        ensures
            r.spec_atomics() == 0,
    {
        Dec256 { hi: 0, lo: 0 }
    }

    /// The value `atoms / 10^places`, held with 18 decimal places and
    /// rounded toward zero.  A scale so large that the result would
    /// fall below the smallest representable step collapses to zero.
    pub fn from_atomics(atoms: u128, places: u32) -> (r: Dec256)
        ensures
            r.spec_atomics() == atoms * pow10(18) / pow10(places as nat),
    {
        proof {
            lemma_pow10_pos(places as nat);
            lemma_pow10_18();
        }
        if places <= DECIMAL_PLACES {
            let digits: u32 = DECIMAL_PLACES - places;
            proof {
                lemma_pow10_increases(digits as nat, 18);
            }
            let factor: u128 = pow10_u128(digits);
            let r = mul_u128_by_small(atoms, factor);
            proof {
                lemma_pow10_adds(digits as nat, places as nat);
                lemma_mul_is_associative(atoms as int, pow10(digits as nat), pow10(places as nat));
                lemma_div_by_multiple(atoms * pow10(digits as nat), pow10(places as nat));
            }
            r
        } else {
            let digits: u32 = places - DECIMAL_PLACES;
            proof {
                lemma_pow10_pos(digits as nat);
                lemma_pow10_adds(18, digits as nat);
                lemma_div_denominator(atoms * pow10(18), pow10(18), pow10(digits as nat));
                lemma_div_by_multiple(atoms as int, pow10(18));
                lemma_mul_is_commutative(atoms as int, pow10(18));
                assert(atoms * pow10(18) / pow10(places as nat) == atoms as int / pow10(
                    digits as nat,
                ));
            }
            if digits <= 38 {
                let factor: u128 = pow10_u128(digits);
                let lo: u128 = atoms / factor;
                Dec256 { hi: 0, lo }
            } else {
                proof {
                    lemma_pow10_increases(39, digits as nat);
                    lemma_pow10_39_exceeds_u128();
                    lemma_basic_div(atoms as int, pow10(digits as nat));
                }
                Dec256 { hi: 0, lo: 0 }
            }
        }
    }
}

/// Multiplies a 128-bit value by a factor of at most 10^18, producing
/// the exact 256-bit product.
fn mul_u128_by_small(a: u128, f: u128) -> (r: Dec256)
    requires
        f <= 1_000_000_000_000_000_000,
    ensures
        r.spec_atomics() == a * f,
{
    proof {
        assert(a / TWO64 < TWO64 && a % TWO64 < TWO64) by (bit_vector);
    }
    let a_hi: u128 = a / TWO64;
    let a_lo: u128 = a % TWO64;
    proof {
        lemma_mul_upper_bound(a_hi as int, TWO64 - 1, f as int, 1_000_000_000_000_000_000);
        lemma_mul_upper_bound(a_lo as int, TWO64 - 1, f as int, 1_000_000_000_000_000_000);
    }
    let p1: u128 = a_hi * f;
    let p2: u128 = a_lo * f;
    let mid: u128 = p2 / TWO64 + p1 % TWO64;
    proof {
        assert((mid % TWO64) * TWO64 <= (TWO64 - 1) * TWO64) by (nonlinear_arith)
            requires
                mid % TWO64 < TWO64,
                TWO64 > 0,
        ;
    }
    let lo: u128 = (mid % TWO64) * TWO64 + p2 % TWO64;
    let hi: u128 = p1 / TWO64 + mid / TWO64;
    proof {
        let t = TWO64 as int;
        lemma_fundamental_div_mod(a as int, t);
        lemma_fundamental_div_mod(p1 as int, t);
        lemma_fundamental_div_mod(p2 as int, t);
        lemma_fundamental_div_mod(mid as int, t);
        assert(a * f == hi * 0x1_0000_0000_0000_0000_0000_0000_0000_0000 + lo)
            by (nonlinear_arith)
            requires
                t == TWO64 as int,
                a == t * (a as int / t) + a as int % t,
                p1 == a as int / t * f,
                p2 == a as int % t * f,
                p1 == t * (p1 as int / t) + p1 as int % t,
                p2 == t * (p2 as int / t) + p2 as int % t,
                mid == p2 as int / t + p1 as int % t,
                mid == t * (mid as int / t) + mid as int % t,
                lo == (mid as int % t) * t + p2 as int % t,
                hi == p1 as int / t + mid as int / t,
        ;
    }
    Dec256 { hi, lo }
}

} // verus!
