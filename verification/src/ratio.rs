//! Exact fill fractions for the gauge widgets.

use vstd::prelude::*;

verus! {

/// Why a gauge configuration was rejected. Configuration errors are detected
/// eagerly when the value is built; rendering itself never fails.
#[derive(Debug, Clone, Copy, PartialEq, Eq)]
pub enum ConfigError {
    /// A percentage outside `0..=100`.
    PercentOutOfRange,
    /// A fraction outside the closed unit interval, or one whose parts do not
    /// fit in 32 bits.
    RatioOutOfRange,
}

/// A fill fraction in the closed unit interval, kept as an exact rational
/// `num / den` so that every boundary computation of the renderers is plain
/// integer arithmetic.
#[derive(Debug, Clone, Copy, PartialEq, Eq, Hash)]
pub struct Ratio {
    num: u32,
    den: u32,
}

impl Ratio {
    /// The numerator.
    pub closed spec fn spec_num(&self) -> u32 {
        self.num
    }

    /// The denominator.
    pub closed spec fn spec_den(&self) -> u32 {
        self.den
    }

    /// A proper fraction: what every value of this type is.
    #[verifier::type_invariant]
    pub open spec fn wf(self) -> bool {
        1 <= self.spec_den() && self.spec_num() <= self.spec_den()
    }

    /// The numerator.
    #[verifier::when_used_as_spec(spec_num)]
    pub fn num(&self) -> (n: u32)
        ensures
            n == self.spec_num(),
    {
        self.num
    }

    /// The denominator.
    #[verifier::when_used_as_spec(spec_den)]
    pub fn den(&self) -> (d: u32)
        ensures
            d == self.spec_den(),
    {
        self.den
    }

    /// The fraction zero.
    pub fn zero() -> (r: Ratio)
        ensures
            r.spec_num() == 0,
            r.spec_den() == 1,
    {
        Ratio { num: 0, den: 1 }
    }

    /// The fraction one.
    pub fn one() -> (r: Ratio)
        ensures
            r.spec_num() == 1,
            r.spec_den() == 1,
    {
        Ratio { num: 1, den: 1 }
    }

    /// Builds the fraction `num / den`, rejecting anything outside the closed
    /// unit interval; parts beyond 32 bits are rejected as unrepresentable.
    pub fn new(num: i64, den: i64) -> (r: Result<Ratio, ConfigError>)
        ensures
            r is Ok <==> 1 <= den <= 0xFFFF_FFFFi64 && 0 <= num <= den,
            r matches Ok(q) ==> q.spec_num() == num && q.spec_den() == den,
            r is Err ==> r == Err::<Ratio, ConfigError>(ConfigError::RatioOutOfRange),
    {
        if 1 <= den && den <= 0xFFFF_FFFF && 0 <= num && num <= den {
            Ok(Ratio { num: num as u32, den: den as u32 })
        } else {
            Err(ConfigError::RatioOutOfRange)
        }
    }

    /// Builds the fraction `percent / 100`, rejecting a percentage above 100.
    pub fn percent(percent: u16) -> (r: Result<Ratio, ConfigError>)
        ensures
            r is Ok <==> percent <= 100,
            r matches Ok(q) ==> q.spec_num() == percent && q.spec_den() == 100,
            r is Err ==> r == Err::<Ratio, ConfigError>(ConfigError::PercentOutOfRange),
    {
        if percent <= 100 {
            Ok(Ratio { num: percent as u32, den: 100 })
        } else {
            Err(ConfigError::PercentOutOfRange)
        }
    }

    /// The fraction as a percentage rounded to the nearest whole number,
    /// halves away from zero.
    pub open spec fn spec_rounded_percent(self) -> int {
        (200 * self.spec_num() + self.spec_den()) / (2 * self.spec_den())
    }

    /// The fraction as a percentage rounded to the nearest whole number,
    /// halves away from zero.
    pub fn rounded_percent(&self) -> (p: u16)
        ensures
            p == self.spec_rounded_percent(),
            p <= 100,
    {
        proof {
            use_type_invariant(&*self);
        }
        let n = self.num as u64;
        let d = self.den as u64;
        let p = (200 * n + d) / (2 * d);
        proof {
            lemma_div_le(200 * n + d, 2 * d, 100);
        }
        p as u16
    }
}

/// Floor division stays at or below `k` while the dividend stays at or below
/// `k * b + (b - 1)`.
pub proof fn lemma_div_le(a: int, b: int, k: int)
    requires
        0 < b,
        0 <= a,
        0 <= k,
        a <= k * b + (b - 1),
    ensures
        a / b <= k,
{
    vstd::arithmetic::div_mod::lemma_div_is_ordered(a, k * b + (b - 1), b);
    vstd::arithmetic::mul::lemma_mul_is_commutative(k, b);
    vstd::arithmetic::div_mod::lemma_div_multiples_vanish_fancy(k, b - 1, b);
}

} // verus!
