use vstd::prelude::*;

verus! {

/// The live playback-speed multiplier, kept as a ratio of two positive
/// integers so that every update is exact. The default is 1 (normal speed);
/// a factor of 1/2 halves the effective frame rate, a factor of 2 doubles it.
/// Updates compound multiplicatively: there is no absolute "set" operation.
#[derive(Clone, Copy, Debug, PartialEq, Eq, Structural)]
pub struct Speed {
    pub num: u64,
    pub den: u64,
}

impl Speed {
    /// Both parts of the ratio are positive, so the multiplier itself is
    /// positive and never divides by zero.
    pub open spec fn wf(self) -> bool {
        1 <= self.num && 1 <= self.den
    }

    /// The default multiplier: exactly 1.
    pub open spec fn spec_one() -> Speed {
        Speed { num: 1, den: 1 }
    }

    /// Two ratios denote the same multiplier (cross-multiplication).
    pub open spec fn same_value(self, other: Speed) -> bool {
        self.num * other.den == other.num * self.den
    }

    /// The ratio that results from compounding `self` with the factor `f`.
    /// Meaningful when the products fit in `u64`; the executable `times`
    /// requires exactly that.
    pub open spec fn spec_times(self, f: Speed) -> Speed {
        Speed { num: (self.num * f.num) as u64, den: (self.den * f.den) as u64 }
    }

    pub fn one() -> (r: Speed)
        ensures
            r == Speed::spec_one(),
            r.wf(),
    {
        Speed { num: 1, den: 1 }
    }

    pub fn new(num: u64, den: u64) -> (r: Speed)
        requires
            1 <= num,
            1 <= den,
        ensures
            r == (Speed { num, den }),
            r.wf(),
    {
        Speed { num, den }
    }

    /// Compound this multiplier with a further factor.
    pub fn times(self, f: Speed) -> (r: Speed)
        requires
            self.wf(),
            f.wf(),
            self.num * f.num <= u64::MAX,
            self.den * f.den <= u64::MAX,
        ensures
            r == self.spec_times(f),
            r.num == self.num * f.num,
            r.den == self.den * f.den,
            r.wf(),
    {
        proof {
            assert(1 <= self.num * f.num && 1 <= self.den * f.den) by (nonlinear_arith)
                requires
                    1 <= self.num,
                    1 <= f.num,
                    1 <= self.den,
                    1 <= f.den,
            ;
        }
        Speed { num: self.num * f.num, den: self.den * f.den }
    }

    /// Decide whether two ratios denote the same multiplier.
    pub fn eq_value(self, other: Speed) -> (r: bool)
        ensures
            r == self.same_value(other),
    {
        proof {
            assert((self.num as int) * (other.den as int) < 0x100000000000000000000000000000000
                && (other.num as int) * (self.den as int) < 0x100000000000000000000000000000000)
                by (nonlinear_arith)
                requires
                    self.num <= u64::MAX,
                    other.num <= u64::MAX,
                    self.den <= u64::MAX,
                    other.den <= u64::MAX,
            ;
        }
        (self.num as u128) * (other.den as u128) == (other.num as u128) * (self.den as u128)
    }
}

/// Law: speed factors compound multiplicatively, never absolutely. Applying
/// `s1` and then `s2` to a multiplier `v` yields the same ratio as applying
/// the single factor `s1 * s2`, namely the product of all three ratios.
pub proof fn lemma_speed_factors_compose(v: Speed, s1: Speed, s2: Speed)
    requires
        v.wf(),
        s1.wf(),
        s2.wf(),
        v.num * s1.num * s2.num <= u64::MAX,
        v.den * s1.den * s2.den <= u64::MAX,
    ensures
        v.spec_times(s1).spec_times(s2) == v.spec_times(s1.spec_times(s2)),
        v.spec_times(s1).spec_times(s2).num == v.num * s1.num * s2.num,
        v.spec_times(s1).spec_times(s2).den == v.den * s1.den * s2.den,
{
    assert(v.num * s1.num <= v.num * s1.num * s2.num && s1.num * s2.num <= v.num * s1.num * s2.num)
        by (nonlinear_arith)
        requires
            1 <= v.num,
            1 <= s1.num,
            1 <= s2.num,
    ;
    assert(v.den * s1.den <= v.den * s1.den * s2.den && s1.den * s2.den <= v.den * s1.den * s2.den)
        by (nonlinear_arith)
        requires
            1 <= v.den,
            1 <= s1.den,
            1 <= s2.den,
    ;
    assert((v.num * s1.num) * s2.num == v.num * (s1.num * s2.num)) by (nonlinear_arith);
    assert((v.den * s1.den) * s2.den == v.den * (s1.den * s2.den)) by (nonlinear_arith);
}

} // verus!
