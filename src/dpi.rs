use vstd::prelude::*;

verus! {

/// A size in application-logical units.
#[derive(Debug, Clone, Copy, PartialEq, Eq, Structural, Hash)]
pub struct LogicalSize {
    pub width: u32,
    pub height: u32,
}

/// A size in physical pixels.
#[derive(Debug, Clone, Copy, PartialEq, Eq, Structural, Hash)]
pub struct PhysicalSize {
    pub width: u32,
    pub height: u32,
}

/// A scale factor held exactly as the fraction `numerator / denominator`
/// (a compositor's fractional scale is a count of 120ths).
#[derive(Debug, Clone, Copy, PartialEq, Eq, Structural, Hash)]
pub struct ScaleFactor {
    pub numerator: u32,
    pub denominator: u32,
}

impl ScaleFactor {
    pub open spec fn wf(self) -> bool {
        self.denominator > 0
    }
}

/// `v * num / den` rounded to the nearest integer, halves away from zero.
pub open spec fn round_scaled(v: nat, num: nat, den: nat) -> nat
    recommends
        den > 0,
{
    ((2 * v * num + den) / (2 * den)) as nat
}

/// One axis of a physical size: the rounded product, saturated at the
/// largest `u32`.
pub open spec fn physical_extent(v: nat, s: ScaleFactor) -> nat {
    let r = round_scaled(v, s.numerator as nat, s.denominator as nat);
    if r > u32::MAX {
        u32::MAX as nat
    } else {
        r
    }
}

pub open spec fn physical_size_of(size: LogicalSize, s: ScaleFactor) -> PhysicalSize {
    PhysicalSize {
        width: physical_extent(size.width as nat, s) as u32,
        height: physical_extent(size.height as nat, s) as u32,
    }
}

proof fn lemma_round_by_remainder(p: nat, den: nat, q: nat, rem: nat)
    requires
        den > 0,
        p == q * den + rem,
        rem < den,
    ensures
        2 * rem >= den ==> (2 * p + den) / (2 * den) == q + 1,
        2 * rem < den ==> (2 * p + den) / (2 * den) == q,
{
    let d2 = 2 * den;
    assert(2 * p + den == q * d2 + (2 * rem + den)) by (nonlinear_arith)
        requires
            p == q * den + rem,
            d2 == 2 * den,
    ;
    if 2 * rem >= den {
        assert(2 * p + den == (q + 1) * d2 + (2 * rem + den - d2)) by (nonlinear_arith)
            requires
                2 * p + den == q * d2 + (2 * rem + den),
        ;
        vstd::arithmetic::div_mod::lemma_fundamental_div_mod_converse(
            (2 * p + den) as int,
            d2 as int,
            (q + 1) as int,
            (2 * rem + den - d2) as int,
        );
    } else {
        vstd::arithmetic::div_mod::lemma_fundamental_div_mod_converse(
            (2 * p + den) as int,
            d2 as int,
            q as int,
            (2 * rem + den) as int,
        );
    }
}

fn scale_extent(v: u32, s: ScaleFactor) -> (r: u32)
    requires
        s.wf(),
    ensures
        r as nat == physical_extent(v as nat, s),
{
    proof {
        assert((v as nat) * (s.numerator as nat) <= 0xffff_ffffnat * 0xffff_ffffnat) by (
        nonlinear_arith)
            requires
                v <= 0xffff_ffffu32,
                s.numerator <= 0xffff_ffffu32,
        ;
    }
    let p: u64 = v as u64 * s.numerator as u64;
    let den: u64 = s.denominator as u64;
    let q: u64 = p / den;
    let rem: u64 = p % den;
    proof {
        assert(p as nat == (v as nat) * (s.numerator as nat));
        vstd::arithmetic::div_mod::lemma_fundamental_div_mod(p as int, den as int);
        lemma_round_by_remainder(p as nat, den as nat, q as nat, rem as nat);
        vstd::arithmetic::div_mod::lemma_div_is_ordered_by_denominator(p as int, 1, den as int);
        assert(2 * (v as nat) * (s.numerator as nat) == 2 * (p as nat)) by (nonlinear_arith)
            requires
                p as nat == (v as nat) * (s.numerator as nat),
        ;
    }
    let rounded: u64 = if 2 * rem >= den {
        q + 1
    } else {
        q
    };
    if rounded > u32::MAX as u64 {
        u32::MAX
    } else {
        rounded as u32
    }
}

/// Converts a logical size to physical pixels, rounding each axis to the
/// nearest integer rather than flooring.
pub fn logical_to_physical_rounded(size: LogicalSize, scale_factor: ScaleFactor) -> (r:
    PhysicalSize)
    requires
        scale_factor.wf(),
    ensures
        r == physical_size_of(size, scale_factor),
{
    let width = scale_extent(size.width, scale_factor);
    let height = scale_extent(size.height, scale_factor);
    PhysicalSize { width, height }
}

/// A zero logical size stays zero at every scale.
pub proof fn lemma_zero_size_stays_zero(s: ScaleFactor)
    requires
        s.wf(),
    ensures
        physical_size_of(LogicalSize { width: 0, height: 0 }, s) == (PhysicalSize {
            width: 0,
            height: 0,
        }),
{
    let den = s.denominator as nat;
    assert(2 * 0nat * (s.numerator as nat) + den == den) by (nonlinear_arith);
    vstd::arithmetic::div_mod::lemma_fundamental_div_mod_converse(den as int, (2 * den) as int, 0, den as int);
}

/// The rounded extent is within half a unit of the exact product: no other
/// integer is closer to `v * num / den`.
pub proof fn lemma_round_is_nearest(v: nat, num: nat, den: nat)
    requires
        den > 0,
    ensures
        2 * (round_scaled(v, num, den) * den) <= 2 * v * num + den,
        2 * v * num < 2 * (round_scaled(v, num, den) * den) + den,
{
    let r = round_scaled(v, num, den);
    let a = 2 * v * num + den;
    let d2 = 2 * den;
    vstd::arithmetic::div_mod::lemma_fundamental_div_mod(a as int, d2 as int);
    assert(a == d2 * r + a % d2);
    assert(2 * (r * den) == d2 * r) by (nonlinear_arith)
        requires
            d2 == 2 * den,
    ;
}

} // verus!
