//! The designed filter: its second-order sections, the validity check
//! that rejects a numerically broken design wholesale, the filter order,
//! the energy gain used to match levels across a coefficient swap, and
//! the decision whether retained state may be kept.
//!
//! The synthesis itself (order estimation and pole placement) is the
//! caller's affair: this module states what the engine accepts and what
//! the designer must be asked for.

use vstd::prelude::*;
use crate::arith::{
    f64_add_bits, f64_mul_bits, f64_div_bits,
    f64_add, f64_mul, f64_div,
};
use crate::fbits::{
    f64_is_finite, f64_is_zero, f64_mag, f64_sign,
    f64_finite_test, f64_zero_test,
    F64_ZERO, F64_ONE,
};
use crate::kernel::{spec_sqrt_64, sqrt_64};
use crate::convert::{spec_widen_f32_f64, widen_f32_f64};
use crate::band::{BandSpec, spec_frequency_data};
use crate::params::SpecfilterParamData;
use crate::kinds::{FilterKind, FilterType};

verus! {

/// The largest filter order the designer may realize.
pub const MAX_ORDER: usize = 64;

/// The most second-order sections a valid cascade may hold: one section
/// per pole pair at the highest order.
pub const MAX_SECTIONS: usize = 32;

/// One second-order section: three numerator and three denominator
/// coefficients, highest power first, as double-precision bit patterns.
#[derive(Clone, Copy, PartialEq, Eq, Structural, Debug)]
pub struct SosSection {
    pub b0: u64,
    pub b1: u64,
    pub b2: u64,
    pub a0: u64,
    pub a1: u64,
    pub a2: u64,
}

/// A designed filter: an ordered cascade of second-order sections.  The
/// empty cascade is the identity (pass-through) filter.
#[derive(Clone, Debug)]
pub struct DesignedFilter {
    pub sections: Vec<SosSection>,
}

/// The pure mute: one section with an all-zero numerator and a
/// denominator whose only usable coefficient is the trailing one.
pub open spec fn spec_nopass_section() -> SosSection {
    SosSection { b0: F64_ZERO, b1: F64_ZERO, b2: F64_ZERO, a0: F64_ZERO, a1: F64_ZERO, a2: F64_ONE }
}

impl DesignedFilter {
    /// The identity filter: an empty cascade, passed through unchanged.
    pub fn identity() -> (r: DesignedFilter)
        ensures
            r.sections@ =~= Seq::<SosSection>::empty(),
    {
        DesignedFilter { sections: Vec::new() }
    }

    /// The mute filter: one section that turns every input to zero.
    pub fn nopass() -> (r: DesignedFilter)
        ensures
            r.sections@ =~= seq![spec_nopass_section()],
    {
        let mut v: Vec<SosSection> = Vec::new();
        v.push(
            SosSection {
                b0: F64_ZERO,
                b1: F64_ZERO,
                b2: F64_ZERO,
                a0: F64_ZERO,
                a1: F64_ZERO,
                a2: F64_ONE,
            },
        );
        DesignedFilter { sections: v }
    }
}

/// A section is acceptable when every coefficient is finite and the
/// denominator has a usable (non-zero) coefficient to normalize by.
pub open spec fn spec_section_valid(s: SosSection) -> bool {
    &&& f64_is_finite(s.b0)
    &&& f64_is_finite(s.b1)
    &&& f64_is_finite(s.b2)
    &&& f64_is_finite(s.a0)
    &&& f64_is_finite(s.a1)
    &&& f64_is_finite(s.a2)
    &&& !(f64_is_zero(s.a0) && f64_is_zero(s.a1) && f64_is_zero(s.a2))
}

/// A cascade is acceptable when it is within the section cap and every
/// section is acceptable.  The empty cascade (the identity) is.
pub open spec fn spec_cascade_valid(s: Seq<SosSection>) -> bool {
    s.len() <= MAX_SECTIONS && (forall|i: int| 0 <= i < s.len() ==> spec_section_valid(#[trigger] s[i]))
}

fn section_valid(s: &SosSection) -> (r: bool)
    ensures
        r == spec_section_valid(*s),
{
    f64_finite_test(s.b0) && f64_finite_test(s.b1) && f64_finite_test(s.b2) && f64_finite_test(
        s.a0,
    ) && f64_finite_test(s.a1) && f64_finite_test(s.a2) && !(f64_zero_test(s.a0) && f64_zero_test(
        s.a1,
    ) && f64_zero_test(s.a2))
}

/// Accepts or rejects a whole cascade: rejected designs are never
/// partially applied.  A valid cascade never exceeds the order cap.
pub fn cascade_valid(f: &DesignedFilter) -> (r: bool)
    ensures
        r == spec_cascade_valid(f.sections@),
        r ==> f.sections@.len() <= MAX_SECTIONS,
{
    if f.sections.len() > MAX_SECTIONS {
        return false;
    }
    let mut i: usize = 0;
    while i < f.sections.len()
        invariant
            0 <= i <= f.sections@.len(),
            f.sections@.len() <= MAX_SECTIONS,
            forall|j: int| 0 <= j < i ==> spec_section_valid(#[trigger] f.sections@[j]),
        decreases f.sections@.len() - i,
    {
        if !section_valid(&f.sections[i]) {
            return false;
        }
        i = i + 1;
    }
    true
}

/// The number of leading zero coefficients of a triple.
pub open spec fn spec_trim3(c0: u64, c1: u64, c2: u64) -> nat {
    if !f64_is_zero(c0) {
        0nat
    } else if !f64_is_zero(c1) {
        1nat
    } else if !f64_is_zero(c2) {
        2nat
    } else {
        3nat
    }
}

/// The trimmed length of a coefficient triple.
pub open spec fn spec_trim_len(c0: u64, c1: u64, c2: u64) -> nat {
    (3 - spec_trim3(c0, c1, c2)) as nat
}

/// The polynomial-degree fold of trimmed lengths over a cascade:
/// lengths combine as `a + b - 1` unless one is zero, which absorbs.
pub open spec fn spec_ord_fold(s: Seq<SosSection>, numerator: bool) -> nat
    decreases s.len(),
{
    if s.len() == 0 {
        1nat
    } else if s.len() == 1 {
        spec_seclen(s[0], numerator)
    } else {
        spec_ord_combine(spec_ord_fold(s.drop_last(), numerator), spec_seclen(s.last(), numerator))
    }
}

/// The trimmed length of one side of a section.
pub open spec fn spec_seclen(s: SosSection, numerator: bool) -> nat {
    if numerator {
        spec_trim_len(s.b0, s.b1, s.b2)
    } else {
        spec_trim_len(s.a0, s.a1, s.a2)
    }
}

pub open spec fn spec_ord_combine(a: nat, b: nat) -> nat {
    if a != 0 && b != 0 {
        (a + b - 1) as nat
    } else {
        0nat
    }
}

/// The order of a cascade: the larger of the two folded polynomial
/// lengths, less one.  The empty cascade has order zero.
pub open spec fn spec_filtord(s: Seq<SosSection>) -> nat {
    let nb = spec_ord_fold(s, true);
    let na = spec_ord_fold(s, false);
    let m = if nb >= na {
        nb
    } else {
        na
    };
    if m == 0 {
        0nat
    } else {
        (m - 1) as nat
    }
}

fn seclen(s: &SosSection, numerator: bool) -> (r: usize)
    ensures
        r == spec_seclen(*s, numerator),
        r <= 3,
{
    let (c0, c1, c2) = if numerator {
        (s.b0, s.b1, s.b2)
    } else {
        (s.a0, s.a1, s.a2)
    };
    if !f64_zero_test(c0) {
        3
    } else if !f64_zero_test(c1) {
        2
    } else if !f64_zero_test(c2) {
        1
    } else {
        0
    }
}

fn ord_fold(f: &DesignedFilter, numerator: bool) -> (r: usize)
    requires
        f.sections@.len() <= MAX_SECTIONS,
    ensures
        r == spec_ord_fold(f.sections@, numerator),
        r <= 3 + 2 * f.sections@.len(),
{
    if f.sections.len() == 0 {
        return 1;
    }
    let mut acc: usize = seclen(&f.sections[0], numerator);
    let mut i: usize = 1;
    while i < f.sections.len()
        invariant
            1 <= i <= f.sections@.len(),
            f.sections@.len() <= MAX_SECTIONS,
            acc == spec_ord_fold(f.sections@.subrange(0, i as int), numerator),
            acc <= 3 + 2 * i,
        decreases f.sections@.len() - i,
    {
        proof {
            assert(f.sections@.subrange(0, i + 1).drop_last() =~= f.sections@.subrange(
                0,
                i as int,
            ));
        }
        let l: usize = seclen(&f.sections[i], numerator);
        acc = if acc != 0 && l != 0 {
            acc + l - 1
        } else {
            0
        };
        i = i + 1;
    }
    proof {
        assert(f.sections@.subrange(0, f.sections@.len() as int) =~= f.sections@);
    }
    acc
}

/// The order of a designed filter (`filtord`): how many poles the
/// cascade realizes.
pub fn filtord(f: &DesignedFilter) -> (r: usize)
    requires
        f.sections@.len() <= MAX_SECTIONS,
    ensures
        r == spec_filtord(f.sections@),
        r <= 2 * MAX_SECTIONS + 2,
{
    let nb: usize = ord_fold(f, true);
    let na: usize = ord_fold(f, false);
    let m: usize = if nb >= na {
        nb
    } else {
        na
    };
    if m == 0 {
        0
    } else {
        m - 1
    }
}

/// The sum of squares of a coefficient triple after dropping leading
/// zeros, accumulated left to right from zero.
pub open spec fn spec_energy_sum(c0: u64, c1: u64, c2: u64) -> u64 {
    if !f64_is_zero(c0) {
        f64_add_bits(
            f64_add_bits(f64_add_bits(F64_ZERO, f64_mul_bits(c0, c0)), f64_mul_bits(c1, c1)),
            f64_mul_bits(c2, c2),
        )
    } else if !f64_is_zero(c1) {
        f64_add_bits(f64_add_bits(F64_ZERO, f64_mul_bits(c1, c1)), f64_mul_bits(c2, c2))
    } else if !f64_is_zero(c2) {
        f64_add_bits(F64_ZERO, f64_mul_bits(c2, c2))
    } else {
        F64_ZERO
    }
}

fn energy_sum(c0: u64, c1: u64, c2: u64) -> (r: u64)
    ensures
        r == spec_energy_sum(c0, c1, c2),
{
    if !f64_zero_test(c0) {
        f64_add(
            f64_add(f64_add(F64_ZERO, f64_mul(c0, c0)), f64_mul(c1, c1)),
            f64_mul(c2, c2),
        )
    } else if !f64_zero_test(c1) {
        f64_add(f64_add(F64_ZERO, f64_mul(c1, c1)), f64_mul(c2, c2))
    } else if !f64_zero_test(c2) {
        f64_add(F64_ZERO, f64_mul(c2, c2))
    } else {
        F64_ZERO
    }
}

/// One section's energy: numerator sum of squares over denominator sum
/// of squares.
pub open spec fn spec_section_energy(s: SosSection) -> u64 {
    f64_div_bits(spec_energy_sum(s.b0, s.b1, s.b2), spec_energy_sum(s.a0, s.a1, s.a2))
}

/// A cascade's energy: the product of its sections' energies,
/// accumulated left to right from one.
pub open spec fn spec_cascade_energy(s: Seq<SosSection>) -> u64
    decreases s.len(),
{
    if s.len() == 0 {
        F64_ONE
    } else {
        f64_mul_bits(spec_cascade_energy(s.drop_last()), spec_section_energy(s.last()))
    }
}

/// The energy of a cascade, as the gain matcher uses it.
pub fn cascade_energy(f: &DesignedFilter) -> (r: u64)
    ensures
        r == spec_cascade_energy(f.sections@),
{
    let mut acc: u64 = F64_ONE;
    let mut i: usize = 0;
    while i < f.sections.len()
        invariant
            0 <= i <= f.sections@.len(),
            acc == spec_cascade_energy(f.sections@.subrange(0, i as int)),
        decreases f.sections@.len() - i,
    {
        proof {
            assert(f.sections@.subrange(0, i + 1).drop_last() =~= f.sections@.subrange(
                0,
                i as int,
            ));
            assert(f.sections@.subrange(0, i + 1).last() == f.sections@[i as int]);
        }
        let e: u64 = f64_div(
            energy_sum(f.sections[i].b0, f.sections[i].b1, f.sections[i].b2),
            energy_sum(f.sections[i].a0, f.sections[i].a1, f.sections[i].a2),
        );
        acc = f64_mul(acc, e);
        i = i + 1;
    }
    proof {
        assert(f.sections@.subrange(0, f.sections@.len() as int) =~= f.sections@);
    }
    acc
}

/// The gain-matching factor between a new cascade and the previous one:
/// the square root of the ratio of their energies.
pub open spec fn spec_match_gain(new: Seq<SosSection>, prev: Seq<SosSection>) -> u64 {
    spec_sqrt_64(f64_div_bits(spec_cascade_energy(new), spec_cascade_energy(prev)))
}

pub fn match_gain(new: &DesignedFilter, prev: &DesignedFilter) -> (r: u64)
    ensures
        r == spec_match_gain(new.sections@, prev.sections@),
{
    sqrt_64(f64_div(cascade_energy(new), cascade_energy(prev)))
}

/// Whether retained per-channel state may be scaled and kept across a
/// coefficient swap.  It may only when the gain factor is finite, the
/// order is unchanged, the new type passes something, and the swap is
/// not the band-stop to band-pass flip; otherwise the state is discarded.
pub open spec fn spec_keep_state(
    gain: u64,
    new_ord: nat,
    old_ord: nat,
    new_type: FilterType,
    old_type: FilterType,
) -> bool {
    &&& f64_is_finite(gain)
    &&& new_ord == old_ord
    &&& new_type != FilterType::NoPass
    &&& !(new_type == FilterType::BandPass && old_type == FilterType::BandStop)
}

pub fn keep_state(
    gain: u64,
    new_ord: usize,
    old_ord: usize,
    new_type: FilterType,
    old_type: FilterType,
) -> (r: bool)
    ensures
        r == spec_keep_state(gain, new_ord as nat, old_ord as nat, new_type, old_type),
{
    f64_finite_test(gain) && new_ord == old_ord && !(new_type == FilterType::NoPass) && !(
    new_type == FilterType::BandPass && old_type == FilterType::BandStop)
}

/// The polynomial fold over a cascade grows by at most two per section.
proof fn lemma_ord_fold_bound(s: Seq<SosSection>, numerator: bool)
    ensures
        s.len() == 0 ==> spec_ord_fold(s, numerator) == 1,
        s.len() >= 1 ==> spec_ord_fold(s, numerator) <= 1 + 2 * s.len(),
    decreases s.len(),
{
    if s.len() > 1 {
        lemma_ord_fold_bound(s.drop_last(), numerator);
    }
}

/// The order cap: an acceptable cascade never realizes an order above
/// the designer's cap of 64 poles.
pub proof fn lemma_order_cap(s: Seq<SosSection>)
    requires
        spec_cascade_valid(s),
    ensures
        spec_filtord(s) <= MAX_ORDER,
{
    lemma_ord_fold_bound(s, true);
    lemma_ord_fold_bound(s, false);
}

/// The total order a double-precision sort uses: sign-magnitude with the
/// negative range (zero included) shifted below the positive range.
pub open spec fn f64_total_key(b: u64) -> int {
    if f64_sign(b) {
        -(f64_mag(b) as int) - 1
    } else {
        f64_mag(b) as int
    }
}

/// Sorts a pair by the total order.
pub fn sort2(a: u64, b: u64) -> (r: (u64, u64))
    ensures
        f64_total_key(r.0) <= f64_total_key(r.1),
        (r.0 == a && r.1 == b) || (r.0 == b && r.1 == a),
{
    let sa: bool = (a & 0x8000_0000_0000_0000) != 0;
    let sb: bool = (b & 0x8000_0000_0000_0000) != 0;
    let ma: u64 = a & 0x7FFF_FFFF_FFFF_FFFF;
    let mb: u64 = b & 0x7FFF_FFFF_FFFF_FFFF;
    let a_le_b: bool = if sa {
        if sb {
            ma >= mb
        } else {
            true
        }
    } else {
        if sb {
            false
        } else {
            ma <= mb
        }
    };
    if a_le_b {
        (a, b)
    } else {
        (b, a)
    }
}

/// The frequency pairs handed to the order estimator: two passband and
/// two stopband edges for a band design, one of each for a single-corner
/// design, or no design at all (pass-through or mute) when both ends are
/// saturated.
#[derive(Clone, Copy, Debug)]
pub enum DesignBands {
    /// Band-pass or band-stop: two edges on each side, sorted ascending.
    Band { pass: (u64, u64), stop: (u64, u64) },
    /// Low-pass or high-pass: one edge on each side.
    Corner { pass: u64, stop: u64 },
    /// No design needed; `true` means pass everything, `false` mute.
    Degenerate { pass: bool },
}

/// The design bands a band specification selects, edges widened to
/// double precision, band pairs not yet sorted.
pub open spec fn spec_design_bands(b: BandSpec) -> DesignBands {
    if b.nolb && b.noub {
        DesignBands::Degenerate { pass: !b.stop }
    } else if b.nolb {
        if b.stop {
            DesignBands::Corner {
                pass: spec_widen_f32_f64(b.edge3),
                stop: spec_widen_f32_f64(b.edge2),
            }
        } else {
            DesignBands::Corner {
                pass: spec_widen_f32_f64(b.edge2),
                stop: spec_widen_f32_f64(b.edge3),
            }
        }
    } else if b.noub {
        if b.stop {
            DesignBands::Corner {
                pass: spec_widen_f32_f64(b.edge0),
                stop: spec_widen_f32_f64(b.edge1),
            }
        } else {
            DesignBands::Corner {
                pass: spec_widen_f32_f64(b.edge1),
                stop: spec_widen_f32_f64(b.edge0),
            }
        }
    } else {
        if b.stop {
            DesignBands::Band {
                pass: (spec_widen_f32_f64(b.edge0), spec_widen_f32_f64(b.edge3)),
                stop: (spec_widen_f32_f64(b.edge1), spec_widen_f32_f64(b.edge2)),
            }
        } else {
            DesignBands::Band {
                pass: (spec_widen_f32_f64(b.edge1), spec_widen_f32_f64(b.edge2)),
                stop: (spec_widen_f32_f64(b.edge0), spec_widen_f32_f64(b.edge3)),
            }
        }
    }
}

/// Selects the designer's frequency pairs from a band specification.
pub fn design_bands(b: &BandSpec) -> (r: DesignBands)
    ensures
        r == spec_design_bands(*b),
{
    if b.nolb && b.noub {
        DesignBands::Degenerate { pass: !b.stop }
    } else if b.nolb {
        if b.stop {
            DesignBands::Corner { pass: widen_f32_f64(b.edge3), stop: widen_f32_f64(b.edge2) }
        } else {
            DesignBands::Corner { pass: widen_f32_f64(b.edge2), stop: widen_f32_f64(b.edge3) }
        }
    } else if b.noub {
        if b.stop {
            DesignBands::Corner { pass: widen_f32_f64(b.edge0), stop: widen_f32_f64(b.edge1) }
        } else {
            DesignBands::Corner { pass: widen_f32_f64(b.edge1), stop: widen_f32_f64(b.edge0) }
        }
    } else {
        if b.stop {
            DesignBands::Band {
                pass: (widen_f32_f64(b.edge0), widen_f32_f64(b.edge3)),
                stop: (widen_f32_f64(b.edge1), widen_f32_f64(b.edge2)),
            }
        } else {
            DesignBands::Band {
                pass: (widen_f32_f64(b.edge1), widen_f32_f64(b.edge2)),
                stop: (widen_f32_f64(b.edge0), widen_f32_f64(b.edge3)),
            }
        }
    }
}

impl SpecfilterParamData {
    /// The designer's frequency pairs for this snapshot, band pairs
    /// sorted ascending in the total order as the estimator expects.
    pub fn frequencies(&self, rate: u32) -> (r: DesignBands)
        ensures
            ({
                let raw = spec_design_bands(spec_frequency_data(*self, rate));
                match raw {
                    DesignBands::Band { pass, stop } => r matches DesignBands::Band {
                        pass: rp,
                        stop: rs,
                    } && ((rp == pass || rp == (pass.1, pass.0)) && f64_total_key(rp.0)
                        <= f64_total_key(rp.1)) && ((rs == stop || rs == (stop.1, stop.0))
                        && f64_total_key(rs.0) <= f64_total_key(rs.1)),
                    _ => r == raw,
                }
            }),
    {
        let b = self.frequency_data(rate);
        let raw = design_bands(&b);
        match raw {
            DesignBands::Band { pass, stop } => {
                let p = sort2(pass.0, pass.1);
                let s = sort2(stop.0, stop.1);
                DesignBands::Band { pass: p, stop: s }
            },
            _ => raw,
        }
    }
}

/// A full design request: everything the order estimator and synthesizer
/// need, with the ripple and attenuation already in double precision.
#[derive(Clone, Copy, Debug)]
pub struct DesignRequest {
    pub kind: FilterKind,
    pub bands: DesignBands,
    pub ripple: u64,
    pub attenuation: u64,
    pub rate: u64,
}

/// Clamps an estimated order to the order cap.
pub fn clamp_order(n: usize) -> (r: usize)
    ensures
        r == if n < MAX_ORDER {
            n as int
        } else {
            MAX_ORDER as int
        },
        r <= MAX_ORDER,
{
    if n < MAX_ORDER {
        n
    } else {
        MAX_ORDER
    }
}

} // verus!
