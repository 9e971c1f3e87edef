//! The realtime filter engine: a per-channel cascade of second-order
//! sections run sample by sample over a delay line, with inline
//! detection of non-finite output.
//!
//! The delay line holds two slots per section; its length is re-fitted
//! to the cascade before every block.  Each section is applied to the
//! whole block in turn (the cascade is linear, so section order over the
//! block equals sample order over the cascade).  After the block the
//! output is scanned: if any sample is NaN the channel's state is
//! discarded and the block is zeroed, so a NaN never leaves the engine.

use vstd::prelude::*;
use crate::arith::{
    f64_add_bits, f64_sub_bits, f64_mul_bits, f64_div_bits,
    f64_add, f64_sub, f64_mul, f64_div,
};
use crate::fbits::{f64_is_nan, f64_nan_test, f64_zero_test, F64_ZERO};
use crate::design::{SosSection, DesignedFilter, spec_trim3, MAX_SECTIONS};

verus! {

/// The result of running one section on one sample: the output and the
/// two new state slots.  The denominator is normalized by its first
/// non-zero coefficient; the numerator is read the same way.
pub open spec fn spec_section_sample(sec: SosSection, w0: u64, w1: u64, x: u64) -> (u64, u64, u64) {
    let ta = spec_trim3(sec.a0, sec.a1, sec.a2);
    let acc = if ta == 0 {
        f64_sub_bits(
            f64_sub_bits(x, f64_mul_bits(w0, f64_div_bits(sec.a1, sec.a0))),
            f64_mul_bits(w1, f64_div_bits(sec.a2, sec.a0)),
        )
    } else if ta == 1 {
        f64_sub_bits(x, f64_mul_bits(w0, f64_div_bits(sec.a2, sec.a1)))
    } else {
        x
    };
    let tb = spec_trim3(sec.b0, sec.b1, sec.b2);
    let y = if tb == 0 {
        f64_add_bits(
            f64_add_bits(f64_mul_bits(acc, sec.b0), f64_mul_bits(w0, sec.b1)),
            f64_mul_bits(w1, sec.b2),
        )
    } else if tb == 1 {
        f64_add_bits(f64_mul_bits(acc, sec.b1), f64_mul_bits(w0, sec.b2))
    } else if tb == 2 {
        f64_mul_bits(acc, sec.b2)
    } else {
        f64_mul_bits(acc, F64_ZERO)
    };
    (y, acc, w0)
}

fn section_sample(sec: &SosSection, w0: u64, w1: u64, x: u64) -> (r: (u64, u64, u64))
    ensures
        r == spec_section_sample(*sec, w0, w1, x),
{
    let acc: u64 = if !f64_zero_test(sec.a0) {
        f64_sub(
            f64_sub(x, f64_mul(w0, f64_div(sec.a1, sec.a0))),
            f64_mul(w1, f64_div(sec.a2, sec.a0)),
        )
    } else if !f64_zero_test(sec.a1) {
        f64_sub(x, f64_mul(w0, f64_div(sec.a2, sec.a1)))
    } else {
        x
    };
    let y: u64 = if !f64_zero_test(sec.b0) {
        f64_add(
            f64_add(f64_mul(acc, sec.b0), f64_mul(w0, sec.b1)),
            f64_mul(w1, sec.b2),
        )
    } else if !f64_zero_test(sec.b1) {
        f64_add(f64_mul(acc, sec.b1), f64_mul(w0, sec.b2))
    } else if !f64_zero_test(sec.b2) {
        f64_mul(acc, sec.b2)
    } else {
        f64_mul(acc, F64_ZERO)
    };
    (y, acc, w0)
}

/// The section's state after the first `i` samples of a block.
pub open spec fn spec_state_after(sec: SosSection, w0: u64, w1: u64, xs: Seq<u64>, i: nat) -> (
    u64,
    u64,
)
    decreases i,
{
    if i == 0 {
        (w0, w1)
    } else {
        let prev = spec_state_after(sec, w0, w1, xs, (i - 1) as nat);
        let step = spec_section_sample(sec, prev.0, prev.1, xs[i - 1]);
        (step.1, step.2)
    }
}

/// The section's output for sample `i` of a block.
pub open spec fn spec_out_at(sec: SosSection, w0: u64, w1: u64, xs: Seq<u64>, i: nat) -> u64 {
    let st = spec_state_after(sec, w0, w1, xs, i);
    spec_section_sample(sec, st.0, st.1, xs[i as int]).0
}

/// Runs one section over a whole block in place, returning the final
/// two state slots.
#[verifier::loop_isolation(false)]
fn section_block(sec: &SosSection, w0: u64, w1: u64, buf: &mut Vec<u64>) -> (w: (u64, u64))
    ensures
        final(buf)@.len() == old(buf)@.len(),
        forall|i: int|
            0 <= i < old(buf)@.len() ==> final(buf)@[i] == spec_out_at(
                *sec,
                w0,
                w1,
                old(buf)@,
                i as nat,
            ),
        w == spec_state_after(*sec, w0, w1, old(buf)@, old(buf)@.len() as nat),
{
    let mut cw0: u64 = w0;
    let mut cw1: u64 = w1;
    let mut i: usize = 0;
    while i < buf.len()
        invariant
            0 <= i <= buf@.len(),
            buf@.len() == old(buf)@.len(),
            (cw0, cw1) == spec_state_after(*sec, w0, w1, old(buf)@, i as nat),
            forall|j: int|
                0 <= j < i ==> buf@[j] == spec_out_at(*sec, w0, w1, old(buf)@, j as nat),
            forall|j: int| i <= j < buf@.len() ==> buf@[j] == old(buf)@[j],
        decreases buf@.len() - i,
    {
        let x: u64 = buf[i];
        let r: (u64, u64, u64) = section_sample(sec, cw0, cw1, x);
        buf.set(i, r.0);
        cw0 = r.1;
        cw1 = r.2;
        i = i + 1;
    }
    (cw0, cw1)
}

/// A delay line re-fitted to a length: truncated, or padded with zeros.
pub open spec fn spec_resized(s: Seq<u64>, n: nat) -> Seq<u64> {
    if s.len() >= n {
        s.subrange(0, n as int)
    } else {
        s + Seq::new((n - s.len()) as nat, |i: int| F64_ZERO)
    }
}

/// Re-fits the delay line to `n` slots, keeping what it held.
#[verifier::loop_isolation(false)]
pub fn resize_state(state: &mut Vec<u64>, n: usize)
    ensures
        final(state)@ =~= spec_resized(old(state)@, n as nat),
{
    while state.len() > n
        invariant
            spec_resized(state@, n as nat) =~= spec_resized(old(state)@, n as nat),
        decreases state@.len(),
    {
        proof {
            assert(state@.drop_last().subrange(0, n as int) =~= state@.subrange(0, n as int));
        }
        let _ = state.pop();
    }
    while state.len() < n
        invariant
            spec_resized(state@, n as nat) =~= spec_resized(old(state)@, n as nat),
            state@.len() <= n,
        decreases n - state@.len(),
    {
        proof {
            assert(spec_resized(state@.push(F64_ZERO), n as nat) =~= spec_resized(
                state@,
                n as nat,
            ));
        }
        state.push(F64_ZERO);
    }
    proof {
        assert(state@.subrange(0, n as int) =~= state@);
    }
}

/// The whole cascade run over a block: the first section filters the
/// block with its two state slots, the rest of the cascade filters the
/// result.  Yields the output block and the new delay line.
pub open spec fn spec_cascade_block(secs: Seq<SosSection>, state: Seq<u64>, xs: Seq<u64>) -> (
    Seq<u64>,
    Seq<u64>,
)
    decreases secs.len(),
{
    if secs.len() == 0 {
        (xs, state)
    } else {
        let sec = secs[0];
        let ys = Seq::new(xs.len(), |i: int| spec_out_at(sec, state[0], state[1], xs, i as nat));
        let w = spec_state_after(sec, state[0], state[1], xs, xs.len() as nat);
        let rest = spec_cascade_block(secs.drop_first(), state.skip(2), ys);
        (rest.0, seq![w.0, w.1] + rest.1)
    }
}

/// Runs the designed filter over one block in place, re-fitting the
/// delay line to the cascade first.
#[verifier::loop_isolation(false)]
pub fn filter_block(f: &DesignedFilter, state: &mut Vec<u64>, buf: &mut Vec<u64>)
    requires
        f.sections@.len() <= MAX_SECTIONS,
    ensures
        ({
            let r = spec_cascade_block(
                f.sections@,
                spec_resized(old(state)@, 2 * f.sections@.len()),
                old(buf)@,
            );
            final(buf)@ == r.0 && final(state)@ == r.1
        }),
        final(state)@.len() == 2 * f.sections@.len(),
        final(buf)@.len() == old(buf)@.len(),
{
    let n: usize = f.sections.len();
    resize_state(state, 2 * n);
    let ghost rs = state@;
    let ghost xs0 = buf@;
    let ghost full = spec_cascade_block(f.sections@, rs, xs0);
    proof {
        lemma_cascade_block_len(f.sections@, rs, xs0);
        assert(f.sections@.skip(0) =~= f.sections@);
        assert(state@.skip(0) =~= state@);
        assert(state@.subrange(0, 0) =~= Seq::<u64>::empty());
        assert(Seq::<u64>::empty() + full.1 =~= full.1);
    }
    let mut k: usize = 0;
    while k < n
        invariant
            0 <= k <= n,
            state@.len() == 2 * n,
            buf@.len() == xs0.len(),
            spec_cascade_block(f.sections@.skip(k as int), state@.skip(2 * k), buf@).0 == full.0,
            state@.subrange(0, 2 * k) + spec_cascade_block(
                f.sections@.skip(k as int),
                state@.skip(2 * k),
                buf@,
            ).1 =~= full.1,
        decreases n - k,
    {
        let ghost pre_state = state@;
        let ghost pre_buf = buf@;
        let sec: SosSection = f.sections[k];
        let w0: u64 = state[2 * k];
        let w1: u64 = state[2 * k + 1];
        let w: (u64, u64) = section_block(&sec, w0, w1, buf);
        state.set(2 * k, w.0);
        state.set(2 * k + 1, w.1);
        proof {
            let tail = f.sections@.skip(k as int);
            assert(tail[0] == f.sections@[k as int]);
            assert(tail.drop_first() =~= f.sections@.skip(k as int + 1));
            assert(pre_state.skip(2 * k).skip(2) =~= state@.skip(2 * (k + 1)));
            assert(buf@ =~= Seq::new(
                pre_buf.len(),
                |i: int| spec_out_at(sec, w0, w1, pre_buf, i as nat),
            ));
            assert(pre_state.skip(2 * k)[0] == w0);
            assert(pre_state.skip(2 * k)[1] == w1);
            assert(state@.subrange(0, 2 * (k + 1)) =~= pre_state.subrange(0, 2 * k) + seq![
                w.0,
                w.1,
            ]);
        }
        k = k + 1;
    }
    proof {
        assert(f.sections@.skip(n as int) =~= Seq::<SosSection>::empty());
        assert(state@.skip(2 * n) =~= Seq::<u64>::empty());
        assert(state@.subrange(0, 2 * n) =~= state@);
        assert(state@ + Seq::<u64>::empty() =~= state@);
    }
}

/// The output block and the delay line of a cascade run keep their
/// lengths: the output matches the input block, the delay line holds two
/// slots per section.
pub proof fn lemma_cascade_block_len(secs: Seq<SosSection>, state: Seq<u64>, xs: Seq<u64>)
    requires
        state.len() == 2 * secs.len(),
    ensures
        spec_cascade_block(secs, state, xs).0.len() == xs.len(),
        spec_cascade_block(secs, state, xs).1.len() == state.len(),
    decreases secs.len(),
{
    if secs.len() > 0 {
        let sec = secs[0];
        let ys = Seq::new(xs.len(), |i: int| spec_out_at(sec, state[0], state[1], xs, i as nat));
        lemma_cascade_block_len(secs.drop_first(), state.skip(2), ys);
    }
}

/// Whether any sample of a block is NaN.
pub fn any_nan(buf: &Vec<u64>) -> (r: bool)
    ensures
        r == exists|i: int| 0 <= i < buf@.len() && f64_is_nan(#[trigger] buf@[i]),
{
    let mut i: usize = 0;
    while i < buf.len()
        invariant
            0 <= i <= buf@.len(),
            forall|j: int| 0 <= j < i ==> !f64_is_nan(#[trigger] buf@[j]),
        decreases buf@.len() - i,
    {
        if f64_nan_test(buf[i]) {
            return true;
        }
        i = i + 1;
    }
    false
}

/// Zeroes a block in place.
pub fn zero_block(buf: &mut Vec<u64>)
    ensures
        final(buf)@.len() == old(buf)@.len(),
        forall|i: int| 0 <= i < final(buf)@.len() ==> final(buf)@[i] == F64_ZERO,
{
    let n: usize = buf.len();
    let mut i: usize = 0;
    while i < n
        invariant
            0 <= i <= n,
            buf@.len() == n,
            forall|j: int| 0 <= j < i ==> buf@[j] == F64_ZERO,
        decreases n - i,
    {
        buf.set(i, F64_ZERO);
        i = i + 1;
    }
}

/// Scales every delay-line slot by a gain factor — the level-matching
/// step applied to retained state.
pub fn scale_state(state: &mut Vec<u64>, gain: u64)
    ensures
        final(state)@.len() == old(state)@.len(),
        forall|i: int|
            0 <= i < old(state)@.len() ==> final(state)@[i] == f64_mul_bits(
                #[trigger] old(state)@[i],
                gain,
            ),
{
    let n: usize = state.len();
    let mut i: usize = 0;
    while i < n
        invariant
            0 <= i <= n,
            state@.len() == n,
            n == old(state)@.len(),
            forall|j: int|
                0 <= j < i ==> state@[j] == f64_mul_bits(#[trigger] old(state)@[j], gain),
            forall|j: int| i <= j < n ==> state@[j] == old(state)@[j],
        decreases n - i,
    {
        let v: u64 = f64_mul(state[i], gain);
        state.set(i, v);
        i = i + 1;
    }
}

/// Runs the filter over one channel's block and applies the engine's
/// fault rule: if any output sample is NaN, the channel's delay line is
/// discarded and the block is zeroed.  Returns whether that happened.
/// Either way, no NaN sample ever leaves the engine.
pub fn run_channel(f: &DesignedFilter, state: &mut Vec<u64>, buf: &mut Vec<u64>) -> (faulted: bool)
    requires
        f.sections@.len() <= MAX_SECTIONS,
    ensures
        forall|i: int| 0 <= i < final(buf)@.len() ==> !f64_is_nan(#[trigger] final(buf)@[i]),
        final(buf)@.len() == old(buf)@.len(),
        ({
            let r = spec_cascade_block(
                f.sections@,
                spec_resized(old(state)@, 2 * f.sections@.len()),
                old(buf)@,
            );
            if faulted {
                (exists|i: int| 0 <= i < r.0.len() && f64_is_nan(#[trigger] r.0[i]))
                    && final(state)@.len() == 0 && (forall|i: int|
                    0 <= i < final(buf)@.len() ==> final(buf)@[i] == F64_ZERO)
            } else {
                final(buf)@ == r.0 && final(state)@ == r.1
            }
        }),
{
    proof {
        lemma_cascade_block_len(
            f.sections@,
            spec_resized(old(state)@, 2 * f.sections@.len()),
            old(buf)@,
        );
    }
    filter_block(f, state, buf);
    if any_nan(buf) {
        state.clear();
        zero_block(buf);
        proof {
            assert(0u64 & 0x7FFF_FFFF_FFFF_FFFFu64 == 0u64) by (bit_vector);
        }
        true
    } else {
        false
    }
}

} // verus!
