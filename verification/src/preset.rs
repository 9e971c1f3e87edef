//! The persisted preset/bank layout: the eight controls' normalized
//! knob values, each as four little-endian bytes, concatenated in the
//! fixed enumeration order; loading reverses the same order.

use vstd::prelude::*;
use crate::params::{SpecfilterParameters, spec_get_parameter, spec_set_parameter};

verus! {

/// The four little-endian bytes of a 32-bit word.
pub open spec fn spec_le32(x: u32) -> Seq<u8> {
    seq![
        (x & 0xFF) as u8,
        ((x >> 8u32) & 0xFF) as u8,
        ((x >> 16u32) & 0xFF) as u8,
        ((x >> 24u32) & 0xFF) as u8,
    ]
}

/// The 32-bit word four little-endian bytes spell.
pub open spec fn spec_from_le(b0: u8, b1: u8, b2: u8, b3: u8) -> u32 {
    (b0 as u32) | ((b1 as u32) << 8u32) | ((b2 as u32) << 16u32) | ((b3 as u32) << 24u32)
}

/// The little-endian byte split round-trips.
pub proof fn lemma_le32_roundtrip(x: u32)
    ensures
        spec_from_le(spec_le32(x)[0], spec_le32(x)[1], spec_le32(x)[2], spec_le32(x)[3]) == x,
{
    assert(((x & 0xFF) as u8 as u32) | ((((x >> 8u32) & 0xFF) as u8 as u32) << 8u32) | ((((x
        >> 16u32) & 0xFF) as u8 as u32) << 16u32) | ((((x >> 24u32) & 0xFF) as u8 as u32)
        << 24u32) == x) by (bit_vector);
}

/// The preset byte image of a store: the eight normalized knob values in
/// enumeration order, four little-endian bytes each.
pub open spec fn spec_preset_data(s: SpecfilterParameters) -> Seq<u8> {
    spec_le32(spec_get_parameter(s, 0)) + spec_le32(spec_get_parameter(s, 1)) + spec_le32(
        spec_get_parameter(s, 2),
    ) + spec_le32(spec_get_parameter(s, 3)) + spec_le32(spec_get_parameter(s, 4)) + spec_le32(
        spec_get_parameter(s, 5),
    ) + spec_le32(spec_get_parameter(s, 6)) + spec_le32(spec_get_parameter(s, 7))
}

/// The store after loading a byte image from control `k` on: each
/// four-byte word writes one control, stopping at the first incomplete
/// word or after the eighth control.
pub open spec fn spec_load_from(s: SpecfilterParameters, d: Seq<u8>, k: int) -> SpecfilterParameters
    decreases 8 - k,
{
    if k < 0 || k >= 8 || 4 * k + 4 > d.len() {
        s
    } else {
        spec_load_from(
            spec_set_parameter(
                s,
                k,
                spec_from_le(d[4 * k], d[4 * k + 1], d[4 * k + 2], d[4 * k + 3]),
            ),
            d,
            k + 1,
        )
    }
}

fn push_le32(out: &mut Vec<u8>, x: u32)
    ensures
        final(out)@ =~= old(out)@ + spec_le32(x),
{
    out.push((x & 0xFF) as u8);
    out.push(((x >> 8u32) & 0xFF) as u8);
    out.push(((x >> 16u32) & 0xFF) as u8);
    out.push(((x >> 24u32) & 0xFF) as u8);
}

impl SpecfilterParameters {
    /// Serializes the preset: the eight normalized knob values in their
    /// fixed order, four little-endian bytes each.
    pub fn get_preset_data(&self) -> (r: Vec<u8>)
        ensures
            r@ =~= spec_preset_data(*self),
    {
        let mut out: Vec<u8> = Vec::new();
        push_le32(&mut out, self.get_parameter(0));
        push_le32(&mut out, self.get_parameter(1));
        push_le32(&mut out, self.get_parameter(2));
        push_le32(&mut out, self.get_parameter(3));
        push_le32(&mut out, self.get_parameter(4));
        push_le32(&mut out, self.get_parameter(5));
        push_le32(&mut out, self.get_parameter(6));
        push_le32(&mut out, self.get_parameter(7));
        out
    }

    /// The bank image: the same layout as the preset image.
    pub fn get_bank_data(&self) -> (r: Vec<u8>)
        ensures
            r@ =~= spec_preset_data(*self),
    {
        self.get_preset_data()
    }

    /// Loads a preset image: each complete four-byte word writes one
    /// control through its normalized mapping, in the fixed order.
    #[verifier::loop_isolation(false)]
    pub fn load_preset_data(&mut self, data: &Vec<u8>)
        ensures
            *final(self) == spec_load_from(*old(self), data@, 0),
    {
        let mut k: usize = 0;
        while k < 8 && 4 * k + 4 <= data.len()
            invariant
                0 <= k <= 8,
                spec_load_from(*old(self), data@, 0) == spec_load_from(*self, data@, k as int),
            decreases 8 - k,
        {
            let base: usize = 4 * k;
            let w: u32 = (data[base] as u32) | ((data[base + 1] as u32) << 8u32) | ((data[base
                + 2] as u32) << 16u32) | ((data[base + 3] as u32) << 24u32);
            self.set_parameter(k as i32, w);
            k = k + 1;
        }
    }

    /// Loads a bank image: the same layout as the preset image.
    pub fn load_bank_data(&mut self, data: &Vec<u8>)
        ensures
            *final(self) == spec_load_from(*old(self), data@, 0),
    {
        self.load_preset_data(data);
    }
}

/// Writing a store's preset image back into a store writes each control
/// from exactly the knob value that was read: the image always holds
/// eight complete words, so the load consumes all of them.
pub proof fn lemma_preset_image_len(s: SpecfilterParameters)
    ensures
        spec_preset_data(s).len() == 32,
{
}

/// A store after writing back knob values for the controls from `k` on,
/// in the fixed enumeration order.
pub open spec fn spec_write_knobs(s: SpecfilterParameters, v: Seq<u32>, k: int)
    -> SpecfilterParameters
    decreases 8 - k,
{
    if k < 0 || k >= 8 {
        s
    } else {
        spec_write_knobs(spec_set_parameter(s, k, v[k]), v, k + 1)
    }
}

proof fn lemma_load_step(dst: SpecfilterParameters, src: SpecfilterParameters, k: int)
    requires
        0 <= k <= 8,
    ensures
        spec_load_from(dst, spec_preset_data(src), k) == spec_write_knobs(
            dst,
            Seq::new(8, |i: int| spec_get_parameter(src, i)),
            k,
        ),
    decreases 8 - k,
{
    if k < 8 {
        let d = spec_preset_data(src);
        let w = spec_get_parameter(src, k);
        assert(d[4 * k] == spec_le32(w)[0]);
        assert(d[4 * k + 1] == spec_le32(w)[1]);
        assert(d[4 * k + 2] == spec_le32(w)[2]);
        assert(d[4 * k + 3] == spec_le32(w)[3]);
        lemma_le32_roundtrip(w);
        lemma_load_step(spec_set_parameter(dst, k, w), src, k + 1);
    }
}

/// Loading reverses saving: loading a store's preset image into any
/// store writes every control, in the fixed order, from exactly the
/// normalized knob value that was read out.
pub proof fn lemma_preset_round_trip(dst: SpecfilterParameters, src: SpecfilterParameters)
    ensures
        spec_load_from(dst, spec_preset_data(src), 0) == spec_write_knobs(
            dst,
            Seq::new(8, |i: int| spec_get_parameter(src, i)),
            0,
        ),
{
    lemma_load_step(dst, src, 0);
}

} // verus!
