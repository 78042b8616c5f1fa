//! Analogue readings. The RP2040's converter delivers 12-bit samples; a
//! reading is reported as a fraction of full scale in `0 ..= 1`. The fraction
//! is kept exactly as a count of 4096ths, so the reading `raw` stands for
//! `adc_fraction(raw) / 4096`.
use vstd::prelude::*;

verus! {

/// Resolution of the converter, in bits.
pub const ADC_BITS: u32 = 12;

/// The denominator of a scaled reading: `1 << ADC_BITS`.
pub const ADC_FULL_SCALE: u16 = 4096;

/// The scaled value of a raw sample, in 4096ths: the sample itself, saturated
/// at full scale so that the fraction never exceeds one.
pub open spec fn scaled(raw: int) -> int {
    if raw < ADC_FULL_SCALE {
        raw
    } else {
        ADC_FULL_SCALE as int
    }
}

/// Scales a raw sample to a fraction of full scale, returned as its numerator
/// over `ADC_FULL_SCALE`; values above full scale are clamped to one.
pub fn adc_fraction(raw: u16) -> (numerator: u16)
    ensures
        numerator == scaled(raw as int),
        numerator <= ADC_FULL_SCALE,
{
    let bits: u32 = ADC_BITS;
    let full_scale: u16 = 1u16 << bits;
    assert(full_scale == 4096) by (bit_vector)
        requires
            bits == 12,
            full_scale == 1u16 << bits,
    ;
    if raw < full_scale {
        raw
    } else {
        full_scale
    }
}

/// Every sample that fits in the converter's 12 bits is kept exactly.
pub proof fn lemma_twelve_bit_sample_exact(raw: int)
    requires
        0 <= raw < 4096,
    ensures
        scaled(raw) == raw,
{
}

/// A scaled reading lies between zero and full scale.
pub proof fn lemma_scaled_in_unit_range(raw: int)
    requires
        0 <= raw,
    ensures
        0 <= scaled(raw) <= ADC_FULL_SCALE,
{
}

/// A larger sample never gives a smaller reading.
pub proof fn lemma_scaled_monotonic(raw1: int, raw2: int)
    requires
        raw1 <= raw2,
    ensures
        scaled(raw1) <= scaled(raw2),
{
}

} // verus!
