//! Mixer section in protocol extension defined by TCAT for ASICs of DICE.
//!
//! The section starts with a quadlet of one bit for each output, set where
//! the output is saturated. The coefficients follow, a quadlet each, row by
//! row: one row for each output, with one coefficient for each input.

use vstd::prelude::*;
use super::{be_bytes, spec_be_quadlet, MixerCaps};

verus! {

/// Offset of the quadlet of saturation in the section.
pub const SATURATION_OFFSET: usize = 0x00;

/// Offset of the first coefficient in the section.
pub const COEFF_OFFSET: usize = 0x04;

/// Why an operation on the mixer section is not done.
#[derive(Debug, Copy, Clone, Eq, PartialEq, Structural)]
pub enum MixerSectionError {
    /// The mixer is not available.
    NotAvailable,
    /// The mixer is immutable.
    Immutable,
}

/// The structure for protocol implementation of mixer section.
#[derive(Debug)]
pub struct MixerSectionProtocol;

impl Default for MixerSectionProtocol {
    fn default() -> Self {
        MixerSectionProtocol
    }
}

/// Whether the bit `i` of `val` is set.
pub open spec fn spec_bit(val: u32, i: int) -> bool {
    (val as int / vstd::arithmetic::power2::pow2(i as nat) as int) % 2 == 1
}

/// The offset of the coefficient for the input `src` in the output `dst`,
/// from the start of the section.
pub open spec fn spec_coef_offset(caps: MixerCaps, dst: usize, src: usize) -> int {
    COEFF_OFFSET + 4 * (src + dst * caps.input_count)
}

fn coef_offset(caps: &MixerCaps, dst: usize, src: usize) -> (offset: usize)
    requires
        spec_coef_offset(*caps, dst, src) <= usize::MAX,
    ensures
        offset == spec_coef_offset(*caps, dst, src),
{
    let count = caps.input_count as usize;
    assert(0 <= dst * count <= usize::MAX) by (nonlinear_arith)
        requires
            COEFF_OFFSET + 4 * (src + dst * count) <= usize::MAX,
            0 <= dst,
            0 <= count,
            0 <= src,
    ;
    COEFF_OFFSET + 4 * (src + dst * count)
}

impl MixerSectionProtocol {
    /// Tells for each output of the mixer whether the quadlet `val`, read at
    /// the offset of saturation, reports it as saturated.
    pub fn read_saturation(caps: &MixerCaps, val: u32) -> (result: Result<
        Vec<bool>,
        MixerSectionError,
    >)
        requires
            caps.output_count <= 32,
        ensures
            !caps.is_exposed <==> result == Err::<Vec<bool>, MixerSectionError>(
                MixerSectionError::NotAvailable,
            ),
            caps.is_exposed ==> result is Ok && result->Ok_0@.len() == caps.output_count
                && forall|i: int|
                0 <= i < caps.output_count ==> result->Ok_0@[i] == spec_bit(val, i),
    {
        if !caps.is_exposed {
            return Err(MixerSectionError::NotAvailable);
        }
        let mut saturated: Vec<bool> = Vec::new();
        let mut rest: u32 = val;
        let mut i: u8 = 0;
        proof {
            vstd::arithmetic::power2::lemma2_to64();
        }
        while i < caps.output_count
            invariant
                i <= caps.output_count <= 32,
                saturated@.len() == i,
                rest as int == val as int / vstd::arithmetic::power2::pow2(i as nat) as int,
                forall|k: int| 0 <= k < i ==> saturated@[k] == spec_bit(val, k),
            decreases caps.output_count - i,
        {
            saturated.push(rest % 2 == 1);
            proof {
                let p = vstd::arithmetic::power2::pow2(i as nat) as int;
                vstd::arithmetic::power2::lemma_pow2_pos(i as nat);
                vstd::arithmetic::power2::lemma_pow2_unfold((i + 1) as nat);
                vstd::arithmetic::div_mod::lemma_div_denominator(val as int, p, 2);
            }
            rest = rest / 2;
            i += 1;
        }
        Ok(saturated)
    }

    /// The offset from the start of the section at which the coefficient for
    /// the input `src` in the output `dst` is read.
    pub fn read_coef(caps: &MixerCaps, dst: usize, src: usize) -> (result: Result<
        usize,
        MixerSectionError,
    >)
        requires
            caps.is_exposed ==> spec_coef_offset(*caps, dst, src) <= usize::MAX,
        ensures
            !caps.is_exposed <==> result == Err::<usize, MixerSectionError>(
                MixerSectionError::NotAvailable,
            ),
            caps.is_exposed ==> result == Ok::<usize, MixerSectionError>(
                spec_coef_offset(*caps, dst, src) as usize,
            ),
    {
        if !caps.is_exposed {
            return Err(MixerSectionError::NotAvailable);
        }
        Ok(coef_offset(caps, dst, src))
    }

    /// The offset from the start of the section at which the coefficient for
    /// the input `src` in the output `dst` is written, and the bytes to write
    /// for the value `val`.
    pub fn write_coef(caps: &MixerCaps, dst: usize, src: usize, val: u32) -> (result: Result<
        (usize, [u8; 4]),
        MixerSectionError,
    >)
        requires
            !caps.is_readonly ==> spec_coef_offset(*caps, dst, src) <= usize::MAX,
        ensures
            caps.is_readonly <==> result == Err::<(usize, [u8; 4]), MixerSectionError>(
                MixerSectionError::Immutable,
            ),
            !caps.is_readonly ==> result is Ok && result->Ok_0.0 == spec_coef_offset(
                *caps,
                dst,
                src,
            ) && spec_be_quadlet(result->Ok_0.1@) == val,
    {
        if caps.is_readonly {
            return Err(MixerSectionError::Immutable);
        }
        Ok((coef_offset(caps, dst, src), be_bytes(val)))
    }
}

} // verus!
