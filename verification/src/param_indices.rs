//! The parameter layout of the two-oscillator synthesizer, as hosts number it.

use vstd::prelude::*;

verus! {

/// The parameters of the two-oscillator synthesizer in host order, closed by
/// a member that stands for their number.
#[derive(Debug, Clone, Copy, PartialEq, Eq, Structural)]
pub enum ParamIndices {
    Osc1Waveform,
    Osc1RatioCoarse,
    Osc1RatioFine,
    Osc1Attack,
    Osc1Decay,
    Osc1Sustain,
    Osc1Release,
    Osc2Waveform,
    Osc2RatioCoarse,
    Osc2RatioFine,
    Osc2Attack,
    Osc2Decay,
    Osc2Sustain,
    Osc2Release,
    MasterLevel,
    #[allow(non_camel_case_types)]
    LAST_PARAM,
}

impl ParamIndices {
    /// The number a host uses for the parameter.
    pub open spec fn spec_index(&self) -> int {
        match *self {
            ParamIndices::Osc1Waveform => 0,
            ParamIndices::Osc1RatioCoarse => 1,
            ParamIndices::Osc1RatioFine => 2,
            ParamIndices::Osc1Attack => 3,
            ParamIndices::Osc1Decay => 4,
            ParamIndices::Osc1Sustain => 5,
            ParamIndices::Osc1Release => 6,
            ParamIndices::Osc2Waveform => 7,
            ParamIndices::Osc2RatioCoarse => 8,
            ParamIndices::Osc2RatioFine => 9,
            ParamIndices::Osc2Attack => 10,
            ParamIndices::Osc2Decay => 11,
            ParamIndices::Osc2Sustain => 12,
            ParamIndices::Osc2Release => 13,
            ParamIndices::MasterLevel => 14,
            ParamIndices::LAST_PARAM => 15,
        }
    }

    /// The number a host uses for the parameter.
    pub fn to_i32(&self) -> (num: i32)
        ensures
            num == self.spec_index(),
            0 <= num <= 15,
    {
        match *self {
            ParamIndices::Osc1Waveform => 0,
            ParamIndices::Osc1RatioCoarse => 1,
            ParamIndices::Osc1RatioFine => 2,
            ParamIndices::Osc1Attack => 3,
            ParamIndices::Osc1Decay => 4,
            ParamIndices::Osc1Sustain => 5,
            ParamIndices::Osc1Release => 6,
            ParamIndices::Osc2Waveform => 7,
            ParamIndices::Osc2RatioCoarse => 8,
            ParamIndices::Osc2RatioFine => 9,
            ParamIndices::Osc2Attack => 10,
            ParamIndices::Osc2Decay => 11,
            ParamIndices::Osc2Sustain => 12,
            ParamIndices::Osc2Release => 13,
            ParamIndices::MasterLevel => 14,
            ParamIndices::LAST_PARAM => 15,
        }
    }

    /// The parameter a host means by `num`. Only the numbers of the fifteen
    /// parameters are accepted: `LAST_PARAM` is never returned.
    pub fn from_i32(num: i32) -> (param: ParamIndices)
        requires
            0 <= num < 15,
        ensures
            param.spec_index() == num,
            param != ParamIndices::LAST_PARAM,
    {
        match num {
            0 => ParamIndices::Osc1Waveform,
            1 => ParamIndices::Osc1RatioCoarse,
            2 => ParamIndices::Osc1RatioFine,
            3 => ParamIndices::Osc1Attack,
            4 => ParamIndices::Osc1Decay,
            5 => ParamIndices::Osc1Sustain,
            6 => ParamIndices::Osc1Release,
            7 => ParamIndices::Osc2Waveform,
            8 => ParamIndices::Osc2RatioCoarse,
            9 => ParamIndices::Osc2RatioFine,
            10 => ParamIndices::Osc2Attack,
            11 => ParamIndices::Osc2Decay,
            12 => ParamIndices::Osc2Sustain,
            13 => ParamIndices::Osc2Release,
            _ => ParamIndices::MasterLevel,
        }
    }
}

/// Two parameters with the same number are the same parameter.
pub proof fn lemma_param_indices_distinct(a: ParamIndices, b: ParamIndices)
    requires
        a.spec_index() == b.spec_index(),
    ensures
        a == b,
{
}

} // verus!
