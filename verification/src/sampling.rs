//! Sampling configuration carried by each generation request.
use vstd::prelude::*;

verus! {

/// Bit pattern of the IEEE-754 single-precision value 1.0, the default
/// sampling temperature. The temperature is never computed on here; it is
/// carried as its bit pattern and interpreted by the (unverified) sampler.
pub const DEFAULT_TEMPERATURE_BITS: u32 = 0x3F80_0000;

/// Default maximum number of tokens to generate for a request.
pub fn default_max_tokens() -> (r: usize)
    ensures
        r == 1024,
{
    1024
}

/// Parameters that control how tokens are sampled during generation.
///
/// The temperature is a non-negative real chosen by the caller; it is stored
/// as the bit pattern of an IEEE-754 single-precision value (a bit pattern of
/// zero means greedy, deterministic selection). This core never performs
/// arithmetic on it.
#[derive(Debug, Clone, Copy, PartialEq, Eq, Structural)]
pub struct SamplingParams {
    /// Bit pattern of the single-precision sampling temperature.
    pub temperature_bits: u32,
    /// Maximum number of completion tokens to generate.
    pub max_tokens: usize,
    /// Whether generation continues past an end-of-sequence token.
    pub ignore_eos: bool,
}

impl Default for SamplingParams {
    /// Default parameters: temperature 1.0, at most 1024 generated tokens,
    /// and generation stopping at the end-of-sequence token.
    fn default() -> (r: Self)
        ensures
            r.temperature_bits == DEFAULT_TEMPERATURE_BITS,
            r.max_tokens == 1024,
            !r.ignore_eos,
    {
        SamplingParams {
            temperature_bits: DEFAULT_TEMPERATURE_BITS,
            max_tokens: default_max_tokens(),
            ignore_eos: false,
        }
    }
}

} // verus!
