//! The configuration surface consumed at startup.
//!
//! These are the documented numeric defaults of the serving layer around this
//! core: batch-size and sequence-length ceilings, tensor-parallel degree, the
//! eager-execution flag and the cache block size. The surrounding server
//! reads them from the model directory at startup; values that only that
//! layer computes (memory fractions, the model's own parsed configuration)
//! live with it, not here.
use vstd::prelude::*;

verus! {

/// Default ceiling on tokens processed in one batch.
pub fn default_max_num_batched_tokens() -> (r: usize)
    ensures
        r == 16384,
{
    16384
}

/// Default ceiling on sequences processed in one batch.
pub fn default_max_num_seqs() -> (r: usize)
    ensures
        r == 512,
{
    512
}

/// Default ceiling on a single sequence's length, prompt and completion
/// together.
pub fn default_max_model_len() -> (r: usize)
    ensures
        r == 4096,
{
    4096
}

/// Default tensor-parallel degree: no splitting across devices.
pub fn default_tensor_parallel_size() -> (r: usize)
    ensures
        r == 1,
{
    1
}

/// Default size of one key/value cache block, in tokens.
pub fn default_kvcache_block_size() -> (r: usize)
    ensures
        r == 256,
{
    256
}

/// The startup configuration this core is given: ceilings, parallelism and
/// cache geometry.
#[derive(Debug)]
pub struct Config {
    /// Ceiling on tokens processed in one batch.
    pub max_num_batched_tokens: usize,
    /// Ceiling on sequences processed in one batch.
    pub max_num_seqs: usize,
    /// Ceiling on a single sequence's length.
    pub max_model_len: usize,
    /// Tensor-parallel degree.
    pub tensor_parallel_size: usize,
    /// Whether to force eager execution in the surrounding runtime.
    pub enforce_eager: bool,
    /// Size of one key/value cache block, in tokens.
    pub kvcache_block_size: usize,
    /// The model's end-of-sequence token, once the tokenizer configuration
    /// has been read.
    pub eos_token_id: Option<u32>,
    /// How many cache blocks the allocator was sized for, once computed.
    pub num_kvcache_blocks: Option<usize>,
}

impl Default for Config {
    /// The documented defaults; the fields only the surrounding layer can
    /// fill start out absent.
    fn default() -> (r: Self)
        ensures
            r.max_num_batched_tokens == 16384,
            r.max_num_seqs == 512,
            r.max_model_len == 4096,
            r.tensor_parallel_size == 1,
            !r.enforce_eager,
            r.kvcache_block_size == 256,
            r.eos_token_id is None,
            r.num_kvcache_blocks is None,
    {
        Config {
            max_num_batched_tokens: default_max_num_batched_tokens(),
            max_num_seqs: default_max_num_seqs(),
            max_model_len: default_max_model_len(),
            tensor_parallel_size: default_tensor_parallel_size(),
            enforce_eager: false,
            kvcache_block_size: default_kvcache_block_size(),
            eos_token_id: None,
            num_kvcache_blocks: None,
        }
    }
}

} // verus!
