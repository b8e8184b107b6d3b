use nano_vllm_core::add;
use nano_vllm_core::config::Config;
use nano_vllm_core::config::{
    default_kvcache_block_size, default_max_model_len, default_max_num_batched_tokens,
    default_max_num_seqs, default_tensor_parallel_size,
};
use nano_vllm_core::sampling::{default_max_tokens, SamplingParams, DEFAULT_TEMPERATURE_BITS};

#[test]
fn it_works() {
    let result = add(2, 2);
    assert_eq!(result, 4);
}

#[test]
fn config_defaults_are_documented_values() {
    assert_eq!(default_max_num_batched_tokens(), 16384);
    assert_eq!(default_max_num_seqs(), 512);
    assert_eq!(default_max_model_len(), 4096);
    assert_eq!(default_tensor_parallel_size(), 1);
    assert_eq!(default_kvcache_block_size(), 256);
    let c = Config::default();
    assert_eq!(c.max_num_batched_tokens, 16384);
    assert_eq!(c.max_num_seqs, 512);
    assert_eq!(c.max_model_len, 4096);
    assert_eq!(c.tensor_parallel_size, 1);
    assert!(!c.enforce_eager);
    assert_eq!(c.kvcache_block_size, 256);
    assert!(c.eos_token_id.is_none());
    assert!(c.num_kvcache_blocks.is_none());
}

#[test]
fn sampling_defaults() {
    assert_eq!(default_max_tokens(), 1024);
    let p = SamplingParams::default();
    assert_eq!(p.temperature_bits, DEFAULT_TEMPERATURE_BITS);
    assert_eq!(p.temperature_bits, 1.0f32.to_bits());
    assert_eq!(p.max_tokens, 1024);
    assert!(!p.ignore_eos);
}
