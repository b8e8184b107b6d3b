use nano_vllm_core::sampling::SamplingParams;
use nano_vllm_core::sequence::{SeqIdCounter, Sequence, SequenceStatus};

fn params() -> SamplingParams {
    SamplingParams {
        temperature_bits: 1.0f32.to_bits(),
        max_tokens: 64,
        ignore_eos: false,
    }
}

#[test]
fn new_sequence_starts_waiting_with_nothing_cached() {
    let mut ids = SeqIdCounter::new();
    let s = Sequence::new(vec![3, 1, 4, 1, 5], params(), &mut ids);
    assert_eq!(s.status, SequenceStatus::Waiting);
    assert_eq!(s.num_cached_tokens, 0);
    assert!(s.block_table.is_empty());
    assert_eq!(s.num_tokens, 5);
    assert_eq!(s.num_prompt_tokens, 5);
    assert_eq!(s.len(), 5);
    assert!(!s.is_empty());
    assert!(!s.is_finished());
    assert_eq!(s.last_token_id, 5);
    assert_eq!(s.prompt_token_ids(), &[3, 1, 4, 1, 5]);
    assert_eq!(s.completion_token_ids(), &[] as &[u32]);
}

#[test]
fn append_token_grows_completion_by_one_each_call() {
    let mut ids = SeqIdCounter::new();
    let mut s = Sequence::new(vec![10, 20], params(), &mut ids);
    let k = 7;
    for j in 0..k {
        s.append_token(100 + j);
    }
    assert_eq!(s.num_tokens, 2 + k as usize);
    assert_eq!(s.num_completion_tokens(), k as usize);
    assert_eq!(
        s.completion_token_ids(),
        &[100, 101, 102, 103, 104, 105, 106]
    );
    assert_eq!(s.prompt_token_ids(), &[10, 20]);
    assert_eq!(s.last_token_id, 106);
    assert_eq!(s.index(2), 100);
}

#[test]
fn block_arithmetic_at_the_256_boundary() {
    let mut ids = SeqIdCounter::new();
    let s = Sequence::new(vec![7; 256], params(), &mut ids);
    assert_eq!(Sequence::BLOCK_SIZE, 256);
    assert_eq!(s.num_blocks(), 1);
    assert_eq!(s.last_block_num_tokens(), 256);

    let t = Sequence::new(vec![7; 257], params(), &mut ids);
    assert_eq!(t.num_blocks(), 2);
    assert_eq!(t.last_block_num_tokens(), 1);
}

#[test]
fn blocks_are_full_except_possibly_the_last() {
    let mut ids = SeqIdCounter::new();
    let mut prompt: Vec<u32> = Vec::new();
    for i in 0..600u32 {
        prompt.push(i);
    }
    let s = Sequence::new(prompt, params(), &mut ids);
    assert_eq!(s.num_blocks(), 3);
    assert_eq!(s.block(0).len(), 256);
    assert_eq!(s.block(1).len(), 256);
    assert_eq!(s.block(2).len(), s.last_block_num_tokens());
    assert_eq!(s.last_block_num_tokens(), 600 - 2 * 256);
    assert_eq!(s.block(0)[0], 0);
    assert_eq!(s.block(1)[0], 256);
    assert_eq!(s.block(2)[87], 599);
}

#[test]
fn cached_blocks_count_only_whole_blocks() {
    let mut ids = SeqIdCounter::new();
    let mut s = Sequence::new(vec![7; 600], params(), &mut ids);
    s.num_cached_tokens = 255;
    assert_eq!(s.num_cached_blocks(), 0);
    s.num_cached_tokens = 256;
    assert_eq!(s.num_cached_blocks(), 1);
    s.num_cached_tokens = 600;
    assert_eq!(s.num_cached_blocks(), 2);
}

#[test]
fn sequences_from_one_counter_get_distinct_ids() {
    let mut ids = SeqIdCounter::new();
    let a = Sequence::new(vec![1], params(), &mut ids);
    let b = Sequence::new(vec![1], params(), &mut ids);
    let c = Sequence::new(vec![1], params(), &mut ids);
    assert_ne!(a.seq_id, b.seq_id);
    assert_ne!(b.seq_id, c.seq_id);
    assert_ne!(a.seq_id, c.seq_id);
    assert_eq!(a.seq_id, 0);
    assert_eq!(b.seq_id, 1);
    assert_eq!(c.seq_id, 2);
}

#[test]
fn status_default_is_waiting() {
    assert_eq!(SequenceStatus::default(), SequenceStatus::Waiting);
}
