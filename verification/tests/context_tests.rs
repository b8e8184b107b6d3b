use nano_vllm_core::context::{Context, ContextSlot};

#[test]
fn get_before_any_set_is_the_default_decode_snapshot() {
    let slot = ContextSlot::new();
    let c = slot.get();
    assert!(!c.is_prefill);
    assert!(c.cu_seqlens_q.is_none());
    assert!(c.cu_seqlens_k.is_none());
    assert_eq!(c.max_seqlen_q, 0);
    assert_eq!(c.max_seqlen_k, 0);
    assert!(c.slot_mapping.is_none());
    assert!(c.context_lens.is_none());
    assert!(c.block_tables.is_none());
}

#[test]
fn get_after_set_round_trips_field_for_field() {
    let mut slot = ContextSlot::new();
    let snapshot = Context {
        is_prefill: true,
        cu_seqlens_q: Some(vec![0, 5, 9]),
        cu_seqlens_k: Some(vec![0, 5, 9]),
        max_seqlen_q: 5,
        max_seqlen_k: 5,
        slot_mapping: Some(vec![0, 1, 2, 256, -1]),
        context_lens: None,
        block_tables: Some(vec![vec![0, 3], vec![1]]),
    };
    slot.set(snapshot);
    let got = slot.get();
    assert!(got.is_prefill);
    assert_eq!(got.cu_seqlens_q, Some(vec![0, 5, 9]));
    assert_eq!(got.cu_seqlens_k, Some(vec![0, 5, 9]));
    assert_eq!(got.max_seqlen_q, 5);
    assert_eq!(got.max_seqlen_k, 5);
    assert_eq!(got.slot_mapping, Some(vec![0, 1, 2, 256, -1]));
    assert_eq!(got.context_lens, None);
    assert_eq!(got.block_tables, Some(vec![vec![0, 3], vec![1]]));
}

#[test]
fn set_replaces_the_whole_snapshot() {
    let mut slot = ContextSlot::new();
    let first = Context {
        is_prefill: true,
        cu_seqlens_q: Some(vec![0, 2]),
        cu_seqlens_k: Some(vec![0, 2]),
        max_seqlen_q: 2,
        max_seqlen_k: 2,
        slot_mapping: Some(vec![0, 1]),
        context_lens: None,
        block_tables: None,
    };
    slot.set(first);
    let mut second = Context::new();
    second.max_seqlen_k = 9;
    second.context_lens = Some(vec![4, 4]);
    slot.set(second);
    let got = slot.get();
    assert!(!got.is_prefill);
    assert_eq!(got.cu_seqlens_q, None);
    assert_eq!(got.cu_seqlens_k, None);
    assert_eq!(got.max_seqlen_q, 0);
    assert_eq!(got.max_seqlen_k, 9);
    assert_eq!(got.slot_mapping, None);
    assert_eq!(got.context_lens, Some(vec![4, 4]));
    assert_eq!(got.block_tables, None);
}
