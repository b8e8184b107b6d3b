//! The execution context: the attention kernel's view of the current batch.
//!
//! One snapshot describes one kernel step: whether it is a prefill or a
//! decode pass, the cumulative-length descriptors that locate each sequence
//! inside the flattened batch, the slot mapping from flattened token
//! positions to physical cache slots, per-sequence context lengths, and a
//! block-table snapshot per sequence. A [`ContextSlot`] holds at most one
//! snapshot at a time; setting it always replaces the whole snapshot, and
//! reading it yields a copy (or the default decode snapshot when nothing has
//! been set). The surrounding server keeps a single slot behind its own
//! mutual exclusion and serializes one batch step at a time around it.
use vstd::prelude::*;

verus! {

/// The abstract contents of a [`Context`], field for field, with every
/// carried vector as a mathematical sequence.
pub struct ContextView {
    /// Whether the pending kernel invocation processes full prompts.
    pub is_prefill: bool,
    /// Cumulative sequence lengths on the query side.
    pub cu_seqlens_q: Option<Seq<u32>>,
    /// Cumulative sequence lengths on the key side.
    pub cu_seqlens_k: Option<Seq<u32>>,
    /// Longest per-sequence length on the query side.
    pub max_seqlen_q: int,
    /// Longest per-sequence length on the key side.
    pub max_seqlen_k: int,
    /// Physical cache slot of each token in the flattened batch; a negative
    /// value is a padding sentinel the kernel skips.
    pub slot_mapping: Option<Seq<i64>>,
    /// Number of prior context tokens of each sequence.
    pub context_lens: Option<Seq<u32>>,
    /// Block table of each sequence in the batch.
    pub block_tables: Option<Seq<Seq<u32>>>,
}

/// One snapshot of the batch metadata the attention kernel needs.
///
/// Every field but `is_prefill` and the two maximum lengths is optional:
/// prefill and decode steps populate different subsets. The descriptors are
/// carried as plain vectors; the caller turns them into whatever device
/// layout its kernel wants.
#[derive(Debug)]
pub struct Context {
    /// Whether the pending kernel invocation processes full prompts.
    pub is_prefill: bool,
    /// Cumulative sequence lengths on the query side.
    pub cu_seqlens_q: Option<Vec<u32>>,
    /// Cumulative sequence lengths on the key side.
    pub cu_seqlens_k: Option<Vec<u32>>,
    /// Longest per-sequence length on the query side.
    pub max_seqlen_q: usize,
    /// Longest per-sequence length on the key side.
    pub max_seqlen_k: usize,
    /// Physical cache slot of each token in the flattened batch; a negative
    /// value is a padding sentinel the kernel skips.
    pub slot_mapping: Option<Vec<i64>>,
    /// Number of prior context tokens of each sequence.
    pub context_lens: Option<Vec<u32>>,
    /// Block table of each sequence in the batch.
    pub block_tables: Option<Vec<Vec<u32>>>,
}

impl View for Context {
    type V = ContextView;

    open spec fn view(&self) -> ContextView {
        ContextView {
            is_prefill: self.is_prefill,
            cu_seqlens_q: match self.cu_seqlens_q {
                Some(v) => Some(v@),
                None => None,
            },
            cu_seqlens_k: match self.cu_seqlens_k {
                Some(v) => Some(v@),
                None => None,
            },
            max_seqlen_q: self.max_seqlen_q as int,
            max_seqlen_k: self.max_seqlen_k as int,
            slot_mapping: match self.slot_mapping {
                Some(v) => Some(v@),
                None => None,
            },
            context_lens: match self.context_lens {
                Some(v) => Some(v@),
                None => None,
            },
            block_tables: match self.block_tables {
                Some(v) => Some(v.deep_view()),
                None => None,
            },
        }
    }
}

impl Context {
    /// The abstract value of the default snapshot: a decode step with zero
    /// maximum lengths and no descriptors.
    pub open spec fn spec_default() -> ContextView {
        ContextView {
            is_prefill: false,
            cu_seqlens_q: None,
            cu_seqlens_k: None,
            max_seqlen_q: 0,
            max_seqlen_k: 0,
            slot_mapping: None,
            context_lens: None,
            block_tables: None,
        }
    }

    /// A fresh default snapshot.
    pub fn new() -> (r: Self)
        ensures
            r@ == Context::spec_default(),
    {
        Context::default()
    }
}

impl Default for Context {
    /// The default snapshot: an empty decode step with zero lengths and no
    /// descriptors.
    fn default() -> (r: Self)
        ensures
            r@ == Context::spec_default(),
    {
        Context {
            is_prefill: false,
            cu_seqlens_q: None,
            cu_seqlens_k: None,
            max_seqlen_q: 0,
            max_seqlen_k: 0,
            slot_mapping: None,
            context_lens: None,
            block_tables: None,
        }
    }
}

/// Copies a vector of token counts or slot values element by element.
fn copy_u32s(v: &Vec<u32>) -> (r: Vec<u32>)
    ensures
        r@ == v@,
{
    let mut r: Vec<u32> = Vec::new();
    let mut i: usize = 0;
    while i < v.len()
        invariant
            0 <= i <= v@.len(),
            r@ == v@.subrange(0, i as int),
        decreases v@.len() - i,
    {
        r.push(v[i]);
        proof {
            assert(v@.subrange(0, i as int).push(v@[i as int]) =~= v@.subrange(0, i + 1));
        }
        i = i + 1;
    }
    proof {
        assert(v@.subrange(0, v@.len() as int) =~= v@);
    }
    r
}

/// Copies a slot-mapping vector element by element.
fn copy_i64s(v: &Vec<i64>) -> (r: Vec<i64>)
    ensures
        r@ == v@,
{
    let mut r: Vec<i64> = Vec::new();
    let mut i: usize = 0;
    while i < v.len()
        invariant
            0 <= i <= v@.len(),
            r@ == v@.subrange(0, i as int),
        decreases v@.len() - i,
    {
        r.push(v[i]);
        proof {
            assert(v@.subrange(0, i as int).push(v@[i as int]) =~= v@.subrange(0, i + 1));
        }
        i = i + 1;
    }
    proof {
        assert(v@.subrange(0, v@.len() as int) =~= v@);
    }
    r
}

/// Copies a per-sequence table of vectors, preserving every element.
fn copy_u32_tables(v: &Vec<Vec<u32>>) -> (r: Vec<Vec<u32>>)
    ensures
        r.deep_view() == v.deep_view(),
{
    let mut r: Vec<Vec<u32>> = Vec::new();
    let mut i: usize = 0;
    while i < v.len()
        invariant
            0 <= i <= v@.len(),
            r@.len() == i,
            forall|k: int| 0 <= k < i ==> r@[k]@ == v@[k]@,
        decreases v@.len() - i,
    {
        r.push(copy_u32s(&v[i]));
        i = i + 1;
    }
    proof {
        assert(r.deep_view() =~= v.deep_view());
    }
    r
}

/// Copies a snapshot field for field.
fn copy_context(c: &Context) -> (r: Context)
    ensures
        r@ == c@,
{
    Context {
        is_prefill: c.is_prefill,
        cu_seqlens_q: match &c.cu_seqlens_q {
            Some(v) => Some(copy_u32s(v)),
            None => None,
        },
        cu_seqlens_k: match &c.cu_seqlens_k {
            Some(v) => Some(copy_u32s(v)),
            None => None,
        },
        max_seqlen_q: c.max_seqlen_q,
        max_seqlen_k: c.max_seqlen_k,
        slot_mapping: match &c.slot_mapping {
            Some(v) => Some(copy_i64s(v)),
            None => None,
        },
        context_lens: match &c.context_lens {
            Some(v) => Some(copy_u32s(v)),
            None => None,
        },
        block_tables: match &c.block_tables {
            Some(v) => Some(copy_u32_tables(v)),
            None => None,
        },
    }
}

/// The single slot holding the current batch snapshot, if any.
///
/// The design keeps one process-wide slot rather than threading the snapshot
/// through every per-layer call; callers serialize batch steps around it, so
/// the slot itself only promises that a read right after a write returns that
/// write's snapshot.
pub struct ContextSlot {
    /// The current snapshot; `None` until the first write.
    pub slot: Option<Context>,
}

impl ContextSlot {
    /// An empty slot: nothing has been set yet.
    pub fn new() -> (r: Self)
        ensures
            r.slot is None,
    {
        ContextSlot { slot: None }
    }

    /// Replaces the slot's snapshot wholly with `ctx`; nothing of a previous
    /// snapshot survives, and nothing is merged.
    pub fn set(&mut self, ctx: Context)
        ensures
            final(self).slot == Some(ctx),
    {
        self.slot = Some(ctx);
    }

    /// Reads a copy of the current snapshot, field for field; if nothing has
    /// been set yet, the default decode snapshot.
    pub fn get(&self) -> (r: Context)
        ensures
            match self.slot {
                Some(c) => r@ == c@,
                None => r@ == Context::spec_default(),
            },
    {
        match &self.slot {
            Some(c) => copy_context(c),
            None => Context::default(),
        }
    }
}

/// Round trip: a `get` right after a `set(snapshot)`, with no write in
/// between, reads that snapshot back field for field. The first two premises
/// are exactly what `set` and `get` guarantee.
pub proof fn lemma_context_round_trip(slot: ContextSlot, snapshot: Context, read: Context)
    requires
        slot.slot == Some(snapshot),
        match slot.slot {
            Some(c) => read@ == c@,
            None => read@ == Context::spec_default(),
        },
    ensures
        read@ == snapshot@,
{
}

} // verus!
