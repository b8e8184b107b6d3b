//! Per-request token and cache-block bookkeeping.
//!
//! A [`Sequence`] is the mutable state of one in-flight generation request:
//! its token buffer (prompt followed by completion tokens), its progress
//! through the key/value cache (cached-token count and block table), and the
//! sampling configuration that gates its generation. Logical cache blocks
//! hold [`Sequence::BLOCK_SIZE`] tokens each; all block arithmetic is derived
//! from the token count, never stored separately.
use vstd::arithmetic::div_mod::{lemma_fundamental_div_mod, lemma_fundamental_div_mod_converse};
use vstd::prelude::*;
use vstd::slice::slice_subrange;

use crate::sampling::SamplingParams;

verus! {

/// Where a sequence stands in the generation pipeline.
///
/// Transitions are monotonic: `Waiting` to `Running` to `Finished`, chosen by
/// the external scheduler; none is ever reversed.
#[derive(Debug, Clone, Copy, PartialEq, Eq, Structural)]
pub enum SequenceStatus {
    /// Created, not yet scheduled into a batch.
    Waiting,
    /// Scheduled at least once and not finished.
    Running,
    /// Terminal: reached its length limit, emitted an end-of-sequence token,
    /// or was stopped externally.
    Finished,
}

impl Default for SequenceStatus {
    /// New sequences start out waiting.
    fn default() -> (r: Self)
        ensures
            r == SequenceStatus::Waiting,
    {
        SequenceStatus::Waiting
    }
}

/// Issues process-unique sequence ids, monotonically and never reused.
///
/// The counter is an explicit value so that callers (and tests) choose where
/// it lives; the surrounding server keeps a single shared instance behind its
/// own synchronization and hands it to every creation site.
pub struct SeqIdCounter {
    /// The id the next issuance will return.
    pub next_id: usize,
}

impl SeqIdCounter {
    /// A fresh counter, issuing ids from zero.
    pub fn new() -> (r: Self)
        ensures
            r.next_id == 0,
    {
        SeqIdCounter { next_id: 0 }
    }

    /// Issues the next id: returns the current counter value and advances it,
    /// so no id is ever issued twice by one counter.
    pub fn next_seq_id(&mut self) -> (id: usize)
        requires
            old(self).next_id < usize::MAX,
        ensures
            id == old(self).next_id,
            final(self).next_id == old(self).next_id + 1,
    {
        let id = self.next_id;
        self.next_id = self.next_id + 1;
        id
    }
}

/// Two ids issued one after the other by the same counter are distinct:
/// issuing advances the counter past the id it returned, so a later issuance
/// can never return it again.
pub proof fn lemma_seq_ids_distinct(
    c0: SeqIdCounter,
    c1: SeqIdCounter,
    c2: SeqIdCounter,
    id1: usize,
    id2: usize,
)
    requires
        id1 == c0.next_id,
        c1.next_id == c0.next_id + 1,
        id2 == c1.next_id,
        c2.next_id == c1.next_id + 1,
    ensures
        id1 != id2,
{
}

/// The abstract state of a [`Sequence`]: the same fields over mathematical
/// types, with the token buffer as a sequence of token ids.
pub struct SequenceView {
    /// Process-unique identifier.
    pub seq_id: int,
    /// Pipeline status.
    pub status: SequenceStatus,
    /// All token ids: the prompt followed by the completion.
    pub token_ids: Seq<u32>,
    /// The most recently appended token id.
    pub last_token_id: u32,
    /// Total number of tokens; equals `token_ids.len()` for well-formed state.
    pub num_tokens: int,
    /// How many leading tokens are the immutable prompt.
    pub num_prompt_tokens: int,
    /// How many leading tokens have committed key/value cache entries.
    pub num_cached_tokens: int,
    /// Physical block ids backing this sequence's logical blocks.
    pub block_table: Seq<usize>,
    /// Bit pattern of the single-precision sampling temperature.
    pub temperature_bits: u32,
    /// Maximum number of completion tokens to generate.
    pub max_tokens: int,
    /// Whether generation continues past an end-of-sequence token.
    pub ignore_eos: bool,
}

/// One generation request's state: token buffer, cache progress, block table
/// and sampling configuration.
///
/// Fields are public because the external scheduler and block allocator
/// mutate them directly (status transitions, block-table growth, cached-token
/// advances); operations of this type require and preserve [`Sequence::wf`].
#[derive(Debug)]
pub struct Sequence {
    /// Process-unique identifier, issued by a [`SeqIdCounter`].
    pub seq_id: usize,
    /// Pipeline status.
    pub status: SequenceStatus,
    /// All token ids: the prompt followed by the completion.
    pub token_ids: Vec<u32>,
    /// The most recently appended token id, cached off the buffer's tail.
    pub last_token_id: u32,
    /// Total number of tokens; always the length of `token_ids`.
    pub num_tokens: usize,
    /// How many leading tokens are the immutable prompt.
    pub num_prompt_tokens: usize,
    /// How many leading tokens have committed key/value cache entries.
    pub num_cached_tokens: usize,
    /// Physical block ids backing this sequence's logical blocks, assigned by
    /// the external allocator.
    pub block_table: Vec<usize>,
    /// Bit pattern of the single-precision sampling temperature.
    pub temperature_bits: u32,
    /// Maximum number of completion tokens to generate.
    pub max_tokens: usize,
    /// Whether generation continues past an end-of-sequence token.
    pub ignore_eos: bool,
}

impl View for Sequence {
    type V = SequenceView;

    open spec fn view(&self) -> SequenceView {
        SequenceView {
            seq_id: self.seq_id as int,
            status: self.status,
            token_ids: self.token_ids@,
            last_token_id: self.last_token_id,
            num_tokens: self.num_tokens as int,
            num_prompt_tokens: self.num_prompt_tokens as int,
            num_cached_tokens: self.num_cached_tokens as int,
            block_table: self.block_table@,
            temperature_bits: self.temperature_bits,
            max_tokens: self.max_tokens as int,
            ignore_eos: self.ignore_eos,
        }
    }
}

/// The abstract effect of appending one token: the buffer grows by that
/// token, the counts and the last-token cache follow, everything else stays.
pub open spec fn spec_append(v: SequenceView, token_id: u32) -> SequenceView {
    SequenceView {
        token_ids: v.token_ids.push(token_id),
        last_token_id: token_id,
        num_tokens: v.num_tokens + 1,
        ..v
    }
}

/// The abstract effect of appending a whole run of tokens, one at a time.
pub open spec fn spec_append_all(v: SequenceView, token_ids: Seq<u32>) -> SequenceView
    decreases token_ids.len(),
{
    if token_ids.len() == 0 {
        v
    } else {
        spec_append_all(spec_append(v, token_ids[0]), token_ids.skip(1))
    }
}

/// After appending `k` tokens one at a time, `num_tokens` has grown by
/// exactly `k`, so the completion (everything past the unchanged prompt
/// prefix) has grown by exactly `k` tokens; the appended tokens sit at the
/// end of the buffer in order.
pub proof fn lemma_append_all_counts(v: SequenceView, token_ids: Seq<u32>)
    ensures
        spec_append_all(v, token_ids).num_tokens == v.num_tokens + token_ids.len(),
        spec_append_all(v, token_ids).num_prompt_tokens == v.num_prompt_tokens,
        spec_append_all(v, token_ids).num_tokens - spec_append_all(v, token_ids).num_prompt_tokens
            == (v.num_tokens - v.num_prompt_tokens) + token_ids.len(),
        spec_append_all(v, token_ids).token_ids == v.token_ids + token_ids,
    decreases token_ids.len(),
{
    if token_ids.len() == 0 {
        assert(v.token_ids + token_ids == v.token_ids);
    } else {
        lemma_append_all_counts(spec_append(v, token_ids[0]), token_ids.skip(1));
        assert(v.token_ids.push(token_ids[0]) + token_ids.skip(1) == v.token_ids + token_ids);
    }
}

impl Sequence {
    /// How many tokens one key/value cache block holds.
    pub const BLOCK_SIZE: usize = 256;

    /// Well-formed sequence state: the stored counts agree with the buffer,
    /// the prompt is a non-empty prefix, the cache never runs ahead of the
    /// tokens, and the cached last token is the buffer's tail.
    pub open spec fn wf(&self) -> bool {
        &&& self.num_tokens == self.token_ids@.len()
        &&& 1 <= self.num_prompt_tokens <= self.num_tokens
        &&& self.num_cached_tokens <= self.num_tokens
        &&& self.last_token_id == self.token_ids@.last()
    }

    /// How many whole blocks a buffer of `n` tokens needs: `n / BLOCK_SIZE`,
    /// rounded up, so a final partial block still needs a block.
    pub open spec fn spec_num_blocks(n: int) -> int {
        (n + Sequence::BLOCK_SIZE - 1) / (Sequence::BLOCK_SIZE as int)
    }

    /// Creates a sequence from a non-empty prompt: status `Waiting`, no
    /// cached tokens, an empty block table, the whole buffer counted as
    /// prompt, and a fresh id drawn from `ids`. Creation from an empty
    /// prompt is rejected before any state exists, so it is excluded here.
    pub fn new(token_ids: Vec<u32>, params: SamplingParams, ids: &mut SeqIdCounter) -> (s:
        Sequence)
        requires
            token_ids@.len() >= 1,
            old(ids).next_id < usize::MAX,
        ensures
            s.wf(),
            s.seq_id == old(ids).next_id,
            final(ids).next_id == old(ids).next_id + 1,
            s.status == SequenceStatus::Waiting,
            s.token_ids@ == token_ids@,
            s.num_tokens == token_ids@.len(),
            s.num_prompt_tokens == token_ids@.len(),
            s.num_cached_tokens == 0,
            s.block_table@ == Seq::<usize>::empty(),
            s.last_token_id == token_ids@.last(),
            s.temperature_bits == params.temperature_bits,
            s.max_tokens == params.max_tokens,
            s.ignore_eos == params.ignore_eos,
    {
        let num_tokens = token_ids.len();
        let last_token_id = token_ids[num_tokens - 1];
        let s = Sequence {
            seq_id: ids.next_seq_id(),
            status: SequenceStatus::Waiting,
            token_ids,
            last_token_id,
            num_tokens,
            num_prompt_tokens: num_tokens,
            num_cached_tokens: 0,
            block_table: Vec::new(),
            temperature_bits: params.temperature_bits,
            max_tokens: params.max_tokens,
            ignore_eos: params.ignore_eos,
        };
        proof {
            assert(s.block_table@ == Seq::<usize>::empty());
        }
        s
    }

    /// Total number of tokens, prompt and completion together.
    pub fn len(&self) -> (r: usize)
        ensures
            r == self.num_tokens,
    {
        self.num_tokens
    }

    /// Whether the sequence holds no tokens. Never true of a well-formed
    /// sequence: construction rejects empty prompts.
    pub fn is_empty(&self) -> (r: bool)
        ensures
            r == (self.num_tokens == 0),
    {
        self.num_tokens == 0
    }

    /// Whether the sequence has reached its terminal status.
    pub fn is_finished(&self) -> (r: bool)
        ensures
            r == (self.status == SequenceStatus::Finished),
    {
        self.status == SequenceStatus::Finished
    }

    /// How many tokens the model has generated, excluding the prompt.
    pub fn num_completion_tokens(&self) -> (r: usize)
        requires
            self.wf(),
        ensures
            r == self.num_tokens - self.num_prompt_tokens,
    {
        self.num_tokens - self.num_prompt_tokens
    }

    /// The prompt: the immutable first `num_prompt_tokens` tokens.
    pub fn prompt_token_ids(&self) -> (r: &[u32])
        requires
            self.wf(),
        ensures
            r@ == self.token_ids@.subrange(0, self.num_prompt_tokens as int),
    {
        slice_subrange(self.token_ids.as_slice(), 0, self.num_prompt_tokens)
    }

    /// The completion: every token after the prompt, in generation order.
    pub fn completion_token_ids(&self) -> (r: &[u32])
        requires
            self.wf(),
        ensures
            r@ == self.token_ids@.subrange(self.num_prompt_tokens as int, self.num_tokens as int),
    {
        slice_subrange(self.token_ids.as_slice(), self.num_prompt_tokens, self.num_tokens)
    }

    /// How many whole blocks are fully cached. Integer division: a partially
    /// cached block does not count.
    pub fn num_cached_blocks(&self) -> (r: usize)
        ensures
            r == self.num_cached_tokens as int / Sequence::BLOCK_SIZE as int,
    {
        self.num_cached_tokens / Sequence::BLOCK_SIZE
    }

    /// How many blocks the whole buffer needs, counting a final partial
    /// block as a block.
    pub fn num_blocks(&self) -> (r: usize)
        requires
            self.wf(),
        ensures
            r == Sequence::spec_num_blocks(self.num_tokens as int),
            r >= 1,
    {
        let n = self.num_tokens;
        let r = (n - 1) / Sequence::BLOCK_SIZE + 1;
        proof {
            let b = Sequence::BLOCK_SIZE as int;
            lemma_fundamental_div_mod(n - 1, b);
            lemma_fundamental_div_mod_converse(
                n - 1 + b,
                b,
                (n - 1) / b + 1,
                (n - 1) % b,
            );
        }
        r
    }

    /// How many tokens the last, possibly partial, block holds: between 1
    /// and `BLOCK_SIZE` for a well-formed (hence non-empty) sequence.
    pub fn last_block_num_tokens(&self) -> (r: usize)
        requires
            self.wf(),
        ensures
            r == self.num_tokens - (Sequence::spec_num_blocks(self.num_tokens as int) - 1)
                * Sequence::BLOCK_SIZE,
            1 <= r <= Sequence::BLOCK_SIZE,
    {
        let num_blocks = self.num_blocks();
        proof {
            let n = self.num_tokens as int;
            let b = Sequence::BLOCK_SIZE as int;
            lemma_fundamental_div_mod(n - 1, b);
            assert((num_blocks - 1) * b == ((n - 1) / b) * b);
        }
        self.num_tokens - (num_blocks - 1) * Sequence::BLOCK_SIZE
    }

    /// The tokens of logical block `i`: the sub-range starting at
    /// `i * BLOCK_SIZE`, of full length `BLOCK_SIZE` for every block but
    /// possibly the last, whose length is `last_block_num_tokens()`. Asking
    /// for a block at or past `num_blocks()` is a bounds violation and is
    /// excluded here.
    pub fn block(&self, i: usize) -> (r: &[u32])
        requires
            self.wf(),
            i < Sequence::spec_num_blocks(self.num_tokens as int),
        ensures
            r@ == self.token_ids@.subrange(
                i * Sequence::BLOCK_SIZE,
                if (i + 1) * Sequence::BLOCK_SIZE <= self.num_tokens {
                    (i + 1) * Sequence::BLOCK_SIZE as int
                } else {
                    self.num_tokens as int
                },
            ),
            i + 1 < Sequence::spec_num_blocks(self.num_tokens as int) ==> r@.len()
                == Sequence::BLOCK_SIZE,
            i + 1 == Sequence::spec_num_blocks(self.num_tokens as int) ==> r@.len()
                == self.num_tokens - (Sequence::spec_num_blocks(self.num_tokens as int) - 1)
                * Sequence::BLOCK_SIZE,
    {
        proof {
            let n = self.num_tokens as int;
            let b = Sequence::BLOCK_SIZE as int;
            let nb = Sequence::spec_num_blocks(n);
            lemma_fundamental_div_mod(n - 1, b);
            lemma_fundamental_div_mod_converse(n - 1 + b, b, (n - 1) / b + 1, (n - 1) % b);
            assert(nb == (n - 1) / b + 1);
            assert((nb - 1) * b == ((n - 1) / b) * b);
            assert(i + 1 <= nb);
            assert((i + 1) * b <= nb * b) by (nonlinear_arith)
                requires i + 1 <= nb, b > 0;
            assert(nb * b == (nb - 1) * b + b) by (nonlinear_arith);
            assert(i * b <= (nb - 1) * b) by (nonlinear_arith)
                requires i <= nb - 1, b > 0;
        }
        let start = i * Sequence::BLOCK_SIZE;
        let end = if self.num_tokens - start >= Sequence::BLOCK_SIZE {
            start + Sequence::BLOCK_SIZE
        } else {
            self.num_tokens
        };
        slice_subrange(self.token_ids.as_slice(), start, end)
    }

    /// The token id at absolute position `index`; positions at or past
    /// `num_tokens` are a bounds violation and are excluded here.
    pub fn index(&self, index: usize) -> (r: u32)
        requires
            self.wf(),
            index < self.num_tokens,
        ensures
            r == self.token_ids@[index as int],
    {
        self.token_ids[index]
    }

    /// Appends one completion token: the buffer, total count and last-token
    /// cache advance together; prompt, cache progress, block table, status
    /// and sampling configuration are untouched.
    pub fn append_token(&mut self, token_id: u32)
        requires
            old(self).wf(),
            old(self).num_tokens < usize::MAX,
        ensures
            final(self).wf(),
            final(self)@ == spec_append(old(self)@, token_id),
            final(self).num_tokens == old(self).num_tokens + 1,
            final(self).token_ids@ == old(self).token_ids@.push(token_id),
            final(self).last_token_id == token_id,
    {
        self.token_ids.push(token_id);
        self.last_token_id = token_id;
        self.num_tokens = self.num_tokens + 1;
    }
}

} // verus!
