//! The reduction core: a pluggable trial strategy (one private generator
//! state per worker), a per-worker fold of trial outcomes with max, and the
//! engine that partitions the iteration space into chunks, seeds one worker
//! per chunk, and combines the partial maxima. Because max is associative
//! and commutative with identity 0, the chunk boundaries cannot affect the
//! final value; `lemma_seq_max_concat` is that fact, and the engine's own
//! proof uses it.
use vstd::prelude::*;
use crate::entropy::EntropySource;

verus! {

/// Maximum of a sequence of outcomes; 0 (the reduction's identity) for the
/// empty sequence.
pub open spec fn seq_max(s: Seq<u32>) -> u32
    decreases s.len(),
{
    if s.len() == 0 {
        0u32
    } else {
        let rest = seq_max(s.drop_last());
        if s.last() > rest {
            s.last()
        } else {
            rest
        }
    }
}

/// Splitting a range anywhere, reducing the two parts independently and
/// combining the partial maxima with max gives the same value as one pass
/// over the whole range.
pub proof fn lemma_seq_max_concat(s1: Seq<u32>, s2: Seq<u32>)
    ensures
        seq_max(s1 + s2) == if seq_max(s1) > seq_max(s2) {
            seq_max(s1)
        } else {
            seq_max(s2)
        },
    decreases s2.len(),
{
    if s2.len() == 0 {
        assert(s1 + s2 =~= s1);
    } else {
        lemma_seq_max_concat(s1, s2.drop_last());
        assert((s1 + s2).drop_last() =~= s1 + s2.drop_last());
        assert((s1 + s2).last() == s2.last());
    }
}

/// A nonempty run of identical outcomes reduces to that outcome.
pub proof fn lemma_seq_max_constant(s: Seq<u32>, c: u32)
    requires
        s.len() > 0,
        forall|i: int| 0 <= i < s.len() ==> s[i] == c,
    ensures
        seq_max(s) == c,
    decreases s.len(),
{
    assert(s.last() == s[s.len() - 1] && s.last() == c);
    assert(seq_max(s) == if s.last() > seq_max(s.drop_last()) {
        s.last()
    } else {
        seq_max(s.drop_last())
    });
    if s.len() > 1 {
        assert(forall|i: int| 0 <= i < s.drop_last().len() ==> s.drop_last()[i] == s[i]);
        lemma_seq_max_constant(s.drop_last(), c);
    } else {
        assert(s.drop_last().len() == 0);
        assert(seq_max(s.drop_last()) == 0);
    }
}

/// One pluggable trial strategy. A worker owns the private generator state
/// of one chunk; `run_trial` performs one draw-combine-count trial against
/// it. `trial_post` is what one trial promises: for the deterministic
/// engines it pins the next state and the outcome exactly, for outside
/// generators it is the width bound alone.
pub trait Worker: Sized {
    /// Well-formedness of the worker's private state.
    spec fn wf(&self) -> bool;

    /// The trial's bit-width: the greatest outcome one trial can produce.
    spec fn width() -> u32;

    /// Relates the state before one trial, the state after it, and the
    /// outcome.
    spec fn trial_post(pre: Self, post: Self, r: u32) -> bool;

    /// Relates the entropy source before and after initialization to the
    /// created worker: the deterministic engines pin their seeds, and how
    /// many seeds they consumed, through it.
    spec fn init_post(pre: EntropySource, post: EntropySource, w: Self) -> bool;

    /// Creates one private worker state, drawing its seeds from the shared
    /// entropy source; no other worker ever touches this state.
    fn init_worker(entropy: &mut EntropySource) -> (w: Self)
        ensures
            w.wf(),
            Self::init_post(*old(entropy), *final(entropy), w),
    ;

    /// One trial: draw, combine, count.
    fn run_trial(&mut self) -> (r: u32)
        requires
            old(self).wf(),
        ensures
            final(self).wf(),
            r <= Self::width(),
            Self::trial_post(*old(self), *final(self), r),
    ;
}

/// An outcome some single trial of `W` could produce.
pub open spec fn possible_outcome<W: Worker>(r: u32) -> bool {
    exists|pre: W, post: W| pre.wf() && post.wf() && W::trial_post(pre, post, r)
}

/// Every outcome in the sequence is one some trial of `W` could produce.
pub open spec fn all_possible<W: Worker>(outs: Seq<u32>) -> bool {
    forall|i: int| 0 <= i < outs.len() ==> possible_outcome::<W>(#[trigger] outs[i])
}

/// The outcomes of one worker's chunk, chained state to state.
pub open spec fn trial_chain<W: Worker>(sts: Seq<W>, outs: Seq<u32>) -> bool {
    &&& sts.len() == outs.len() + 1
    &&& forall|i: int| 0 <= i < sts.len() ==> (#[trigger] sts[i]).wf()
    &&& forall|i: int| 0 <= i < outs.len() ==> W::trial_post(sts[i], sts[i + 1], #[trigger] outs[i])
}

/// One chunk of a run: a worker initialized from the entropy source
/// (stepping it to `e_post`), then a chain of trials starting at that
/// worker's state, one outcome per index of the chunk.
pub open spec fn one_chunk<W: Worker>(
    e_pre: EntropySource,
    outs: Seq<u32>,
    e_post: EntropySource,
) -> bool {
    exists|w0: W, sts: Seq<W>|
        #![trigger W::init_post(e_pre, e_post, w0), trial_chain::<W>(sts, outs)]
        {
            &&& W::init_post(e_pre, e_post, w0)
            &&& w0.wf()
            &&& trial_chain::<W>(sts, outs)
            &&& sts.first() == w0
        }
}

/// A whole run: the chunks in order, each worker initialized exactly once
/// from the source the previous chunk's initialization left behind (trials
/// never touch the source), and each chunk's outcomes chained state to
/// state through that one worker.
pub open spec fn engine_run<W: Worker>(
    e0: EntropySource,
    chunks: Seq<Seq<u32>>,
    e_end: EntropySource,
) -> bool
    decreases chunks.len(),
{
    if chunks.len() == 0 {
        e_end == e0
    } else {
        exists|e_mid: EntropySource|
            #![trigger one_chunk::<W>(e_mid, chunks.last(), e_end)]
            (engine_run::<W>(e0, chunks.drop_last(), e_mid) && one_chunk::<W>(
                e_mid,
                chunks.last(),
                e_end,
            ))
    }
}

/// The chunk length the engine uses: an equal share of the iteration space
/// per worker, at least 1.
pub open spec fn chunk_size(num_iter: u64, workers: usize) -> u64 {
    let w: u64 = if workers == 0 {
        1u64
    } else {
        workers as u64
    };
    let q = num_iter / w;
    if q == 0 {
        1u64
    } else {
        q
    }
}

/// The partition the engine chooses: every chunk nonempty, and every chunk
/// but the last of the full per-worker share. Together with the total trial
/// count this determines the partition completely.
pub open spec fn chunks_sized(num_iter: u64, workers: usize, chunks: Seq<Seq<u32>>) -> bool {
    forall|k: int|
        0 <= k < chunks.len() ==> (#[trigger] chunks[k]).len() >= 1 && (k < chunks.len() - 1
            ==> chunks[k].len() == chunk_size(num_iter, workers))
}

/// A full run from the process entropy source: what each variant function
/// promises beyond `reduction_contract`.
pub open spec fn process_run<W: Worker>(num_iter: u64, r: u32) -> bool {
    exists|chunks: Seq<Seq<u32>>, e_end: EntropySource|
        #![trigger engine_run::<W>(EntropySource::Process, chunks, e_end)]
        {
            &&& engine_run::<W>(EntropySource::Process, chunks, e_end)
            &&& chunks.flatten().len() == num_iter
            &&& r == seq_max(chunks.flatten())
        }
}

/// What a whole reduction promises: one outcome per requested trial, each
/// an outcome a trial of `W` could produce, folded with max from 0.
pub open spec fn reduction_contract<W: Worker>(num_iter: u64, r: u32) -> bool {
    &&& r <= W::width()
    &&& (num_iter == 0 ==> r == 0)
    &&& exists|outs: Seq<u32>|
        #![trigger all_possible::<W>(outs)]
        (outs.len() == num_iter && all_possible::<W>(outs) && r == seq_max(outs))
}

/// Runs `count` trials against one worker's private state and folds the
/// outcomes with max, seeded at the identity 0. The outcome sequence is
/// exactly the chain of `trial_post` steps from the incoming state.
pub fn reduce_worker<W: Worker>(w: &mut W, count: u64) -> (r: u32)
    requires
        old(w).wf(),
    ensures
        final(w).wf(),
        r <= W::width(),
        count == 0 ==> r == 0 && *final(w) == *old(w),
        exists|sts: Seq<W>, outs: Seq<u32>|
            #![trigger trial_chain::<W>(sts, outs)]
            {
                &&& trial_chain::<W>(sts, outs)
                &&& outs.len() == count
                &&& sts.first() == *old(w)
                &&& sts.last() == *final(w)
                &&& r == seq_max(outs)
            },
{
    let ghost w0 = *w;
    let ghost mut sts: Seq<W> = seq![*w];
    let ghost mut outs: Seq<u32> = Seq::empty();
    let mut best: u32 = 0;
    let mut i: u64 = 0;
    while i < count
        invariant
            i <= count,
            w.wf(),
            trial_chain::<W>(sts, outs),
            outs.len() == i,
            sts.first() == w0,
            sts.last() == *w,
            best == seq_max(outs),
            best <= W::width(),
        decreases count - i,
    {
        let ghost pre_state = *w;
        let ghost prev_sts = sts;
        let ghost prev_outs = outs;
        let o = w.run_trial();
        proof {
            sts = sts.push(*w);
            outs = outs.push(o);
            assert(sts.drop_last() =~= prev_sts);
            assert(outs.drop_last() =~= prev_outs);
            assert(W::trial_post(pre_state, *w, o));
            assert forall|j: int| 0 <= j < outs.len() implies W::trial_post(
                sts[j],
                sts[j + 1],
                #[trigger] outs[j],
            ) by {
                if j < prev_outs.len() {
                    assert(W::trial_post(prev_sts[j], prev_sts[j + 1], prev_outs[j]));
                }
            }
        }
        if o > best {
            best = o;
        }
        i = i + 1;
    }
    proof {
        assert(trial_chain::<W>(sts, outs));
        if count == 0 {
            assert(sts.len() == 1);
        }
    }
    best
}

/// The engine: partitions `[0, num_iter)` into contiguous chunks sized for
/// `workers`, creates one freshly seeded private worker per chunk, runs one
/// trial per index, and folds every outcome with max. For `num_iter == 0`
/// it returns 0 without touching the entropy source or any generator.
pub fn reduce<W: Worker>(num_iter: u64, workers: usize, entropy: &mut EntropySource) -> (r: u32)
    ensures
        reduction_contract::<W>(num_iter, r),
        num_iter == 0 ==> *final(entropy) == *old(entropy),
        exists|chunks: Seq<Seq<u32>>|
            #![trigger engine_run::<W>(*old(entropy), chunks, *final(entropy))]
            {
                &&& engine_run::<W>(*old(entropy), chunks, *final(entropy))
                &&& chunks_sized(num_iter, workers, chunks)
                &&& chunks.flatten().len() == num_iter
                &&& r == seq_max(chunks.flatten())
            },
{
    let ghost e0 = *entropy;
    if num_iter == 0 {
        proof {
            let outs0 = Seq::<u32>::empty();
            assert(all_possible::<W>(outs0));
            assert(seq_max(outs0) == 0);
            let chunks0 = Seq::<Seq<u32>>::empty();
            assert(engine_run::<W>(e0, chunks0, e0));
            assert(chunks0.flatten() =~= Seq::<u32>::empty());
        }
        return 0;
    }
    let w_count: u64 = if workers == 0 {
        1
    } else {
        workers as u64
    };
    let q = num_iter / w_count;
    let chunk: u64 = if q == 0 {
        1
    } else {
        q
    };
    let mut done: u64 = 0;
    let mut best: u32 = 0;
    let ghost mut all_outs: Seq<u32> = Seq::<u32>::empty();
    let ghost mut chunks: Seq<Seq<u32>> = Seq::<Seq<u32>>::empty();
    while done < num_iter
        invariant
            done <= num_iter,
            1 <= chunk,
            all_outs.len() == done,
            all_possible::<W>(all_outs),
            best == seq_max(all_outs),
            best <= W::width(),
            engine_run::<W>(e0, chunks, *entropy),
            all_outs == chunks.flatten(),
            chunk == chunk_size(num_iter, workers),
            forall|k: int|
                0 <= k < chunks.len() ==> (#[trigger] chunks[k]).len() >= 1 && (chunks[k].len()
                    == chunk || (done == num_iter && k == chunks.len() - 1)),
        decreases num_iter - done,
    {
        let remaining = num_iter - done;
        let len = if chunk < remaining {
            chunk
        } else {
            remaining
        };
        let ghost e_pre = *entropy;
        let mut w = W::init_worker(entropy);
        let ghost w_init = w;
        let ghost e_post = *entropy;
        let part = reduce_worker(&mut w, len);
        proof {
            let (sts, outs) = choose|sts: Seq<W>, outs: Seq<u32>|
                #![trigger trial_chain::<W>(sts, outs)]
                {
                    &&& trial_chain::<W>(sts, outs)
                    &&& outs.len() == len
                    &&& sts.first() == w_init
                    &&& part == seq_max(outs)
                };
            assert(trial_chain::<W>(sts, outs) && outs.len() == len && part == seq_max(outs));
            assert forall|j: int| 0 <= j < outs.len() implies possible_outcome::<W>(
                #[trigger] outs[j],
            ) by {
                assert(W::trial_post(sts[j], sts[j + 1], outs[j]));
                assert(sts[j].wf() && sts[j + 1].wf());
            }
            lemma_seq_max_concat(all_outs, outs);
            let ghost prev_all = all_outs;
            let ghost prev_chunks = chunks;
            all_outs = all_outs + outs;
            chunks = chunks.push(outs);
            assert forall|j: int| 0 <= j < all_outs.len() implies possible_outcome::<W>(
                #[trigger] all_outs[j],
            ) by {
                if j < prev_all.len() {
                    assert(all_outs[j] == prev_all[j]);
                } else {
                    assert(all_outs[j] == outs[j - prev_all.len()]);
                }
            }
            assert(W::init_post(e_pre, e_post, w_init));
            assert(one_chunk::<W>(e_pre, outs, e_post));
            assert(chunks.drop_last() =~= prev_chunks);
            assert(chunks.last() == outs);
            assert(one_chunk::<W>(e_pre, chunks.last(), e_post));
            assert(engine_run::<W>(e0, chunks, e_post));
            prev_chunks.lemma_flatten_push(outs);
            assert(chunks.flatten() == prev_chunks.flatten() + outs);
        }
        if part > best {
            best = part;
        }
        done = done + len;
    }
    best
}

/// One worker's share of a run, from a fresh process-seeded worker: what a
/// parallel driver calls once per chunk before combining the partial maxima
/// itself.
pub fn run_chunk<W: Worker>(count: u64) -> (r: u32)
    ensures
        r <= W::width(),
        count == 0 ==> r == 0,
        exists|outs: Seq<u32>|
            #![trigger all_possible::<W>(outs)]
            (outs.len() == count && all_possible::<W>(outs) && r == seq_max(outs)),
{
    let mut entropy = EntropySource::Process;
    let mut w = W::init_worker(&mut entropy);
    let r = reduce_worker(&mut w, count);
    proof {
        let (sts, outs) = choose|sts: Seq<W>, outs: Seq<u32>|
            #![trigger trial_chain::<W>(sts, outs)]
            {
                &&& trial_chain::<W>(sts, outs)
                &&& outs.len() == count
                &&& r == seq_max(outs)
            };
        assert(trial_chain::<W>(sts, outs) && outs.len() == count && r == seq_max(outs));
        assert forall|j: int| 0 <= j < outs.len() implies possible_outcome::<W>(
            #[trigger] outs[j],
        ) by {
            assert(W::trial_post(sts[j], sts[j + 1], outs[j]));
            assert(sts[j].wf() && sts[j + 1].wf());
        }
        assert(all_possible::<W>(outs));
    }
    r
}

} // verus!
