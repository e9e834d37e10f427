//! Collecting a sequence of fallible byte chunks into one buffer.
//!
//! Reading the chunks (which may suspend) is left to the caller: it hands
//! each chunk, or the end of the sequence, to [`next_step`], which says
//! whether to read on or what the outcome is.

use vstd::prelude::*;

verus! {

/// What a chunk holds, in terms of byte sequences.
pub open spec fn chunk_view<E>(c: Result<Vec<u8>, E>) -> Result<Seq<u8>, E> {
    match c {
        Ok(b) => Ok(b@),
        Err(e) => Err(e),
    }
}

/// A sequence of chunks, in terms of byte sequences.
pub open spec fn chunks_view<E>(cs: Seq<Result<Vec<u8>, E>>) -> Seq<Result<Seq<u8>, E>> {
    cs.map_values(|c: Result<Vec<u8>, E>| chunk_view(c))
}

/// The outcome of collecting `chunks` in order: the concatenation of all
/// fragments, or the first error.
pub open spec fn collected<E>(chunks: Seq<Result<Seq<u8>, E>>) -> Result<Seq<u8>, E>
    decreases chunks.len(),
{
    if chunks.len() == 0 {
        Ok(Seq::empty())
    } else {
        match collected(chunks.drop_last()) {
            Err(e) => Err(e),
            Ok(prefix) => match chunks.last() {
                Ok(fragment) => Ok(prefix + fragment),
                Err(e) => Err(e),
            },
        }
    }
}

/// The bytes gathered so far.
pub struct Collector {
    raw: Vec<u8>,
}

impl View for Collector {
    type V = Seq<u8>;

    closed spec fn view(&self) -> Seq<u8> {
        self.raw@
    }
}

impl Collector {
    /// A collector that holds nothing yet.
    pub fn new() -> (r: Collector)
        ensures
            r@ == Seq::<u8>::empty(),
    {
        Collector { raw: Vec::new() }
    }

    /// Appends a fragment.
    pub fn push(&mut self, fragment: &[u8])
        ensures
            final(self)@ == old(self)@ + fragment@,
    {
        let mut i: usize = 0;
        while i < fragment.len()
            invariant
                0 <= i <= fragment@.len(),
                self@ == old(self)@ + fragment@.take(i as int),
            decreases fragment@.len() - i,
        {
            self.raw.push(fragment[i]);
            i = i + 1;
            assert(fragment@.take(i as int) == fragment@.take(i - 1) + seq![fragment@[i - 1]]);
        }
        assert(fragment@.take(fragment@.len() as int) == fragment@);
    }

    /// The gathered bytes.
    pub fn into_raw(self) -> (r: Vec<u8>)
        ensures
            r@ == self@,
    {
        self.raw
    }
}

/// What to do after one read of the chunk sequence.
pub enum Step<E> {
    /// Read the next chunk.
    Continue(Collector),
    /// Stop: this is the outcome.
    Done(Result<Vec<u8>, E>),
}

/// Takes what one read of the sequence gave: `None` at its end, else the
/// next chunk. A fragment is appended; an error ends the collection with
/// that error and drops what was gathered; the end gives the gathered bytes.
pub fn next_step<E>(acc: Collector, next: Option<Result<&[u8], E>>) -> (r: Step<E>)
    ensures
        match next {
            None => r matches Step::Done(Ok(v)) && v@ == acc@,
            Some(Ok(fragment)) => r matches Step::Continue(a) && a@ == acc@ + fragment@,
            Some(Err(e)) => r == Step::<E>::Done(Err(e)),
        },
{
    match next {
        None => Step::Done(Ok(acc.into_raw())),
        Some(Ok(fragment)) => {
            let mut acc = acc;
            acc.push(fragment);
            Step::Continue(acc)
        },
        Some(Err(e)) => Step::Done(Err(e)),
    }
}

/// Once a prefix of the chunks fails, the whole sequence fails with the
/// same error.
proof fn lemma_error_persists<E>(chunks: Seq<Result<Seq<u8>, E>>, k: int, e: E)
    requires
        0 <= k <= chunks.len(),
        collected(chunks.take(k)) == Err::<Seq<u8>, E>(e),
    ensures
        collected(chunks) == Err::<Seq<u8>, E>(e),
    decreases chunks.len() - k,
{
    if k == chunks.len() {
        assert(chunks.take(k) == chunks);
    } else {
        let longer = chunks.take(k + 1);
        assert(longer.drop_last() == chunks.take(k));
        lemma_error_persists(chunks, k + 1, e);
    }
}

/// Collects chunks that are all at hand, in order: the concatenation of
/// the fragments, or the first error, after which no chunk is looked at.
pub fn collect_chunks<E>(chunks: Vec<Result<Vec<u8>, E>>) -> (r: Result<Vec<u8>, E>)
    ensures
        chunk_view(r) == collected(chunks_view(chunks@)),
{
    let ghost all = chunks_view(chunks@);
    let total = chunks.len();
    let ghost n = chunks@.len();
    let mut rest = chunks;
    let mut acc = Collector::new();
    let mut i: usize = 0;
    assert(all.take(0) == Seq::<Result<Seq<u8>, E>>::empty());
    while rest.len() > 0
        invariant
            n == all.len(),
            n == total,
            all == chunks_view(chunks@),
            i + rest@.len() == n,
            forall|j: int| 0 <= j < rest@.len() ==> chunk_view(#[trigger] rest@[j]) == all[i + j],
            collected(all.take(i as int)) == Ok::<Seq<u8>, E>(acc@),
        decreases rest@.len(),
    {
        let chunk = rest.remove(0);
        assert(chunk_view(chunk) == all[i as int]);
        let ghost before = all.take(i as int);
        assert(all.take(i + 1).drop_last() == before);
        assert(all.take(i + 1).last() == all[i as int]);
        let step = match chunk {
            Ok(fragment) => next_step(acc, Some(Ok(fragment.as_slice()))),
            Err(e) => next_step(acc, Some(Err(e))),
        };
        match step {
            Step::Continue(a) => {
                acc = a;
                i = i + 1;
            },
            Step::Done(outcome) => {
                proof {
                    let e = all[i as int]->Err_0;
                    lemma_error_persists(all, i + 1, e);
                }
                return outcome;
            },
        }
    }
    assert(all.take(i as int) == all);
    match next_step::<E>(acc, None) {
        Step::Done(outcome) => outcome,
        Step::Continue(a) => Ok(a.into_raw()),
    }
}

/// Collecting fragments that all succeed gives their concatenation, in
/// order.
pub proof fn lemma_collect_concatenates<E>(fragments: Seq<Seq<u8>>)
    ensures
        collected(fragments.map_values(|f: Seq<u8>| Ok::<Seq<u8>, E>(f)))
            == Ok::<Seq<u8>, E>(fragments.flatten()),
    decreases fragments.len(),
{
    let chunks = fragments.map_values(|f: Seq<u8>| Ok::<Seq<u8>, E>(f));
    fragments.lemma_flatten_and_flatten_alt_are_equivalent();
    if fragments.len() > 0 {
        let shorter = fragments.drop_last();
        lemma_collect_concatenates::<E>(shorter);
        assert(chunks.drop_last() == shorter.map_values(|f: Seq<u8>| Ok::<Seq<u8>, E>(f)));
        shorter.lemma_flatten_and_flatten_alt_are_equivalent();
    }
}

/// After successful chunks, an error is the outcome, whatever follows it;
/// the fragments gathered before it are not returned.
pub proof fn lemma_collect_stops_at_error<E>(
    before: Seq<Result<Seq<u8>, E>>,
    e: E,
    after: Seq<Result<Seq<u8>, E>>,
)
    requires
        forall|j: int| 0 <= j < before.len() ==> (#[trigger] before[j]) is Ok,
    ensures
        collected(before + seq![Err::<Seq<u8>, E>(e)] + after) == Err::<Seq<u8>, E>(e),
{
    let all = before + seq![Err::<Seq<u8>, E>(e)] + after;
    let k = (before.len() + 1) as int;
    lemma_prefix_succeeds(before);
    assert(all.take(k).drop_last() == before);
    lemma_error_persists(all, k, e);
}

/// Chunks that all succeed are collected without error.
proof fn lemma_prefix_succeeds<E>(chunks: Seq<Result<Seq<u8>, E>>)
    requires
        forall|j: int| 0 <= j < chunks.len() ==> (#[trigger] chunks[j]) is Ok,
    ensures
        collected(chunks) is Ok,
    decreases chunks.len(),
{
    if chunks.len() > 0 {
        lemma_prefix_succeeds(chunks.drop_last());
    }
}

/// Collecting no chunks gives an empty buffer, not an error.
pub proof fn lemma_collect_empty<E>()
    ensures
        collected(Seq::<Result<Seq<u8>, E>>::empty()) == Ok::<Seq<u8>, E>(Seq::empty()),
{
}

} // verus!
