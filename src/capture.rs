use vstd::prelude::*;

use crate::error::AudioError;
use crate::sample::{encoding_of, normalize_batch, normalized, RawBatch, Sample};

verus! {

/// The samples captured so far, normalized, in delivery order.
///
/// Samples are only ever appended; nothing is removed or reordered until the
/// buffer is drained once, after capture has stopped.
pub struct CaptureBuffer {
    samples: Vec<Sample>,
}

impl View for CaptureBuffer {
    type V = Seq<Sample>;

    closed spec fn view(&self) -> Seq<Sample> {
        self.samples@
    }
}

impl CaptureBuffer {
    /// An empty buffer, at the start of a capture session.
    pub fn new() -> (r: CaptureBuffer)
        ensures
            r@ == Seq::<Sample>::empty(),
    {
        CaptureBuffer { samples: Vec::new() }
    }

    /// How many samples have been captured.
    pub fn len(&self) -> (r: usize)
        ensures
            r == self@.len(),
    {
        self.samples.len()
    }

    /// Normalizes a batch and appends it. A batch in an encoding that is not
    /// recognized is refused, and the buffer is left as it was.
    pub fn append_batch(&mut self, batch: &RawBatch) -> (r: Result<(), AudioError>)
        ensures
            encoding_of(batch.format()) is Some <==> r is Ok,
            r is Ok ==> final(self)@ == old(self)@ + normalized(*batch),
            r is Err ==> r == Err::<(), AudioError>(AudioError::UnsupportedFormat),
            r is Err ==> final(self)@ == old(self)@,
    {
        match normalize_batch(batch) {
            Ok(mut v) => {
                self.samples.append(&mut v);
                Ok(())
            },
            Err(e) => Err(e),
        }
    }

    /// Hands over everything captured, in delivery order, retiring the buffer.
    pub fn take_all(self) -> (r: Vec<Sample>)
        ensures
            r@ == self@,
    {
        self.samples
    }
}

/// Appending batches one after another to an empty buffer, and then
/// draining it, yields the normalizations of the batches concatenated in
/// submission order: nothing is lost or reordered. `states[i]` is the buffer's
/// view before the `i`-th append, related to the next one as
/// `CaptureBuffer::append_batch` ensures (a refused batch normalizes to nothing
/// and leaves the buffer as it was).
pub proof fn lemma_drain_is_concatenation(states: Seq<Seq<Sample>>, batches: Seq<RawBatch>)
    requires
        states.len() == batches.len() + 1,
        states[0] == Seq::<Sample>::empty(),
        forall|i: int|
            0 <= i < batches.len() ==> #[trigger] states[i + 1] == states[i] + normalized(
                batches[i],
            ),
    ensures
        states.last() == batches.map_values(|b: RawBatch| normalized(b)).flatten(),
    decreases batches.len(),
{
    let f = |b: RawBatch| normalized(b);
    if batches.len() == 0 {
        assert(batches.map_values(f) == Seq::<Seq<Sample>>::empty());
    } else {
        let n = batches.len() - 1;
        let init_states = states.drop_last();
        let init = batches.drop_last();
        assert forall|i: int| 0 <= i < init.len() implies #[trigger] init_states[i + 1]
            == init_states[i] + normalized(init[i]) by {
            assert(states[i + 1] == states[i] + normalized(batches[i]));
        }
        lemma_drain_is_concatenation(init_states, init);
        assert(states[n + 1] == states[n] + normalized(batches[n]));
        assert(batches.map_values(f) == init.map_values(f).push(normalized(batches.last())));
        init.map_values(f).lemma_flatten_push(normalized(batches.last()));
    }
}

} // verus!
