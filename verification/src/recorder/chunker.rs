//! The frame buffer: samples arrive in slices of any length and leave in
//! chunks of one fixed length, in the order in which they came.

use vstd::prelude::*;

verus! {

/// The number of samples in one chunk of the recorder.
pub const CHUNK_SIZE: usize = 512;

/// The full chunks that `samples` holds, first to last.
pub open spec fn chunks_of<T>(samples: Seq<T>, size: nat) -> Seq<Seq<T>>
    decreases samples.len(),
{
    if size == 0 || samples.len() < size {
        Seq::empty()
    } else {
        seq![samples.take(size as int)] + chunks_of(samples.skip(size as int), size)
    }
}

/// What is left of `samples` once its full chunks are taken: fewer samples
/// than one chunk.
pub open spec fn remainder_of<T>(samples: Seq<T>, size: nat) -> Seq<T>
    decreases samples.len(),
{
    if size == 0 || samples.len() < size {
        samples
    } else {
        remainder_of(samples.skip(size as int), size)
    }
}

/// The contents of each chunk in a vector of chunks.
pub open spec fn chunk_views<T>(chunks: Seq<Vec<T>>) -> Seq<Seq<T>> {
    chunks.map_values(|chunk: Vec<T>| chunk@)
}

/// Chunking loses and reorders nothing: the chunks, put end to end, and the
/// remainder behind them are the samples again. Every chunk is full, the
/// remainder is not; and samples that fill a whole number of chunks leave no
/// remainder, so that their chunks put end to end are exactly the samples.
pub proof fn lemma_chunks_reassemble<T>(samples: Seq<T>, size: nat)
    requires
        size > 0,
    ensures
        chunks_of(samples, size).flatten() + remainder_of(samples, size) =~= samples,
        forall|i: int|
            0 <= i < chunks_of(samples, size).len() ==> (#[trigger] chunks_of(
                samples,
                size,
            )[i]).len() == size,
        remainder_of(samples, size).len() < size,
        remainder_of(samples, size).len() == samples.len() % size,
        chunks_of(samples, size).len() == samples.len() / size,
        samples.len() % size == 0 ==> chunks_of(samples, size).flatten() =~= samples,
    decreases samples.len(),
{
    if samples.len() < size {
        assert(chunks_of(samples, size).flatten() =~= Seq::<T>::empty());
        assert(samples.len() % size == samples.len() && samples.len() / size == 0)
            by (nonlinear_arith)
            requires
                0 <= samples.len() < size,
        ;
    } else {
        let head = samples.take(size as int);
        let tail = samples.skip(size as int);
        lemma_chunks_reassemble(tail, size);
        let rest = chunks_of(tail, size);
        let all = chunks_of(samples, size);
        assert(all =~= seq![head] + rest);
        assert(all.first() == head);
        assert(all.drop_first() =~= rest);
        assert(all.flatten() =~= head + rest.flatten());
        assert(head + tail =~= samples);
        assert forall|i: int| 0 <= i < all.len() implies (#[trigger] all[i]).len() == size by {
            if i > 0 {
                assert(all[i] == rest[i - 1]);
            }
        }
        assert(samples.len() % size == (samples.len() - size) % (size as int)
            && samples.len() / size == (samples.len() - size) / (size as int) + 1)
            by (nonlinear_arith)
            requires
                size > 0,
                samples.len() >= size,
        ;
        if samples.len() % size == 0 {
            assert(remainder_of(samples, size).len() == 0);
            assert(all.flatten() + remainder_of(samples, size) =~= all.flatten());
        }
    }
}

/// Chunking does not depend on how the samples were cut on arrival: what a
/// first slice leaves behind joins the next slice, and the chunks of both
/// calls together are the chunks of the whole stream.
pub proof fn lemma_chunks_streaming<T>(first: Seq<T>, second: Seq<T>, size: nat)
    requires
        size > 0,
    ensures
        chunks_of(first + second, size) =~= chunks_of(first, size) + chunks_of(
            remainder_of(first, size) + second,
            size,
        ),
        remainder_of(first + second, size) == remainder_of(
            remainder_of(first, size) + second,
            size,
        ),
    decreases first.len(),
{
    if first.len() >= size {
        let tail = first.skip(size as int);
        lemma_chunks_streaming(tail, second, size);
        assert((first + second).take(size as int) =~= first.take(size as int));
        assert((first + second).skip(size as int) =~= tail + second);
    }
}

/// The mathematical value of a [`FrameBuffer`].
pub struct FrameBufferView<T> {
    /// The length of the chunks that leave the buffer.
    pub chunk_size: nat,
    /// The samples that arrived and have not left, oldest first.
    pub pending: Seq<T>,
}

/// A queue of samples that hands them out in chunks of one length.
pub struct FrameBuffer<T> {
    chunk_size: usize,
    pending: Vec<T>,
}

impl<T> View for FrameBuffer<T> {
    type V = FrameBufferView<T>;

    closed spec fn view(&self) -> FrameBufferView<T> {
        FrameBufferView { chunk_size: self.chunk_size as nat, pending: self.pending@ }
    }
}

impl<T> FrameBuffer<T> {
    /// The invariant of every buffer that [`FrameBuffer::new`] made: its
    /// chunks hold at least one sample.
    pub open spec fn wf(&self) -> bool {
        self@.chunk_size > 0
    }

    /// An empty buffer for chunks of `chunk_size` samples; `None` for chunks
    /// of no samples, which could never be told apart.
    pub fn new(chunk_size: usize) -> (buffer: Option<FrameBuffer<T>>)
        ensures
            chunk_size == 0 <==> buffer is None,
            buffer matches Some(b) ==> b.wf() && b@ == (FrameBufferView::<T> {
                chunk_size: chunk_size as nat,
                pending: Seq::empty(),
            }),
    {
        if chunk_size == 0 {
            None
        } else {
            Some(FrameBuffer { chunk_size, pending: Vec::new() })
        }
    }

    /// The length of the chunks.
    pub fn chunk_size(&self) -> (size: usize)
        ensures
            size == self@.chunk_size,
    {
        self.chunk_size
    }

    /// The number of samples waiting in the buffer.
    pub fn pending_len(&self) -> (count: usize)
        ensures
            count == self@.pending.len(),
    {
        self.pending.len()
    }

    /// Takes one full chunk from the front, the oldest samples first;
    /// `None`, and nothing taken, while fewer samples than a chunk wait.
    pub fn next_chunk(&mut self) -> (chunk: Option<Vec<T>>)
        ensures
            final(self)@.chunk_size == old(self)@.chunk_size,
            old(self)@.pending.len() < old(self)@.chunk_size ==> chunk is None && final(self)@
                == old(self)@,
            old(self)@.pending.len() >= old(self)@.chunk_size ==> chunk is Some && chunk->0@
                == old(self)@.pending.take(old(self)@.chunk_size as int) && final(self)@.pending
                == old(self)@.pending.skip(old(self)@.chunk_size as int),
    {
        if self.pending.len() < self.chunk_size {
            None
        } else {
            let mut taken = self.pending.split_off(self.chunk_size);
            core::mem::swap(&mut self.pending, &mut taken);
            Some(taken)
        }
    }

    /// Takes every full chunk from the front, in order, and leaves what does
    /// not fill a chunk for the samples that come next.
    pub fn drain_chunks(&mut self) -> (chunks: Vec<Vec<T>>)
        requires
            old(self).wf(),
        ensures
            final(self)@.chunk_size == old(self)@.chunk_size,
            chunk_views(chunks@) =~= chunks_of(old(self)@.pending, old(self)@.chunk_size),
            final(self)@.pending == remainder_of(old(self)@.pending, old(self)@.chunk_size),
    {
        let mut chunks: Vec<Vec<T>> = Vec::new();
        while self.pending.len() >= self.chunk_size
            invariant
                self@.chunk_size == old(self)@.chunk_size,
                self@.chunk_size > 0,
                chunk_views(chunks@) + chunks_of(self@.pending, self@.chunk_size) =~= chunks_of(
                    old(self)@.pending,
                    old(self)@.chunk_size,
                ),
                remainder_of(self@.pending, self@.chunk_size) == remainder_of(
                    old(self)@.pending,
                    old(self)@.chunk_size,
                ),
            decreases self@.pending.len(),
        {
            let ghost before = chunks@;
            let ghost waiting = self@.pending;
            let chunk = self.next_chunk().unwrap();
            chunks.push(chunk);
            assert(chunk_views(chunks@) =~= chunk_views(before) + seq![
                waiting.take(self@.chunk_size as int),
            ]);
        }
        chunks
    }
}

impl<T: Copy> FrameBuffer<T> {
    /// Appends the samples of one callback behind those that wait.
    pub fn extend(&mut self, samples: &[T])
        ensures
            final(self)@ == (FrameBufferView {
                pending: old(self)@.pending + samples@,
                ..old(self)@
            }),
    {
        let mut i: usize = 0;
        while i < samples.len()
            invariant
                i <= samples.len(),
                self@.chunk_size == old(self)@.chunk_size,
                self@.pending =~= old(self)@.pending + samples@.take(i as int),
            decreases samples.len() - i,
        {
            self.pending.push(samples[i]);
            i += 1;
        }
        assert(samples@.take(i as int) =~= samples@);
    }
}

} // verus!
