use vstd::prelude::*;
use crate::pipeline::{WindowBuffer, WINDOW_SIZE};

verus! {

/// The writing end of a bounded sample queue whose reading end may live on another thread.
#[verifier::external_body]
#[verifier::reject_recursive_types(T)]
pub struct QueueWriter<T> {
    inner: ringbuf::HeapProducer<T>,
}

/// A queue's writing end together with a record of every sample it has accepted, oldest first.
#[verifier::reject_recursive_types(T)]
pub struct SampleWriter<T> {
    queue: QueueWriter<T>,
    accepted: Ghost<Seq<T>>,
}

impl<T> SampleWriter<T> {
    /// The samples this writer has put into its queue so far, in order.
    pub closed spec fn accepted(&self) -> Seq<T> {
        self.accepted@
    }
}

/// The reading end of a bounded sample queue whose writing end may live on another thread.
#[verifier::external_body]
#[verifier::reject_recursive_types(T)]
pub struct SampleReader<T> {
    inner: ringbuf::HeapConsumer<T>,
}

/// Relies on `ringbuf::HeapRb::new` and `SharedRb::split`: a queue of `capacity` slots,
/// split into its writing and reading ends. `HeapRb::new` panics on a capacity of zero.
#[verifier::external_body]
fn split_queue<T>(capacity: usize) -> (r: (QueueWriter<T>, SampleReader<T>))
    requires
        capacity > 0,
{
    let (p, c) = ringbuf::HeapRb::<T>::new(capacity).split();
    (QueueWriter { inner: p }, SampleReader { inner: c })
}

/// Relies on `ringbuf::Producer::is_full`: whether the queue had no free slot when asked.
/// The reader runs on another thread, so nothing more is known.
#[verifier::external_body]
fn writer_is_full<T>(w: &QueueWriter<T>) -> (r: bool) {
    w.inner.is_full()
}

/// Relies on `ringbuf::Producer::push`: appends the sample, or hands it back in `Err`
/// when the queue is full.
#[verifier::external_body]
fn push_sample<T>(w: &mut QueueWriter<T>, s: T) -> (r: Result<(), T>)
    ensures
        r matches Err(x) ==> x == s,
{
    w.inner.push(s)
}

/// Relies on `ringbuf::Consumer::pop`: takes the oldest queued sample, `None` when the
/// queue is empty. The writer runs on another thread, so nothing more is known.
#[verifier::external_body]
fn pop_sample<T>(r: &mut SampleReader<T>) -> (o: Option<T>) {
    r.inner.pop()
}

/// A sample queue of `capacity` slots, or `None` for a capacity of zero.
pub fn open_queue<T>(capacity: usize) -> (r: Option<(SampleWriter<T>, SampleReader<T>)>)
    ensures
        r is None <==> capacity == 0,
        r matches Some(q) ==> q.0.accepted() == Seq::<T>::empty(),
{
    if capacity == 0 {
        None
    } else {
        let (queue, reader) = split_queue(capacity);
        Some((SampleWriter { queue, accepted: Ghost(Seq::empty()) }, reader))
    }
}

impl<T> SampleWriter<T> {
    /// Offers one sample to the queue; on success it joins the record of accepted samples.
    fn offer(&mut self, s: T) -> (ok: bool)
        ensures
            ok ==> final(self).accepted() == old(self).accepted().push(s),
            !ok ==> final(self).accepted() == old(self).accepted(),
    {
        match push_sample(&mut self.queue, s) {
            Ok(()) => {
                self.accepted = Ghost(self.accepted@.push(s));
                true
            },
            Err(_) => false,
        }
    }
}

/// Whether one decoded sample reached the playback queue.
#[derive(Clone, Copy, PartialEq, Eq, Structural, Debug)]
pub enum Delivery {
    Delivered,
    PlaybackFull,
}

impl<T> SampleReader<T> {
    /// The oldest queued sample, if one is ready; never waits.
    pub fn next_sample(&mut self) -> (r: Option<T>) {
        pop_sample(self)
    }
}

/// Hands one decoded sample to both queues. The playback queue must never lose audio:
/// when it is full nothing is pushed anywhere, and the caller waits and offers the same
/// sample again. The analysis queue only gets it on a best-effort basis, and only once
/// the playback queue has taken it.
pub fn deliver<T: Copy>(playback: &mut SampleWriter<T>, analysis: &mut SampleWriter<T>, s: T) -> (r: Delivery)
    ensures
        r == Delivery::Delivered ==> final(playback).accepted() == old(playback).accepted().push(s)
            && (final(analysis).accepted() == old(analysis).accepted() || final(analysis).accepted()
            == old(analysis).accepted().push(s)),
        r == Delivery::PlaybackFull ==> final(playback).accepted() == old(playback).accepted()
            && final(analysis).accepted() == old(analysis).accepted(),
{
    if writer_is_full(&playback.queue) {
        return Delivery::PlaybackFull;
    }
    if playback.offer(s) {
        let _ = analysis.offer(s);
        Delivery::Delivered
    } else {
        Delivery::PlaybackFull
    }
}

/// One step of draining the queue into the analysis window: a popped sample joins the
/// window's end. Returns whether the window still wants samples and the queue had one.
pub fn absorb<T>(window: &mut WindowBuffer<T>, popped: Option<T>) -> (more: bool)
    requires
        old(window).wf(),
        old(window).samples@.len() < WINDOW_SIZE,
    ensures
        final(window).wf(),
        popped matches Some(x) ==> final(window).samples@ == old(window).samples@.push(x) && more == (
        final(window).samples@.len() < WINDOW_SIZE),
        popped is None ==> final(window).samples@ == old(window).samples@ && !more,
{
    match popped {
        Some(x) => {
            window.push(x);
            !window.is_full()
        },
        None => false,
    }
}

/// Moves queued samples into the analysis window until the window is whole or the queue
/// has nothing ready; never waits. What was gathered before stays in front.
pub fn gather_window<T>(window: &mut WindowBuffer<T>, source: &mut SampleReader<T>)
    requires
        old(window).wf(),
    ensures
        final(window).wf(),
        old(window).samples@.len() <= final(window).samples@.len(),
        final(window).samples@.subrange(0, old(window).samples@.len() as int) == old(window).samples@,
{
    let ghost start = window.samples@;
    let mut more = !window.is_full();
    while more
        invariant
            window.wf(),
            start.len() <= window.samples@.len(),
            window.samples@.subrange(0, start.len() as int) == start,
            more ==> window.samples@.len() < WINDOW_SIZE,
        decreases WINDOW_SIZE - window.samples@.len() + if more { 1int } else { 0int },
    {
        let ghost before = window.samples@;
        more = absorb(window, pop_sample(source));
        assert(window.samples@.subrange(0, start.len() as int) =~= before.subrange(
            0,
            start.len() as int,
        ));
    }
}

} // verus!
