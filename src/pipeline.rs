use vstd::prelude::*;

verus! {

/// Samples per analysis window.
pub const WINDOW_SIZE: usize = 1024;

/// Seconds of audio that each sample queue can hold.
pub const QUEUE_SECONDS: u64 = 5;

/// Tracks the worker generations of the playback pipeline: at most one is live,
/// and each launch gets an identifier that no earlier launch had.
pub struct Generations {
    pub live: Option<u64>,
    pub issued: u64,
}

impl Generations {
    /// Every live identifier was issued before.
    pub open spec fn wf(&self) -> bool {
        match self.live {
            Some(g) => g < self.issued,
            None => true,
        }
    }

    pub fn new() -> (r: Generations)
        ensures
            r.live is None,
            r.issued == 0,
            r.wf(),
    {
        Generations { live: None, issued: 0 }
    }

    /// Ends the live generation, if any, and returns it so that its workers can be
    /// cancelled and joined.
    pub fn retire(&mut self) -> (r: Option<u64>)
        ensures
            r == old(self).live,
            final(self).live is None,
            final(self).issued == old(self).issued,
    {
        let r = self.live;
        self.live = None;
        r
    }

    /// Starts a new generation once the previous one is retired. Returns `None`, and
    /// changes nothing, only when every identifier has been issued.
    pub fn launch(&mut self) -> (r: Option<u64>)
        requires
            old(self).wf(),
            old(self).live is None,
        ensures
            final(self).wf(),
            old(self).issued < u64::MAX ==> r == Some(old(self).issued) && final(self).live == r
                && final(self).issued == old(self).issued + 1,
            old(self).issued == u64::MAX ==> r is None && *final(self) == *old(self),
    {
        if self.issued == u64::MAX {
            None
        } else {
            let g = self.issued;
            self.issued = g + 1;
            self.live = Some(g);
            Some(g)
        }
    }
}

/// Capacity of a sample queue: `QUEUE_SECONDS` seconds at the stream's sample rate.
pub fn queue_capacity(sample_rate: u32) -> (r: u64)
    ensures
        r == sample_rate as int * QUEUE_SECONDS,
{
    sample_rate as u64 * QUEUE_SECONDS
}

/// The samples that the analyzer has gathered towards its next window.
pub struct WindowBuffer<T> {
    pub samples: Vec<T>,
}

impl<T> WindowBuffer<T> {
    /// The buffer never holds more than one window.
    pub open spec fn wf(&self) -> bool {
        self.samples@.len() <= WINDOW_SIZE
    }

    pub fn new() -> (r: WindowBuffer<T>)
        ensures
            r.samples@.len() == 0,
    {
        WindowBuffer { samples: Vec::new() }
    }

    /// Whether a whole window has been gathered.
    pub fn is_full(&self) -> (r: bool)
        ensures
            r == (self.samples@.len() >= WINDOW_SIZE),
    {
        self.samples.len() >= WINDOW_SIZE
    }

    /// Adds a sample at the end of the window being gathered.
    pub fn push(&mut self, s: T)
        requires
            old(self).wf(),
            old(self).samples@.len() < WINDOW_SIZE,
        ensures
            final(self).wf(),
            final(self).samples@ == old(self).samples@.push(s),
    {
        self.samples.push(s);
    }

    /// Hands out the gathered window, oldest sample first, once it is whole, and starts
    /// the next one empty; gives `None` and keeps the samples while it is not.
    pub fn take_window(&mut self) -> (r: Option<Vec<T>>)
        requires
            old(self).wf(),
        ensures
            final(self).wf(),
            old(self).samples@.len() == WINDOW_SIZE ==> r is Some && r->Some_0@ == old(self).samples@
                && final(self).samples@.len() == 0,
            old(self).samples@.len() < WINDOW_SIZE ==> r is None && final(self).samples@ == old(self).samples@,
    {
        if self.samples.len() >= WINDOW_SIZE {
            let mut out: Vec<T> = Vec::new();
            std::mem::swap(&mut out, &mut self.samples);
            Some(out)
        } else {
            None
        }
    }
}

/// The non-redundant half of a spectrum of a real-valued signal: its first `len / 2` bins.
pub fn half_spectrum<T: Copy>(bins: &Vec<T>) -> (r: Vec<T>)
    ensures
        r@ == bins@.subrange(0, (bins@.len() / 2) as int),
{
    let half = bins.len() / 2;
    let mut r: Vec<T> = Vec::with_capacity(half);
    let mut i: usize = 0;
    while i < half
        invariant
            half == bins@.len() / 2,
            i <= half,
            r@ == bins@.subrange(0, i as int),
        decreases half - i,
    {
        r.push(bins[i]);
        i = i + 1;
        assert(r@ =~= bins@.subrange(0, i as int));
    }
    r
}

/// A published frame is the first half of the spectrum of one whole window, so it always
/// has exactly `WINDOW_SIZE / 2` bins.
pub proof fn lemma_frame_length<T>(spectrum: Seq<T>)
    requires
        spectrum.len() == WINDOW_SIZE,
    ensures
        spectrum.subrange(0, (spectrum.len() / 2) as int).len() == WINDOW_SIZE / 2,
        WINDOW_SIZE / 2 == 512,
{
}

} // verus!
