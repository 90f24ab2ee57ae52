//! Rotation counter shared by the pipeline and descriptor caches.
//!
//! Each completed frame advances the counter once. An entry stamped with the
//! frame index at which it was last used may be reclaimed only once the
//! counter has moved at least `depth` frames past that stamp, where `depth`
//! is the number of frames that can still be in flight on the GPU.
use vstd::prelude::*;

verus! {

/// Abstract state of a rotation counter.
pub struct RotationView {
    pub counter: nat,
    pub depth: nat,
}

/// An entry last used at frame `last_used` may be reclaimed at frame `counter`
/// exactly when at least `depth` frames have completed since then.
pub open spec fn reclaimable(last_used: nat, counter: nat, depth: nat) -> bool {
    last_used + depth <= counter
}

/// The state reached from `r` after `frames` calls of `advance_frame`.
pub open spec fn advanced(r: RotationView, frames: nat) -> RotationView {
    RotationView { counter: r.counter + frames, depth: r.depth }
}

pub struct CacheRotation {
    counter: u64,
    depth: u64,
}

impl CacheRotation {
    pub closed spec fn view(&self) -> RotationView {
        RotationView { counter: self.counter as nat, depth: self.depth as nat }
    }

    /// The counter never drops below one frame of in-flight depth.
    pub open spec fn wf(&self) -> bool {
        self.view().depth >= 1
    }

    /// A fresh counter at frame zero, for `depth` frames in flight.
    pub fn new(depth: u64) -> (r: CacheRotation)
        requires
            depth >= 1,
        ensures
            r.wf(),
            r.view() == (RotationView { counter: 0, depth: depth as nat }),
    {
        CacheRotation { counter: 0, depth }
    }

    /// Number of completed frames so far.
    pub fn counter(&self) -> (r: u64)
        ensures
            r as nat == self.view().counter,
    {
        self.counter
    }

    /// Number of frames that may still be in flight.
    pub fn depth(&self) -> (r: u64)
        ensures
            r as nat == self.view().depth,
    {
        self.depth
    }

    /// Records one completed frame.
    pub fn advance_frame(&mut self)
        requires
            old(self).view().counter < u64::MAX,
        ensures
            final(self).view() == advanced(old(self).view(), 1),
            final(self).wf() == old(self).wf(),
    {
        self.counter = self.counter + 1;
    }

    /// Whether an entry last used at frame `last_used` may be released now.
    pub fn can_reclaim(&self, last_used: u64) -> (r: bool)
        ensures
            r == reclaimable(last_used as nat, self.view().counter, self.view().depth),
    {
        last_used as u128 + self.depth as u128 <= self.counter as u128
    }
}

/// After one `advance_frame` per completed frame, `frames` frames in all,
/// a counter that started at zero stands at exactly `frames`; at no point does
/// it fall below the number of frames completed so far.
pub proof fn lemma_counter_tracks_frames(depth: nat, frames: nat)
    ensures
        advanced(RotationView { counter: 0, depth }, frames).counter == frames,
        forall|done: nat|
            done <= frames ==> #[trigger] advanced(RotationView { counter: 0, depth }, done).counter
                >= done,
{
}

/// An entry is never reclaimable while the counter lags its last use by fewer
/// than `depth` frames, however many frames are advanced up to that point;
/// and once the lag reaches `depth` it is.
pub proof fn lemma_no_early_reclaim(r: RotationView, last_used: nat, frames: nat)
    requires
        last_used <= r.counter,
    ensures
        advanced(r, frames).counter < last_used + r.depth ==> !reclaimable(
            last_used,
            advanced(r, frames).counter,
            advanced(r, frames).depth,
        ),
        advanced(r, frames).counter >= last_used + r.depth ==> reclaimable(
            last_used,
            advanced(r, frames).counter,
            advanced(r, frames).depth,
        ),
{
}

} // verus!
