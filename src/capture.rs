//! Planning a capture session: which surfaces to capture, how long to wait,
//! and collecting one slot per surface, failed captures included.
use vstd::prelude::*;

use crate::annotate::opt_ok;
use crate::choice::{numeric_of, Choice};
use crate::raster::ImageHandler;

verus! {

/// Grace period added to every capture delay, in milliseconds.
pub const GRACE_MS: u64 = 500;

/// Why a capture request cannot be served.
#[derive(Debug, Clone, Copy, PartialEq, Eq, Structural)]
pub enum CaptureError {
    /// The monitor asked for is not among those enumerated.
    ScreenIndexOutOfBounds,
}

/// The surfaces to capture, in order: every one of the `count` enumerated
/// for `F`, else the single surface that the choice numbers from one.
pub open spec fn planned(monitor: Choice, count: nat) -> Result<Seq<usize>, CaptureError> {
    if monitor == Choice::F {
        Ok(Seq::new(count, |i: int| i as usize))
    } else if numeric_of(monitor) - 1 < count {
        Ok(seq![(numeric_of(monitor) - 1) as usize])
    } else {
        Err(CaptureError::ScreenIndexOutOfBounds)
    }
}

/// Chooses the surfaces to capture among `count` enumerated ones.
pub fn capture_targets(monitor: Choice, count: usize) -> (r: Result<Vec<usize>, CaptureError>)
    ensures
        match (r, planned(monitor, count as nat)) {
            (Ok(v), Ok(p)) => v@ == p,
            (Err(e), Err(f)) => e == f,
            _ => false,
        },
{
    if monitor == Choice::F {
        let mut v: Vec<usize> = Vec::new();
        let mut i: usize = 0;
        while i < count
            invariant
                i <= count,
                v@ == Seq::new(i as nat, |k: int| k as usize),
            decreases count - i,
        {
            v.push(i);
            i = i + 1;
            assert(v@ =~= Seq::new(i as nat, |k: int| k as usize));
        }
        assert(v@ =~= Seq::new(count as nat, |k: int| k as usize));
        Ok(v)
    } else {
        let n = monitor.to_numeric();
        if ((n - 1) as usize) < count {
            let mut v: Vec<usize> = Vec::new();
            v.push((n - 1) as usize);
            assert(v@ =~= seq![(numeric_of(monitor) - 1) as usize]);
            Ok(v)
        } else {
            Err(CaptureError::ScreenIndexOutOfBounds)
        }
    }
}

/// The wait before capturing, in milliseconds: the delay in seconds plus
/// the grace period.
pub fn capture_delay_ms(seconds: i32) -> (r: u64)
    requires
        seconds >= 0,
    ensures
        r == seconds * 1000 + GRACE_MS,
{
    seconds as u64 * 1000 + GRACE_MS
}

/// A capture session in progress: the surfaces to capture and the outcome
/// of each one captured so far, `None` for a failure.
pub struct CaptureJob {
    pub targets: Vec<usize>,
    pub slots: Vec<Option<ImageHandler>>,
}

impl CaptureJob {
    pub open spec fn wf(&self) -> bool {
        &&& self.slots@.len() <= self.targets@.len()
        &&& forall|i: int| 0 <= i < self.slots@.len() ==> opt_ok(#[trigger] self.slots@[i])
    }

    pub open spec fn complete(&self) -> bool {
        self.slots@.len() == self.targets@.len()
    }

    /// Starts a session for `monitor` among `count` enumerated surfaces.
    pub fn new(monitor: Choice, count: usize) -> (r: Result<CaptureJob, CaptureError>)
        ensures
            match (r, planned(monitor, count as nat)) {
                (Ok(j), Ok(p)) => j.wf() && j.targets@ == p && j.slots@.len() == 0,
                (Err(e), Err(f)) => e == f,
                _ => false,
            },
    {
        match capture_targets(monitor, count) {
            Ok(targets) => Ok(CaptureJob { targets, slots: Vec::new() }),
            Err(e) => Err(e),
        }
    }

    /// The surface to capture next, if any is left.
    pub fn next_target(&self) -> (r: Option<usize>)
        requires
            self.wf(),
        ensures
            self.complete() ==> r is None,
            !self.complete() ==> r == Some(self.targets@[self.slots@.len() as int]),
    {
        if self.slots.len() < self.targets.len() {
            Some(self.targets[self.slots.len()])
        } else {
            None
        }
    }

    /// Records the outcome of capturing the next surface.
    pub fn record(&mut self, outcome: Option<ImageHandler>)
        requires
            old(self).wf(),
            !old(self).complete(),
            opt_ok(outcome),
        ensures
            final(self).wf(),
            final(self).targets@ == old(self).targets@,
            final(self).slots@ == old(self).slots@.push(outcome),
    {
        self.slots.push(outcome);
    }

    /// Whether every surface has an outcome.
    pub fn is_complete(&self) -> (r: bool)
        ensures
            r == self.complete(),
    {
        self.slots.len() == self.targets.len()
    }

    /// The captured set, one slot per surface in the order planned.
    pub fn deliver(self) -> (r: Vec<Option<ImageHandler>>)
        requires
            self.wf(),
            self.complete(),
        ensures
            r@ == self.slots@,
            r@.len() == self.targets@.len(),
            forall|i: int| 0 <= i < r@.len() ==> opt_ok(#[trigger] r@[i]),
    {
        self.slots
    }
}

/// A session for all surfaces captures each of the `n` enumerated surfaces
/// once, in order, and a complete one delivers exactly `n` slots, failures
/// included.
pub proof fn lemma_all_surfaces_delivered(n: usize, job: CaptureJob)
    requires
        job.targets@ == planned(Choice::F, n as nat)->Ok_0,
        job.complete(),
    ensures
        planned(Choice::F, n as nat) is Ok,
        planned(Choice::F, n as nat)->Ok_0.len() == n,
        forall|i: int| 0 <= i < n ==> planned(Choice::F, n as nat)->Ok_0[i] as int == i,
        job.slots@.len() == n,
{
}

} // verus!
