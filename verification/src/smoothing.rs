//! When the smoothed background rumble restarts: whenever the configuration
//! revision handed to the engine differs from the last one it saw.
use vstd::prelude::*;

verus! {

/// The configuration revision that the background smoothing last saw.
#[derive(Clone, Copy, Debug)]
pub struct RevisionWatch {
    last: u64,
}

impl RevisionWatch {
    pub closed spec fn last_seen(self) -> u64 {
        self.last
    }

    /// The watch after revision `rev` was handed over.
    pub closed spec fn after_observing(self, rev: u64) -> RevisionWatch {
        RevisionWatch { last: rev }
    }

    /// Whether handing over revision `rev` restarts the smoothing.
    pub open spec fn restarts(self, rev: u64) -> bool {
        self.last_seen() != rev
    }

    /// A watch that has seen revision zero, as a fresh engine has.
    pub fn new() -> (w: RevisionWatch)
        ensures
            w.last_seen() == 0,
    {
        RevisionWatch { last: 0 }
    }

    /// The revision last seen.
    pub fn last(&self) -> (rev: u64)
        ensures
            rev == self.last_seen(),
    {
        self.last
    }

    /// Hands over the revision of the configuration of this frame. Returns
    /// whether it differs from the last one seen, in which case the smoothed
    /// background restarts from this frame's value; the watch then remembers
    /// `rev`.
    pub fn observe(&mut self, rev: u64) -> (changed: bool)
        ensures
            changed == old(self).restarts(rev),
            *final(self) == old(self).after_observing(rev),
            final(self).last_seen() == rev,
    {
        if rev != self.last {
            self.last = rev;
            true
        } else {
            false
        }
    }
}

impl Default for RevisionWatch {
    fn default() -> (w: Self)
        ensures
            w.last_seen() == 0,
    {
        RevisionWatch::new()
    }
}

/// Law: handing over the same revision again never restarts the smoothing;
/// only a revision that differs from the last one does.
pub proof fn law_repeated_revision_keeps_smoothing(w: RevisionWatch, rev: u64, next: u64)
    ensures
        !w.after_observing(rev).restarts(rev),
        w.after_observing(rev).restarts(next) <==> next != rev,
{
}

/// Law: a revision restarts the smoothing exactly when it differs from the
/// one last seen; a fresh watch has seen revision zero, so the first frame
/// restarts it for any other revision; after handing over a revision, the
/// watch has seen that revision.
pub proof fn law_restart_exactly_on_change(w: RevisionWatch, rev: u64)
    ensures
        w.restarts(rev) <==> w.last_seen() != rev,
        w.after_observing(rev).last_seen() == rev,
{
}

} // verus!
