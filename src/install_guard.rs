//! At most one install of a unit runs at a time: a second one is refused,
//! not queued.

use vstd::prelude::*;
use vstd::string::StringExecFns;

verus! {

/// Whether an install of the unit named `unit` is under way.
pub struct InstallGuard {
    pub unit: String,
    pub running: bool,
}

/// The message with which a concurrent install of `unit` is refused.
pub open spec fn in_progress_message(unit: Seq<char>) -> Seq<char> {
    unit + " install is already in progress"@
}

impl InstallGuard {
    /// The guard after an attempt to begin an install, and whether it began.
    pub open spec fn begin_spec(self) -> (Self, bool) {
        if self.running {
            (self, false)
        } else {
            (InstallGuard { unit: self.unit, running: true }, true)
        }
    }

    pub fn new(unit: String) -> (r: Self)
        ensures
            !r.running,
            r.unit == unit,
    {
        InstallGuard { unit, running: false }
    }

    /// Claims the guard, or fails at once where an install is under way.
    pub fn try_begin(&mut self) -> (r: Result<(), String>)
        ensures
            *final(self) == old(self).begin_spec().0,
            r is Ok == old(self).begin_spec().1,
            r matches Err(m) ==> m@ == in_progress_message(old(self).unit@),
    {
        if self.running {
            let mut m = self.unit.clone();
            m.append(" install is already in progress");
            Err(m)
        } else {
            self.running = true;
            Ok(())
        }
    }

    /// Releases the guard once the install has ended, however it ended.
    pub fn finish(&mut self)
        ensures
            !final(self).running,
            final(self).unit == old(self).unit,
    {
        self.running = false;
    }
}

/// Of two installs begun one after the other on an idle guard, the first
/// proceeds and the second is refused and leaves the guard as it found it.
pub proof fn lemma_single_flight(g: InstallGuard)
    requires
        !g.running,
    ensures
        g.begin_spec().1,
        !g.begin_spec().0.begin_spec().1,
        g.begin_spec().0.begin_spec().0 == g.begin_spec().0,
{
}

} // verus!
