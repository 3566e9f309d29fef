use vstd::prelude::*;

verus! {

/// What `ResumeThread` reports when it fails: `(DWORD)-1`.
pub const RESUME_FAILED: u32 = 0xFFFF_FFFF;

/// What `WaitForSingleObject` reports when it fails.
pub const WAIT_FAILED: u32 = 0xFFFF_FFFF;

/// The state a thread is asked to be created in.
pub enum ThreadState {
    Suspend,
}

/// Where a thread stands, as far as its owner has observed.
#[derive(PartialEq, Eq, Structural, Clone, Copy, Debug)]
pub enum Lifecycle {
    Suspended,
    Running,
    Exited,
}

/// Where a thread stands after a successful resume that reported its
/// previous suspend count: it runs once that count drops to zero.
pub open spec fn after_resume(s: Lifecycle, previous_count: u32) -> Lifecycle {
    if s == Lifecycle::Suspended && previous_count <= 1 {
        Lifecycle::Running
    } else {
        s
    }
}

/// A thread the platform created, by its numeric identifier and the state
/// it was last seen in.
pub struct Thread {
    tid: u32,
    lifecycle: Lifecycle,
}

impl Thread {
    /// The numeric thread identifier.
    pub closed spec fn id(&self) -> u32 {
        self.tid
    }

    /// The state the thread was last seen in.
    pub closed spec fn lifecycle(&self) -> Lifecycle {
        self.lifecycle
    }

    /// The thread the platform created as `tid` at the caller's entry
    /// address. It is created suspended: it cannot run before a resume.
    pub fn spawned(tid: u32, state: ThreadState) -> (r: Thread)
        ensures
            r.id() == tid,
            r.lifecycle() == Lifecycle::Suspended,
    {
        match state {
            ThreadState::Suspend => Thread { tid, lifecycle: Lifecycle::Suspended },
        }
    }

    pub fn tid(&self) -> (r: u32)
        ensures
            r == self.id(),
    {
        self.tid
    }

    /// The state the thread was last seen in.
    pub fn state(&self) -> (r: Lifecycle)
        ensures
            r == self.lifecycle(),
    {
        self.lifecycle
    }

    /// Takes in what the platform's resume call reported: the previous
    /// suspend count, or `RESUME_FAILED`. Returns whether the call
    /// succeeded; on failure nothing changes.
    pub fn resume(&mut self, previous_count: u32) -> (ok: bool)
        ensures
            ok == (previous_count != RESUME_FAILED),
            final(self).id() == old(self).id(),
            ok ==> final(self).lifecycle() == after_resume(old(self).lifecycle(), previous_count),
            !ok ==> final(self).lifecycle() == old(self).lifecycle(),
    {
        if previous_count == RESUME_FAILED {
            return false;
        }
        if self.lifecycle == Lifecycle::Suspended && previous_count <= 1 {
            self.lifecycle = Lifecycle::Running;
        }
        true
    }

    /// Takes in what the platform's unbounded wait reported, and returns the
    /// state the thread is then known to be in: `Exited` unless the wait
    /// failed. A wait on a thread that nobody resumed does not come back, so
    /// when it does, the thread has ended or the wait failed.
    pub fn join(self, wait_result: u32) -> (r: Option<Lifecycle>)
        ensures
            r is Some <==> wait_result != WAIT_FAILED,
            r matches Some(l) ==> l == Lifecycle::Exited,
    {
        if wait_result == WAIT_FAILED {
            None
        } else {
            Some(Lifecycle::Exited)
        }
    }
}

} // verus!
