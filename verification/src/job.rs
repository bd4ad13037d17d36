//! Job table and foreground tracker.
//!
//! Every launched top-level process gets a stable, monotonically assigned
//! identifier and a lifecycle record: foreground or background, running,
//! stopped or exited. The foreground tracker remembers which pid, if any,
//! the shell is currently blocked on, so that a stray interrupt signal is
//! never misdirected at a reused pid.

use vstd::prelude::*;

use crate::error::ShellError;

verus! {

/// A process identifier, as the operating system reports it.
#[derive(Clone, Copy, PartialEq, Eq, Structural, Debug)]
pub struct Pid(pub i32);

/// Whether a job was started to own the terminal or to run behind it.
#[derive(Clone, Copy, PartialEq, Eq, Structural, Debug)]
pub enum JobKind {
    Foreground,
    Background,
}

/// Where a job stands in its lifecycle.
#[derive(Clone, Copy, PartialEq, Eq, Structural, Debug)]
pub enum JobState {
    Running,
    Stopped,
    Exited,
}

/// One tracked top-level process.
#[derive(Clone, Copy, PartialEq, Eq, Structural, Debug)]
pub struct Job {
    pub id: u32,
    pub pid: i32,
    pub kind: JobKind,
    pub state: JobState,
}

/// The job table of one session.
#[derive(Debug)]
pub struct Jobs {
    jobs: Vec<Job>,
    next_id: u32,
}

impl Jobs {
    /// The recorded jobs, oldest first.
    pub closed spec fn list(&self) -> Seq<Job> {
        self.jobs@
    }

    /// The identifier the next registered job will receive.
    pub closed spec fn next(&self) -> u32 {
        self.next_id
    }

    /// Identifiers are assigned monotonically per session: every recorded
    /// id is below the next to be issued, and the table is ordered by id,
    /// so an id is never reused while its job is alive.
    pub open spec fn wf(&self) -> bool {
        &&& forall|k: int|
            0 <= k < self.list().len() ==> (#[trigger] self.list()[k]).id < self.next()
        &&& forall|k: int, l: int|
            #![trigger self.list()[k], self.list()[l]]
            0 <= k < l < self.list().len() ==> self.list()[k].id < self.list()[l].id
        &&& self.next() >= 1
    }

    /// An empty table; the first job will be number one.
    pub fn new() -> (r: Jobs)
        ensures
            r.list() =~= Seq::<Job>::empty(),
            r.next() == 1,
            r.wf(),
    {
        Jobs { jobs: Vec::new(), next_id: 1 }
    }

    /// The recorded jobs, oldest first, for reporting.
    pub fn all(&self) -> (r: Vec<Job>)
        ensures
            r@ =~= self.list(),
    {
        let mut out: Vec<Job> = Vec::new();
        let n = self.jobs.len();
        let mut k: usize = 0;
        while k < n
            invariant
                0 <= k <= n,
                n == self.list().len(),
                self.list() == self.jobs@,
                out@ =~= self.list().take(k as int),
            decreases n - k,
        {
            out.push(self.jobs[k]);
            proof {
                assert(out@ =~= self.list().take(k + 1));
            }
            k += 1;
        }
        out
    }

    /// Is some job recorded as the running foreground one?
    pub open spec fn spec_has_foreground(&self) -> bool {
        exists|k: int|
            0 <= k < self.list().len() && (#[trigger] self.list()[k]).kind == JobKind::Foreground
                && self.list()[k].state == JobState::Running
    }

    /// Does a running foreground job exist in the table?
    pub fn has_foreground(&self) -> (r: bool)
        ensures
            r == self.spec_has_foreground(),
    {
        let n = self.jobs.len();
        let mut k: usize = 0;
        while k < n
            invariant
                0 <= k <= n,
                n == self.list().len(),
                self.list() == self.jobs@,
                forall|j: int|
                    0 <= j < k ==> !((#[trigger] self.list()[j]).kind == JobKind::Foreground
                        && self.list()[j].state == JobState::Running),
            decreases n - k,
        {
            let job = &self.jobs[k];
            if job.kind == JobKind::Foreground && job.state == JobState::Running {
                return true;
            }
            k += 1;
        }
        false
    }

    /// Registers a background job: allocates the next id, records the job
    /// as Background/Running and returns the pair the caller reports to
    /// the user. Never blocks; the fresh id is strictly greater than every
    /// id this session has issued before.
    pub fn new_bg(&mut self, pid: Pid) -> (r: Result<(u32, i32), ShellError>)
        requires
            old(self).wf(),
        ensures
            final(self).wf(),
            match r {
                Ok((id, p)) => {
                    &&& old(self).next() < u32::MAX
                    &&& id == old(self).next()
                    &&& p == pid.0
                    &&& final(self).list() =~= old(self).list().push(
                        Job { id, pid: pid.0, kind: JobKind::Background, state: JobState::Running },
                    )
                    &&& final(self).next() == id + 1
                    &&& forall|k: int|
                        0 <= k < old(self).list().len() ==> (#[trigger] old(self).list()[k]).id
                            < id
                },
                Err(e) => {
                    &&& old(self).next() == u32::MAX
                    &&& e == ShellError::IdsExhausted
                    &&& *final(self) == *old(self)
                },
            },
    {
        if self.next_id == u32::MAX {
            return Err(ShellError::IdsExhausted);
        }
        let id = self.next_id;
        self.jobs.push(Job { id, pid: pid.0, kind: JobKind::Background, state: JobState::Running });
        self.next_id = id + 1;
        Ok((id, pid.0))
    }

    /// Records a foreground job as Foreground/Running and returns once
    /// recorded; the caller performs the blocking wait afterwards,
    /// bracketed by the foreground tracker. At most one running foreground
    /// job may exist at a time, so a second registration is refused.
    pub fn new_fg(&mut self, pid: Pid) -> (r: Result<u32, ShellError>)
        requires
            old(self).wf(),
        ensures
            final(self).wf(),
            match r {
                Ok(id) => {
                    &&& !old(self).spec_has_foreground()
                    &&& old(self).next() < u32::MAX
                    &&& id == old(self).next()
                    &&& final(self).list() =~= old(self).list().push(
                        Job { id, pid: pid.0, kind: JobKind::Foreground, state: JobState::Running },
                    )
                    &&& final(self).next() == id + 1
                },
                Err(e) => {
                    &&& *final(self) == *old(self)
                    &&& old(self).spec_has_foreground() || old(self).next() == u32::MAX
                    &&& e == if old(self).spec_has_foreground() {
                        ShellError::ForegroundBusy
                    } else {
                        ShellError::IdsExhausted
                    }
                },
            },
    {
        if self.has_foreground() {
            return Err(ShellError::ForegroundBusy);
        }
        if self.next_id == u32::MAX {
            return Err(ShellError::IdsExhausted);
        }
        let id = self.next_id;
        self.jobs.push(Job { id, pid: pid.0, kind: JobKind::Foreground, state: JobState::Running });
        self.next_id = id + 1;
        Ok(id)
    }

    /// Is position `k` a live (not yet exited) job holding this pid?
    pub open spec fn is_live_at(&self, k: int, pid: i32) -> bool {
        &&& 0 <= k < self.list().len()
        &&& self.list()[k].pid == pid
        &&& self.list()[k].state != JobState::Exited
    }

    /// Does some live job hold this pid?
    pub open spec fn spec_has_live(&self, pid: i32) -> bool {
        exists|k: int| #[trigger] self.is_live_at(k, pid)
    }

    /// `post` is `self` with the first live job holding `pid` turned into
    /// a running foreground job, everything else untouched.
    pub open spec fn restart_transition(&self, post: Jobs, pid: i32) -> bool {
        exists|k: int|
            {
                &&& #[trigger] self.is_live_at(k, pid)
                &&& forall|j: int| 0 <= j < k ==> !self.is_live_at(j, pid)
                &&& post.list() =~= self.list().update(
                    k,
                    Job {
                        id: self.list()[k].id,
                        pid,
                        kind: JobKind::Foreground,
                        state: JobState::Running,
                    },
                )
            }
    }

    /// `post` is `self` with the first live job holding `pid` dropped,
    /// everything else untouched.
    pub open spec fn finish_transition(&self, post: Jobs, pid: i32) -> bool {
        exists|k: int|
            {
                &&& #[trigger] self.is_live_at(k, pid)
                &&& forall|j: int| 0 <= j < k ==> !self.is_live_at(j, pid)
                &&& post.list() =~= self.list().remove(k)
            }
    }

    /// Brings a previously background or stopped job into the foreground:
    /// the first live job holding the pid becomes Foreground/Running, for
    /// the caller to send the continue signal and wait on. Fails with a
    /// lookup error when no live job holds the pid.
    pub fn restart(&mut self, pid: Pid) -> (r: Result<(), ShellError>)
        requires
            old(self).wf(),
        ensures
            final(self).wf(),
            final(self).next() == old(self).next(),
            match r {
                Ok(()) => {
                    &&& old(self).spec_has_live(pid.0)
                    &&& old(self).restart_transition(*final(self), pid.0)
                },
                Err(e) => {
                    &&& !old(self).spec_has_live(pid.0)
                    &&& e == ShellError::UnknownJob
                    &&& *final(self) == *old(self)
                },
            },
    {
        let n = self.jobs.len();
        let mut k: usize = 0;
        while k < n
            invariant
                0 <= k <= n,
                n == self.list().len(),
                self.list() == self.jobs@,
                *self == *old(self),
                old(self).wf(),
                forall|j: int| 0 <= j < k ==> !old(self).is_live_at(j, pid.0),
            decreases n - k,
        {
            let job = self.jobs[k];
            if job.pid == pid.0 && job.state != JobState::Exited {
                let updated = Job {
                    id: job.id,
                    pid: pid.0,
                    kind: JobKind::Foreground,
                    state: JobState::Running,
                };
                proof {
                    assert(old(self).is_live_at(k as int, pid.0));
                }
                self.jobs.remove(k);
                self.jobs.insert(k, updated);
                proof {
                    assert(self.list() =~= old(self).list().update(k as int, updated));
                    assert forall|j: int| 0 <= j < self.list().len() implies (#[trigger] self.list()[j]).id
                        == old(self).list()[j].id by {
                        assert(old(self).list()[k as int].id == updated.id);
                    }
                    assert forall|a: int, b: int|
                        #![trigger self.list()[a], self.list()[b]]
                        0 <= a < b < self.list().len() implies self.list()[a].id
                        < self.list()[b].id by {
                        assert(old(self).list()[a].id < old(self).list()[b].id);
                    }
                }
                return Ok(());
            }
            k += 1;
        }
        Err(ShellError::UnknownJob)
    }

    /// Drops the first live job holding the pid, once it has been waited
    /// on or observed to have exited; reports whether one was found.
    pub fn finish(&mut self, pid: Pid) -> (r: bool)
        requires
            old(self).wf(),
        ensures
            final(self).wf(),
            final(self).next() == old(self).next(),
            r == old(self).spec_has_live(pid.0),
            r ==> old(self).finish_transition(*final(self), pid.0),
            !r ==> *final(self) == *old(self),
    {
        let n = self.jobs.len();
        let mut k: usize = 0;
        while k < n
            invariant
                0 <= k <= n,
                n == self.list().len(),
                self.list() == self.jobs@,
                *self == *old(self),
                old(self).wf(),
                forall|j: int| 0 <= j < k ==> !old(self).is_live_at(j, pid.0),
            decreases n - k,
        {
            let job = self.jobs[k];
            if job.pid == pid.0 && job.state != JobState::Exited {
                proof {
                    assert(old(self).is_live_at(k as int, pid.0));
                }
                self.jobs.remove(k);
                proof {
                    assert(self.list() =~= old(self).list().remove(k as int));
                    assert forall|j: int| 0 <= j < self.list().len() implies (#[trigger] self.list()[j])
                        == old(self).list()[if j < k { j } else { j + 1 }] by {}
                    assert forall|a: int, b: int|
                        #![trigger self.list()[a], self.list()[b]]
                        0 <= a < b < self.list().len() implies self.list()[a].id
                        < self.list()[b].id by {
                        let oa: int = if a < k { a } else { a + 1 };
                        let ob: int = if b < k { b } else { b + 1 };
                        assert(old(self).list()[oa].id < old(self).list()[ob].id);
                    }
                }
                return true;
            }
            k += 1;
        }
        false
    }
}

/// The record of which pid, if any, is the current foreground job; read
/// by the collaborator that forwards interrupt signals.
#[derive(Debug)]
pub struct CurPid {
    cur: Option<Pid>,
}

impl View for CurPid {
    type V = Option<Pid>;

    closed spec fn view(&self) -> Option<Pid> {
        self.cur
    }
}

impl CurPid {
    /// Initially no foreground job exists.
    pub fn new() -> (r: CurPid)
        ensures
            r@ is None,
    {
        CurPid { cur: None }
    }

    /// Marks the pid as the interruptible foreground job, immediately
    /// before the caller blocks waiting on it.
    pub fn store(&mut self, pid: Pid)
        ensures
            final(self)@ == Some(pid),
    {
        self.cur = Some(pid);
    }

    /// Clears the record, to be called on every exit path of the wait.
    pub fn reset(&mut self)
        ensures
            final(self)@ is None,
    {
        self.cur = None;
    }

    /// The pid an interrupt signal should be forwarded to, if any.
    pub fn get(&self) -> (r: Option<Pid>)
        ensures
            r == self@,
    {
        self.cur
    }
}

} // verus!
