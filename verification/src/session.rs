//! The session core: input source, dispatch, and the foreground bracket.
//!
//! The read-eval loop itself lives in the surrounding binary; this module
//! holds what the loop decides and records. A `Session` owns the input
//! source and the foreground tracker, routes a command's leading token,
//! and brackets every blocking wait: the foreground pid is recorded
//! immediately before the wait and cleared on every exit path after it,
//! so a stray interrupt is never misdirected at a reused pid.

use vstd::prelude::*;

use crate::job::{CurPid, Pid};

verus! {

/// The session's source of command lines. The shell builds it once and
/// asks it for one line per loop iteration; implementations may keep the
/// foreground record they are handed, to forward interrupt signals to
/// the pid recorded there.
pub trait Reader: Sized {
    /// Builds the input source.
    fn init(cur_pid: &CurPid) -> Result<Self, String>;

    /// The next command line, or a report of an input error.
    fn next_line(&mut self) -> Result<String, String>;
}

/// One interactive session: the input source and the record of which
/// pid, if any, the shell is currently blocked on.
pub struct Session<T> {
    reader: T,
    cur_pid: CurPid,
}

impl<T: Reader> Session<T> {
    /// The pid recorded as the current foreground job.
    pub closed spec fn spec_current(&self) -> Option<Pid> {
        self.cur_pid@
    }

    /// Builds the input source; the fresh session records no foreground
    /// job.
    pub fn new() -> (r: Result<Session<T>, String>)
        ensures
            match r {
                Ok(s) => s.spec_current() is None,
                Err(_) => true,
            },
    {
        let cur_pid = CurPid::new();
        match T::init(&cur_pid) {
            Ok(reader) => Ok(Session { reader, cur_pid }),
            Err(e) => Err(e),
        }
    }

    /// One line from the input source; the foreground record is not
    /// touched by reading.
    pub fn next_line(&mut self) -> (r: Result<String, String>)
        ensures
            final(self).spec_current() == old(self).spec_current(),
    {
        self.reader.next_line()
    }

    /// The pid an interrupt signal should be forwarded to, if any.
    pub fn current(&self) -> (r: Option<Pid>)
        ensures
            r == self.spec_current(),
    {
        self.cur_pid.get()
    }

    /// Records the foreground job, immediately before the caller blocks
    /// waiting on it.
    pub fn begin_wait(&mut self, pid: Pid)
        ensures
            final(self).spec_current() == Some(pid),
    {
        self.cur_pid.store(pid);
    }

    /// Clears the foreground record; the caller invokes this on every
    /// exit path of the wait, normal or failed.
    pub fn end_wait(&mut self)
        ensures
            final(self).spec_current() is None,
    {
        self.cur_pid.reset();
    }
}

/// Where one parsed command is routed.
#[derive(Clone, Copy, PartialEq, Eq, Structural, Debug)]
pub enum Dispatch {
    /// `exit`: the session ends with the code the arguments give.
    Exit,
    /// `cd`: the working directory changes; no process is spawned.
    Cd,
    /// `fg`: a stopped or background job is brought to the foreground.
    Fg,
    /// Anything else: an external command pipeline.
    Command,
}

/// Routes a command's leading token to a builtin or to pipeline
/// execution.
pub fn dispatch(name: &String) -> (r: Dispatch)
    ensures
        (r == Dispatch::Exit) == (name@ == "exit"@),
        (r == Dispatch::Cd) == (name@ == "cd"@),
        (r == Dispatch::Fg) == (name@ == "fg"@),
        (r == Dispatch::Command) == (name@ != "exit"@ && name@ != "cd"@ && name@ != "fg"@),
{
    proof {
        reveal_strlit("exit");
        reveal_strlit("cd");
        reveal_strlit("fg");
        assert("exit"@.len() == 4);
        assert("cd"@.len() == 2);
        assert("fg"@.len() == 2);
        assert("cd"@[0] == 'c');
        assert("fg"@[0] == 'f');
    }
    if name.eq(&String::from_str("exit")) {
        Dispatch::Exit
    } else if name.eq(&String::from_str("cd")) {
        Dispatch::Cd
    } else if name.eq(&String::from_str("fg")) {
        Dispatch::Fg
    } else {
        Dispatch::Command
    }
}

} // verus!
