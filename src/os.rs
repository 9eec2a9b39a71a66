//! The operating-system calls the session makes, through nix, on plain
//! descriptor and process numbers.

use nix::errno::Errno;
use nix::sys::signal::{kill, Signal};
use nix::sys::wait::{waitpid, WaitPidFlag, WaitStatus};
use nix::unistd::Pid;
use vstd::prelude::*;

verus! {

/// What a no-hang wait reports about a child process: the process number
/// it concerns and, by variant, how the process changed state.
#[derive(Debug, Clone, Copy, PartialEq, Eq, Structural)]
pub enum ProcessStatus {
    /// The process ran to completion with the given exit code.
    Exited(i32, i32),
    /// The process was killed by the given signal number; the flag tells
    /// whether it dumped core.
    Signaled(i32, i32, bool),
    /// The process was stopped by the given signal number.
    Stopped(i32, i32),
    /// A traced process stopped on a ptrace event (signal number, event).
    PtraceEvent(i32, i32, i32),
    /// A traced process stopped on a system call.
    PtraceSyscall(i32),
    /// A stopped process resumed.
    Continued(i32),
    /// The process has not changed state since the last report.
    StillAlive,
}

impl ProcessStatus {
    /// The process a report other than `StillAlive` concerns.
    pub open spec fn pid_of(self) -> Option<i32> {
        match self {
            ProcessStatus::Exited(p, _) => Some(p),
            ProcessStatus::Signaled(p, _, _) => Some(p),
            ProcessStatus::Stopped(p, _) => Some(p),
            ProcessStatus::PtraceEvent(p, _, _) => Some(p),
            ProcessStatus::PtraceSyscall(p) => Some(p),
            ProcessStatus::Continued(p) => Some(p),
            ProcessStatus::StillAlive => None,
        }
    }

    /// The report is "no change", or concerns the process `pid`.
    pub open spec fn reports_on(self, pid: i32) -> bool {
        self.pid_of() is None || self.pid_of() == Some(pid)
    }

    /// The process has ended: it exited or was killed.
    pub open spec fn spec_is_terminal(self) -> bool {
        self is Exited || self is Signaled
    }

    /// Whether the process has ended: it exited or was killed.
    pub fn is_terminal(&self) -> (r: bool)
        ensures
            r == self.spec_is_terminal(),
    {
        match self {
            ProcessStatus::Exited(_, _) => true,
            ProcessStatus::Signaled(_, _, _) => true,
            _ => false,
        }
    }
}

/// Why sending the hangup signal failed.
#[derive(Debug, Clone, Copy, PartialEq, Eq, Structural)]
pub enum SignalFailure {
    /// There is no such process any more.
    NoSuchProcess,
    /// Any other error, by its errno code.
    Os(i32),
}

/// Relies on nix::unistd::write: one write(2) of `buf` to descriptor `fd`,
/// which reports how many of the bytes, from the front, it took.
#[verifier::external_body]
pub(crate) fn write_fd(fd: i32, buf: &[u8]) -> (r: Result<usize, i32>)
    ensures
        r matches Ok(n) ==> n <= buf@.len(),
{
    nix::unistd::write(fd, buf).map_err(|e| e as i32)
}

/// Relies on nix::unistd::read: one read(2) of at most `max` bytes from
/// descriptor `fd`; no bytes at all means the end of the stream.
#[verifier::external_body]
pub(crate) fn read_fd(fd: i32, max: usize) -> (r: Result<Vec<u8>, i32>)
    ensures
        r matches Ok(v) ==> v@.len() <= max,
{
    let mut buf = vec![0u8; max];
    match nix::unistd::read(fd, &mut buf) {
        Ok(n) => {
            buf.truncate(n);
            Ok(buf)
        },
        Err(e) => Err(e as i32),
    }
}

/// Relies on nix::unistd::close: close(2) of descriptor `fd`; it reports
/// failure as an error and does not panic.
#[verifier::external_body]
pub(crate) fn close_fd(fd: i32) -> (r: Result<(), i32>)
    opens_invariants none
    no_unwind
{
    nix::unistd::close(fd).map_err(|e| e as i32)
}

/// Relies on nix::sys::signal::kill: sends SIGHUP to the process `pid`,
/// telling ESRCH (no such process) apart from other errors.
#[verifier::external_body]
pub(crate) fn hang_up(pid: i32) -> (r: Result<(), SignalFailure>)
    requires
        pid > 0,
{
    match kill(Pid::from_raw(pid), Signal::SIGHUP) {
        Ok(()) => Ok(()),
        Err(Errno::ESRCH) => Err(SignalFailure::NoSuchProcess),
        Err(e) => Err(SignalFailure::Os(e as i32)),
    }
}

/// Relies on nix::sys::wait::waitpid with WNOHANG on the single process
/// `pid`: it returns at once, with no change (StillAlive) or with the state
/// of that very process (waitpid(2) reports on the process asked about).
#[verifier::external_body]
pub(crate) fn wait_no_hang(pid: i32) -> (r: Result<ProcessStatus, i32>)
    requires
        pid > 0,
    ensures
        r matches Ok(s) ==> s.reports_on(pid),
{
    let st = waitpid(Pid::from_raw(pid), Some(WaitPidFlag::WNOHANG)).map_err(|e| e as i32)?;
    Ok(match st {
        WaitStatus::Exited(p, c) => ProcessStatus::Exited(p.as_raw(), c),
        WaitStatus::Signaled(p, s, d) => ProcessStatus::Signaled(p.as_raw(), s as i32, d),
        WaitStatus::Stopped(p, s) => ProcessStatus::Stopped(p.as_raw(), s as i32),
        WaitStatus::PtraceEvent(p, s, e) => ProcessStatus::PtraceEvent(p.as_raw(), s as i32, e),
        WaitStatus::PtraceSyscall(p) => ProcessStatus::PtraceSyscall(p.as_raw()),
        WaitStatus::Continued(p) => ProcessStatus::Continued(p.as_raw()),
        WaitStatus::StillAlive => ProcessStatus::StillAlive,
    })
}

} // verus!
