//! Whether and how the process puts itself into the background.

use crate::errors::{Errno, Error};
use vstd::prelude::*;

verus! {

/// Who is responsible for the process's lifecycle.
#[derive(Clone, Copy, Debug, PartialEq, Eq, Structural)]
pub enum SupervisionMode {
    /// The process daemonizes itself and creates its own socket file.
    Unsupervised,
    /// A process manager owns the socket and tracks the foreground process.
    Supervised,
}

/// Whether the process forks under `mode` when the user asked for
/// `requested`: `None` where the request contradicts the mode. Left to
/// itself, the process forks; under a supervisor it never does, and asking
/// for it there is a conflict.
pub open spec fn daemonize_decision(requested: Option<bool>, mode: SupervisionMode) -> Option<
    bool,
> {
    match mode {
        SupervisionMode::Unsupervised => match requested {
            Some(b) => Some(b),
            None => Some(true),
        },
        SupervisionMode::Supervised => match requested {
            Some(true) => None,
            _ => Some(false),
        },
    }
}

/// Decides whether to fork into the background.
pub fn maybe_daemonize(requested: Option<bool>, mode: SupervisionMode) -> (r: Result<bool, Error>)
    ensures
        match daemonize_decision(requested, mode) {
            Some(fork) => r == Ok::<bool, Error>(fork),
            None => r == Err::<bool, Error>(Error::DaemonizeConflict),
        },
{
    match mode {
        SupervisionMode::Unsupervised => match requested {
            Some(b) => Ok(b),
            None => Ok(true),
        },
        SupervisionMode::Supervised => match requested {
            Some(true) => Err(Error::DaemonizeConflict),
            _ => Ok(false),
        },
    }
}

/// Asking for a daemon under a supervisor is always a conflict.
pub proof fn law_no_daemon_under_supervisor()
    ensures
        daemonize_decision(Some(true), SupervisionMode::Supervised) is None,
        forall|requested: Option<bool>|
            #[trigger] daemonize_decision(requested, SupervisionMode::Supervised) != Some(true),
        forall|requested: Option<bool>|
            #[trigger] daemonize_decision(requested, SupervisionMode::Unsupervised) is Some,
{
}

/// Which side of a fork a process is on.
#[derive(Clone, Copy, Debug, PartialEq, Eq, Structural)]
pub enum ForkPid {
    /// The process that called: the fork gave it a child with this process
    /// identifier.
    Child(i32),
    /// The new process, which has a parent.
    Parent,
}

/// How the system's answer to a fork reads: minus one is a failure, zero is
/// given to the new process, and the calling process is given the new
/// process's identifier.
pub open spec fn fork_answer(res: i32) -> Option<ForkPid> {
    if res == -1 {
        None
    } else if res == 0 {
        Some(ForkPid::Parent)
    } else {
        Some(ForkPid::Child(res))
    }
}

/// Reads the system's answer to a fork; `None` means that it failed, and that
/// the reason is to be had from the system.
pub fn fork(res: i32) -> (r: Option<ForkPid>)
    ensures
        r == fork_answer(res),
{
    if res == -1 {
        None
    } else if res == 0 {
        Some(ForkPid::Parent)
    } else {
        Some(ForkPid::Child(res))
    }
}

/// What a process does after a fork: the new process goes on, the calling
/// process ends at once with `Forked`, and a failed fork is an error.
pub open spec fn after_fork(forked: Result<ForkPid, Errno>) -> Result<(), Error> {
    match forked {
        Err(e) => Err(Error::Fork(e)),
        Ok(ForkPid::Parent) => Ok(()),
        Ok(ForkPid::Child(pid)) => Err(Error::Forked(pid)),
    }
}

/// Decides how a process goes on after a fork.
pub fn fork_and_exit(forked: Result<ForkPid, Errno>) -> (r: Result<(), Error>)
    ensures
        r == after_fork(forked),
{
    match forked {
        Err(e) => Err(Error::Fork(e)),
        Ok(ForkPid::Parent) => Ok(()),
        Ok(ForkPid::Child(pid)) => Err(Error::Forked(pid)),
    }
}

} // verus!
