//! The order of a run: what is done first, what follows, and what is still
//! owed when something fails.

use crate::errors::{exit_status, Error};
use vstd::prelude::*;

verus! {

/// The stages of a run, in their order.
#[derive(Clone, Copy, Debug, PartialEq, Eq, Structural)]
pub enum Stage {
    /// Fork into the background.
    Fork,
    /// Acquire the runtime directory.
    AcquireDir,
    /// Make the socket, or take it over.
    ObtainSocket,
    /// Tell the supervisor that startup is over.
    NotifyStartup,
    /// Serve requests.
    Serve,
    /// Tell the supervisor that shutdown begins.
    NotifyShutdown,
    /// Give up the socket, then the runtime directory.
    Release,
    /// Leave.
    Exit,
}

/// The place of a stage in the order of a run.
pub open spec fn stage_rank(stage: Stage) -> nat {
    match stage {
        Stage::Fork => 0,
        Stage::AcquireDir => 1,
        Stage::ObtainSocket => 2,
        Stage::NotifyStartup => 3,
        Stage::Serve => 4,
        Stage::NotifyShutdown => 5,
        Stage::Release => 6,
        Stage::Exit => 7,
    }
}

/// Whether the process holds the runtime directory during a stage, so that
/// it has something to release.
pub open spec fn holds_dir(stage: Stage) -> bool {
    2 <= stage_rank(stage) <= 6
}

/// The first stage: the fork, where the process daemonizes.
pub open spec fn first_stage(daemonize: bool) -> Stage {
    if daemonize {
        Stage::Fork
    } else {
        Stage::AcquireDir
    }
}

/// The stage after `stage`, which went well or not. After a failure the
/// process releases what it holds, and leaves.
pub open spec fn following(stage: Stage, ok: bool) -> Stage {
    match stage {
        Stage::Fork => if ok {
            Stage::AcquireDir
        } else {
            Stage::Exit
        },
        Stage::AcquireDir => if ok {
            Stage::ObtainSocket
        } else {
            Stage::Exit
        },
        Stage::ObtainSocket => if ok {
            Stage::NotifyStartup
        } else {
            Stage::Release
        },
        Stage::NotifyStartup => if ok {
            Stage::Serve
        } else {
            Stage::Release
        },
        Stage::Serve => if ok {
            Stage::NotifyShutdown
        } else {
            Stage::Release
        },
        Stage::NotifyShutdown => Stage::Release,
        Stage::Release => Stage::Exit,
        Stage::Exit => Stage::Exit,
    }
}

/// The first stage of a run.
pub fn start(daemonize: bool) -> (r: Stage)
    ensures
        r == first_stage(daemonize),
{
    if daemonize {
        Stage::Fork
    } else {
        Stage::AcquireDir
    }
}

/// The stage that follows `stage`.
pub fn advance(stage: Stage, ok: bool) -> (r: Stage)
    ensures
        r == following(stage, ok),
{
    match stage {
        Stage::Fork => if ok {
            Stage::AcquireDir
        } else {
            Stage::Exit
        },
        Stage::AcquireDir => if ok {
            Stage::ObtainSocket
        } else {
            Stage::Exit
        },
        Stage::ObtainSocket => if ok {
            Stage::NotifyStartup
        } else {
            Stage::Release
        },
        Stage::NotifyStartup => if ok {
            Stage::Serve
        } else {
            Stage::Release
        },
        Stage::Serve => if ok {
            Stage::NotifyShutdown
        } else {
            Stage::Release
        },
        Stage::NotifyShutdown => Stage::Release,
        Stage::Release => Stage::Exit,
        Stage::Exit => Stage::Exit,
    }
}

/// The exit status of a run that ended with `outcome`.
pub fn run(outcome: Result<(), Error>) -> (r: i32)
    ensures
        r == exit_status(outcome),
{
    crate::errors::exit_code(&outcome)
}

/// A run only moves forward; the fork, if there is one, comes before
/// anything is acquired; and whoever holds the runtime directory passes
/// through the release before leaving.
pub proof fn law_run_order(stage: Stage, ok: bool)
    ensures
        stage != Stage::Exit ==> stage_rank(following(stage, ok)) > stage_rank(stage),
        following(stage, ok) != Stage::Fork,
        !holds_dir(Stage::Fork) && !holds_dir(first_stage(true)) && !holds_dir(first_stage(false)),
        holds_dir(stage) && stage != Stage::Release ==> holds_dir(following(stage, ok)),
        following(stage, ok) == Stage::Exit ==> !holds_dir(stage) || stage == Stage::Release,
{
}

} // verus!
