//! Exclusive ownership of the runtime directory through a marker file that
//! holds the owner's process identifier.
//!
//! The lock is cooperative: whoever finds a marker asks whether the process it
//! names is still alive, and takes the directory over only if it is not. The
//! decisions are made here; the caller opens, reads and writes the files and
//! reports what happened.

use crate::decimal::{
    decimal_text, format_u32, is_canonical, lemma_parse_of_text, parse_decimal, parse_u32,
};
use crate::errors::Error;
use crate::paths::{joined_path, path_join};
use vstd::prelude::*;
use vstd::string::StringExecFns;

verus! {

/// The most bytes a marker file may hold.
pub const PID_FILE_BUDGET: usize = 128;

/// What a marker file's content says.
#[derive(Clone, Copy, Debug, PartialEq, Eq, Structural)]
pub enum MarkerVerdict {
    /// It holds more than the budget allows.
    TooLarge,
    /// It names this process as the owner.
    Owner(u32),
    /// It names no process: the marker is stale.
    Unreadable,
}

/// Why the directory was not acquired.
#[derive(Clone, Copy, Debug, PartialEq, Eq, Structural)]
pub enum LockFailure {
    /// A live process holds the directory.
    Conflict,
    /// The marker file is larger than the budget.
    MarkerTooLarge,
    /// A file operation failed.
    Io,
    /// An event arrived that the current state does not expect.
    OutOfOrder,
}

/// Where an acquisition stands.
#[derive(Clone, Copy, Debug, PartialEq, Eq, Structural)]
pub enum LockState {
    /// The marker file is being opened and read.
    Opening,
    /// The marker names `owner`; whether that process lives is being asked.
    Checking { owner: u32 },
    /// The marker is being written.
    Writing,
    /// The directory is held by this process.
    Held,
    /// The acquisition failed.
    Failed(LockFailure),
}

/// What the caller observed.
#[derive(Clone, Copy, Debug, PartialEq, Eq, Structural)]
pub enum LockEvent {
    /// There is no marker file.
    Missing,
    /// There is a marker file, with this verdict on its content.
    Found(MarkerVerdict),
    /// The process asked about is alive.
    Alive,
    /// The process asked about does not exist.
    Gone,
    /// The marker was written.
    Written,
    /// A file operation failed.
    IoFailed,
}

/// What the caller does next.
#[derive(Clone, Copy, Debug, PartialEq, Eq, Structural)]
pub enum LockAction {
    /// Ask whether the process `pid` exists.
    QueryProcess { pid: u32 },
    /// Create the marker file and write the spelling of `pid` into it.
    CreateMarker { pid: u32 },
    /// Empty the marker file and write the spelling of `pid` into it.
    OverwriteMarker { pid: u32 },
    /// Nothing: the directory is held.
    Done,
    /// Give up for this reason.
    Abort(LockFailure),
}

/// The verdict on a marker of which `content` was read, and of which `more`
/// says whether bytes were left after that.
///
/// A marker names an owner only where it is the shortest decimal spelling of
/// a 32-bit number; anything else names nobody.
pub open spec fn marker_verdict(content: Seq<u8>, more: bool) -> MarkerVerdict {
    if more || content.len() > 128 {
        MarkerVerdict::TooLarge
    } else if is_canonical(content) && parse_decimal(content) is Some {
        MarkerVerdict::Owner(parse_decimal(content).unwrap())
    } else {
        MarkerVerdict::Unreadable
    }
}

/// The content of the marker of the process `pid`.
pub open spec fn marker_text(pid: u32) -> Seq<u8> {
    decimal_text(pid as nat)
}

/// One step of an acquisition by the process `own`: the next state and what
/// to do, from the state and what was observed.
pub open spec fn lock_transition(state: LockState, event: LockEvent, own: u32) -> (
    LockState,
    LockAction,
) {
    match (state, event) {
        (LockState::Opening, LockEvent::Missing) => (
            LockState::Writing,
            LockAction::CreateMarker { pid: own },
        ),
        (LockState::Opening, LockEvent::Found(MarkerVerdict::TooLarge)) => fail(
            LockFailure::MarkerTooLarge,
        ),
        (LockState::Opening, LockEvent::Found(MarkerVerdict::Owner(owner))) => (
            LockState::Checking { owner },
            LockAction::QueryProcess { pid: owner },
        ),
        (LockState::Opening, LockEvent::Found(MarkerVerdict::Unreadable)) => (
            LockState::Writing,
            LockAction::OverwriteMarker { pid: own },
        ),
        (LockState::Checking { owner }, LockEvent::Alive) => fail(LockFailure::Conflict),
        (LockState::Checking { owner }, LockEvent::Gone) => (
            LockState::Writing,
            LockAction::OverwriteMarker { pid: own },
        ),
        (LockState::Writing, LockEvent::Written) => (LockState::Held, LockAction::Done),
        (LockState::Held, _) => fail(LockFailure::OutOfOrder),
        (LockState::Failed(f), _) => fail(f),
        (_, LockEvent::IoFailed) => fail(LockFailure::Io),
        _ => fail(LockFailure::OutOfOrder),
    }
}

/// The failed state with the action that reports it.
pub open spec fn fail(f: LockFailure) -> (LockState, LockAction) {
    (LockState::Failed(f), LockAction::Abort(f))
}

/// The state after a run of events, from `state`.
pub open spec fn lock_run(state: LockState, events: Seq<LockEvent>, own: u32) -> LockState
    decreases events.len(),
{
    if events.len() == 0 {
        state
    } else {
        lock_run(lock_transition(state, events[0], own).0, events.drop_first(), own)
    }
}

/// Judges the content of a marker file: `content` is what one read of at most
/// the budget gave, `more` whether a second read found anything left.
pub fn inspect_marker(content: &[u8], more: bool) -> (r: MarkerVerdict)
    ensures
        r == marker_verdict(content@, more),
{
    if more || content.len() > PID_FILE_BUDGET {
        return MarkerVerdict::TooLarge;
    }
    let canonical: bool = content.len() == 1 || (content.len() > 1 && content[0] != 48);
    if !canonical {
        return MarkerVerdict::Unreadable;
    }
    match parse_u32(content) {
        Some(owner) => MarkerVerdict::Owner(owner),
        None => MarkerVerdict::Unreadable,
    }
}

/// The bytes to write into the marker of the process `pid`.
pub fn marker_content(pid: u32) -> (r: Vec<u8>)
    ensures
        r@ == marker_text(pid),
        marker_verdict(r@, false) == MarkerVerdict::Owner(pid),
{
    let r = format_u32(pid);
    proof {
        lemma_parse_of_text(pid);
        lemma_marker_text_short(pid);
    }
    r
}

/// The spelling of a process identifier has at most ten digits.
pub proof fn lemma_marker_text_short(pid: u32)
    ensures
        1 <= marker_text(pid).len() <= 10,
{
    let n = pid as nat;
    reveal_with_fuel(decimal_text, 11);
}

/// Advances an acquisition by one observation.
pub fn lock_step(state: LockState, event: LockEvent, own: u32) -> (r: (LockState, LockAction))
    ensures
        r == lock_transition(state, event, own),
{
    match state {
        LockState::Opening => match event {
            LockEvent::Missing => (LockState::Writing, LockAction::CreateMarker { pid: own }),
            LockEvent::Found(MarkerVerdict::TooLarge) => failed(LockFailure::MarkerTooLarge),
            LockEvent::Found(MarkerVerdict::Owner(owner)) => (
                LockState::Checking { owner },
                LockAction::QueryProcess { pid: owner },
            ),
            LockEvent::Found(MarkerVerdict::Unreadable) => (
                LockState::Writing,
                LockAction::OverwriteMarker { pid: own },
            ),
            LockEvent::IoFailed => failed(LockFailure::Io),
            _ => failed(LockFailure::OutOfOrder),
        },
        LockState::Checking { owner } => match event {
            LockEvent::Alive => failed(LockFailure::Conflict),
            LockEvent::Gone => (LockState::Writing, LockAction::OverwriteMarker { pid: own }),
            LockEvent::IoFailed => failed(LockFailure::Io),
            _ => failed(LockFailure::OutOfOrder),
        },
        LockState::Writing => match event {
            LockEvent::Written => (LockState::Held, LockAction::Done),
            LockEvent::IoFailed => failed(LockFailure::Io),
            _ => failed(LockFailure::OutOfOrder),
        },
        LockState::Held => failed(LockFailure::OutOfOrder),
        LockState::Failed(f) => failed(f),
    }
}

fn failed(f: LockFailure) -> (r: (LockState, LockAction))
    ensures
        r == fail(f),
{
    (LockState::Failed(f), LockAction::Abort(f))
}

/// A marker that names a live process keeps everyone else out: whatever the
/// acquiring process is, it ends in a conflict and is never told to write.
pub proof fn law_live_owner_conflicts(owner: u32, own: u32)
    ensures
        ({
            let found = LockEvent::Found(marker_verdict(marker_text(owner), false));
            let first = lock_transition(LockState::Opening, found, own);
            let second = lock_transition(first.0, LockEvent::Alive, own);
            &&& first == (LockState::Checking { owner }, LockAction::QueryProcess { pid: owner })
            &&& second == fail(LockFailure::Conflict)
            &&& lock_run(LockState::Opening, seq![found, LockEvent::Alive], own)
                == LockState::Failed(LockFailure::Conflict)
        }),
{
    lemma_parse_of_text(owner);
    lemma_marker_text_short(owner);
    let found = LockEvent::Found(marker_verdict(marker_text(owner), false));
    let events = seq![found, LockEvent::Alive];
    assert(events.drop_first() =~= seq![LockEvent::Alive]);
    assert(events.drop_first().drop_first() =~= Seq::<LockEvent>::empty());
    reveal_with_fuel(lock_run, 3);
}

/// A marker whose owner is gone is taken over: the acquiring process is told
/// to overwrite it with its own identifier, and then holds the directory.
pub proof fn law_dead_owner_reclaimed(owner: u32, own: u32)
    ensures
        ({
            let found = LockEvent::Found(marker_verdict(marker_text(owner), false));
            let first = lock_transition(LockState::Opening, found, own);
            let second = lock_transition(first.0, LockEvent::Gone, own);
            let third = lock_transition(second.0, LockEvent::Written, own);
            &&& first.1 == LockAction::QueryProcess { pid: owner }
            &&& second == (LockState::Writing, LockAction::OverwriteMarker { pid: own })
            &&& third == (LockState::Held, LockAction::Done)
            &&& marker_verdict(marker_text(own), false) == MarkerVerdict::Owner(own)
        }),
{
    lemma_parse_of_text(owner);
    lemma_marker_text_short(owner);
    lemma_parse_of_text(own);
    lemma_marker_text_short(own);
}

/// Without a marker, or with one that names no process, the directory is
/// acquired at once: the process writes its own identifier and holds it.
pub proof fn law_free_directory_acquired(content: Seq<u8>, own: u32)
    requires
        marker_verdict(content, false) == MarkerVerdict::Unreadable,
    ensures
        lock_transition(LockState::Opening, LockEvent::Missing, own) == (
            LockState::Writing,
            LockAction::CreateMarker { pid: own },
        ),
        lock_transition(
            LockState::Opening,
            LockEvent::Found(marker_verdict(content, false)),
            own,
        ) == (LockState::Writing, LockAction::OverwriteMarker { pid: own }),
        lock_transition(LockState::Writing, LockEvent::Written, own) == (
            LockState::Held,
            LockAction::Done,
        ),
        marker_verdict(marker_text(own), false) == MarkerVerdict::Owner(own),
{
    lemma_parse_of_text(own);
    lemma_marker_text_short(own);
}

/// A marker over the budget always fails the acquisition, whatever it holds,
/// and nothing is written.
pub proof fn law_marker_bound(content: Seq<u8>, more: bool, own: u32)
    requires
        more || content.len() > 128,
    ensures
        marker_verdict(content, more) == MarkerVerdict::TooLarge,
        lock_transition(
            LockState::Opening,
            LockEvent::Found(marker_verdict(content, more)),
            own,
        ) == fail(LockFailure::MarkerTooLarge),
{
}

/// Only an acquisition that wrote the marker holds the directory: the state
/// before `Held` is always `Writing`, and a failure is final.
pub proof fn law_held_only_after_writing(state: LockState, event: LockEvent, own: u32)
    ensures
        lock_transition(state, event, own).0 == LockState::Held ==> state == LockState::Writing
            && event == LockEvent::Written,
        state is Failed ==> lock_transition(state, event, own).0 == state,
{
}

/// The name of the runtime directory below its root: the service's name.
pub const DIR_NAME: &'static str = "krakend";

/// The root used where the system offers no runtime directory of its own.
pub const RUNTIME_DIR: &'static str = "/run";

/// The name of the marker file in the runtime directory.
pub const PID_FILE_NAME: &'static str = "pid";

/// Where the runtime directory is to be made.
#[derive(Debug)]
pub enum DirPlan {
    /// Below the user's or service's runtime directory, under this name.
    Runtime { name: String },
    /// At this path, with every directory above it.
    Fallback { path: String },
}

/// Chooses the runtime directory: the system's convention where it offers a
/// runtime directory, else the fixed fallback.
pub fn plan_dir(has_runtime_directory: bool) -> (r: DirPlan)
    ensures
        has_runtime_directory ==> (r matches DirPlan::Runtime { name } && name@ == "krakend"@),
        !has_runtime_directory ==> (r matches DirPlan::Fallback { path } && path@ == joined_path(
            "/run"@,
            "krakend"@,
        )),
{
    if has_runtime_directory {
        DirPlan::Runtime { name: String::from_str(DIR_NAME) }
    } else {
        DirPlan::Fallback { path: path_join(RUNTIME_DIR, DIR_NAME) }
    }
}

/// The runtime directory, held by this process.
#[derive(Debug)]
pub struct ProgramDir {
    dir: String,
}

impl View for ProgramDir {
    type V = Seq<char>;

    /// The directory's path.
    closed spec fn view(&self) -> Seq<char> {
        self.dir@
    }
}

impl ProgramDir {
    /// Ends an acquisition of the directory `dir`: the held directory where
    /// the acquisition reached `Held`, else the error that names the path.
    ///
    /// An acquisition that is still under way counts as a failed file
    /// operation, as a failure of `LockFailure::Io` does; `detail` is the
    /// text of that error.
    pub fn acquire(dir: &str, state: LockState, detail: &str) -> (r: Result<ProgramDir, Error>)
        ensures
            state == LockState::Held <==> r is Ok,
            r matches Ok(held) ==> held@ == dir@,
            state == LockState::Failed(LockFailure::Conflict) ==> (r matches Err(
                Error::ProgramDirAcquire(p),
            ) && p@ == dir@),
            state == LockState::Failed(LockFailure::MarkerTooLarge) ==> (r matches Err(
                Error::PidFileSize(p, n),
            ) && p@ == joined_path(dir@, "pid"@) && n == 128),
            state != LockState::Held && state != LockState::Failed(LockFailure::Conflict) && state
                != LockState::Failed(LockFailure::MarkerTooLarge) ==> (r matches Err(Error::Io(m))
                && m@ == detail@),
    {
        match state {
            LockState::Held => Ok(ProgramDir { dir: String::from_str(dir) }),
            LockState::Failed(LockFailure::Conflict) => Err(
                Error::ProgramDirAcquire(String::from_str(dir)),
            ),
            LockState::Failed(LockFailure::MarkerTooLarge) => Err(
                Error::PidFileSize(ProgramDir::pid_file(dir), PID_FILE_BUDGET),
            ),
            _ => Err(Error::Io(String::from_str(detail))),
        }
    }

    /// The path of the marker file in `dir`.
    pub fn pid_file(dir: &str) -> (r: String)
        ensures
            r@ == joined_path(dir@, "pid"@),
    {
        path_join(dir, PID_FILE_NAME)
    }

    /// The path of `path` below this directory.
    pub fn join(&self, path: &str) -> (r: String)
        ensures
            r@ == joined_path(self@, path@),
    {
        path_join(self.dir.as_str(), path)
    }

    /// The directory's path.
    pub fn dir(&self) -> (r: &str)
        ensures
            r@ == self@,
    {
        self.dir.as_str()
    }

    /// What to remove when the directory is given up, in this order: the
    /// marker file, then the directory itself. A removal that fails is
    /// reported as a warning and nothing more, since a marker left behind
    /// names a dead process and is taken over by the next acquisition.
    pub fn release(&self) -> (r: (String, String))
        ensures
            r.0@ == joined_path(self@, "pid"@),
            r.1@ == self@,
    {
        (ProgramDir::pid_file(self.dir.as_str()), self.dir.clone())
    }
}

} // verus!
