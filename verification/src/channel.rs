//! The listening socket: made by the service itself, or handed over by a
//! supervisor.
//!
//! A socket file that the service made is the service's to remove, and only
//! that. So its path is recorded only once the socket exists, and a socket
//! that was handed over has no path at all. The decisions are made here; the
//! caller binds, removes and hardens, and reports what happened.

use crate::errors::{Errno, Error};
use crate::paths::joined_path;
use crate::perms::{mode_bits, socket_mode, ChmodMode, ChownGid, ChownUid};
use crate::pidlock::ProgramDir;
use crate::sockets::{AddressFamily, ListenFds, Listening, SocketType};
use vstd::prelude::*;
use vstd::string::StringExecFns;

verus! {

/// The name of the socket file in the runtime directory.
pub const SOCKET_FILE_NAME: &'static str = "socket";

/// How often the service tries to bind before it gives up.
pub const BIND_ATTEMPTS: u8 = 2;

/// The listening socket's file, as far as the service is responsible for it:
/// the path of a socket file that the service made, or nothing for a socket
/// that was handed over.
#[derive(Debug)]
pub struct SocketFile {
    path: Option<String>,
}

impl View for SocketFile {
    type V = Option<Seq<char>>;

    closed spec fn view(&self) -> Option<Seq<char>> {
        match self.path {
            Some(p) => Some(p@),
            None => None,
        }
    }
}

/// Why no socket was made.
#[derive(Clone, Copy, Debug, PartialEq, Eq, Structural)]
pub enum ChannelFailure {
    /// Binding failed, or the path stayed taken.
    Create,
    /// A stale socket file could not be removed.
    RemoveStale,
    /// The path of the new socket could not be resolved.
    Resolve,
    /// The group could not be looked up.
    Group,
    /// The group of the socket file could not be set.
    Chown,
    /// The permissions of the socket file could not be set.
    Chmod,
    /// An event arrived that the current state does not expect.
    OutOfOrder,
}

/// Where the making of a socket stands.
#[derive(Clone, Copy, Debug, PartialEq, Eq, Structural)]
pub enum ChannelState {
    /// Binding; `attempt` counts the tries, from one.
    Binding { attempt: u8 },
    /// Removing the stale file that was in the way of try `attempt`.
    Removing { attempt: u8 },
    /// The socket exists; its path is being resolved.
    Resolving,
    /// The path is recorded; the group is being looked up.
    LookingUp,
    /// The group of the file is being set.
    Chowning,
    /// The permissions of the file are being set.
    Chmoding,
    /// The socket is ready.
    Ready,
    /// No socket was made. `recorded` says whether the path had been
    /// recorded, so that the file is the service's to remove.
    Failed { failure: ChannelFailure, recorded: bool },
}

/// What the caller observed.
#[derive(Clone, Copy, Debug, PartialEq, Eq, Structural)]
pub enum ChannelEvent {
    /// The socket was bound.
    Bound,
    /// The path is taken.
    AddrInUse,
    /// The stale file was removed.
    Removed,
    /// The path was resolved.
    Resolved,
    /// The group has this number.
    GroupFound { gid: u32 },
    /// The group or the permissions were set.
    Hardened,
    /// The operation failed.
    Failed,
}

/// What the caller does next.
#[derive(Clone, Copy, Debug, PartialEq, Eq, Structural)]
pub enum ChannelAction {
    /// Bind a listening socket at the socket path.
    Bind,
    /// Remove the file at the socket path.
    RemoveStale,
    /// Resolve the socket path.
    Resolve,
    /// Record the resolved path, then look the group up.
    RecordAndLookUp,
    /// Set the group of the file, and leave its owner.
    Chown { owner: ChownUid, group: ChownGid },
    /// Set the permissions of the file.
    Chmod { mode: ChmodMode },
    /// Nothing: the socket is ready.
    Done,
    /// Give up. Nothing was recorded, so nothing is removed.
    Abort { failure: ChannelFailure },
    /// Give up, and remove the file whose path was recorded.
    AbortAndRemove { failure: ChannelFailure },
}

/// Whether the socket's path is recorded in this state.
pub open spec fn is_recorded(state: ChannelState) -> bool {
    match state {
        ChannelState::LookingUp => true,
        ChannelState::Chowning => true,
        ChannelState::Chmoding => true,
        ChannelState::Ready => true,
        ChannelState::Failed { recorded, .. } => recorded,
        _ => false,
    }
}

/// The failed state after `state`, with the action that goes with it.
pub open spec fn give_up(state: ChannelState, failure: ChannelFailure) -> (
    ChannelState,
    ChannelAction,
) {
    if is_recorded(state) {
        (ChannelState::Failed { failure, recorded: true }, ChannelAction::AbortAndRemove { failure })
    } else {
        (ChannelState::Failed { failure, recorded: false }, ChannelAction::Abort { failure })
    }
}

/// One step of making a socket: the next state and what to do, from the
/// state and what was observed.
pub open spec fn channel_transition(state: ChannelState, event: ChannelEvent) -> (
    ChannelState,
    ChannelAction,
) {
    match (state, event) {
        (ChannelState::Binding { attempt }, ChannelEvent::Bound) => (
            ChannelState::Resolving,
            ChannelAction::Resolve,
        ),
        (ChannelState::Binding { attempt }, ChannelEvent::AddrInUse) => if attempt < 2 {
            (ChannelState::Removing { attempt }, ChannelAction::RemoveStale)
        } else {
            give_up(state, ChannelFailure::Create)
        },
        (ChannelState::Binding { attempt }, ChannelEvent::Failed) => give_up(
            state,
            ChannelFailure::Create,
        ),
        (ChannelState::Removing { attempt }, ChannelEvent::Removed) => if attempt < 2 {
            (ChannelState::Binding { attempt: (attempt + 1) as u8 }, ChannelAction::Bind)
        } else {
            give_up(state, ChannelFailure::Create)
        },
        (ChannelState::Removing { attempt }, ChannelEvent::Failed) => give_up(
            state,
            ChannelFailure::RemoveStale,
        ),
        (ChannelState::Resolving, ChannelEvent::Resolved) => (
            ChannelState::LookingUp,
            ChannelAction::RecordAndLookUp,
        ),
        (ChannelState::Resolving, ChannelEvent::Failed) => give_up(state, ChannelFailure::Resolve),
        (ChannelState::LookingUp, ChannelEvent::GroupFound { gid }) => (
            ChannelState::Chowning,
            ChannelAction::Chown { owner: ChownUid::Unspecified, group: ChownGid::Gid(gid) },
        ),
        (ChannelState::LookingUp, ChannelEvent::Failed) => give_up(state, ChannelFailure::Group),
        (ChannelState::Chowning, ChannelEvent::Hardened) => (
            ChannelState::Chmoding,
            ChannelAction::Chmod { mode: socket_mode() },
        ),
        (ChannelState::Chowning, ChannelEvent::Failed) => give_up(state, ChannelFailure::Chown),
        (ChannelState::Chmoding, ChannelEvent::Hardened) => (
            ChannelState::Ready,
            ChannelAction::Done,
        ),
        (ChannelState::Chmoding, ChannelEvent::Failed) => give_up(state, ChannelFailure::Chmod),
        (ChannelState::Failed { failure, recorded }, _) => give_up(state, failure),
        _ => give_up(state, ChannelFailure::OutOfOrder),
    }
}

/// The state after a run of events, from `state`.
pub open spec fn channel_run(state: ChannelState, events: Seq<ChannelEvent>) -> ChannelState
    decreases events.len(),
{
    if events.len() == 0 {
        state
    } else {
        channel_run(channel_transition(state, events[0]).0, events.drop_first())
    }
}

/// The state in which the making of a socket begins, with the first action.
pub fn channel_start() -> (r: (ChannelState, ChannelAction))
    ensures
        r == (ChannelState::Binding { attempt: 1 }, ChannelAction::Bind),
{
    (ChannelState::Binding { attempt: 1 }, ChannelAction::Bind)
}

fn recorded(state: ChannelState) -> (r: bool)
    ensures
        r == is_recorded(state),
{
    match state {
        ChannelState::LookingUp => true,
        ChannelState::Chowning => true,
        ChannelState::Chmoding => true,
        ChannelState::Ready => true,
        ChannelState::Failed { recorded, .. } => recorded,
        _ => false,
    }
}

fn abandon(state: ChannelState, failure: ChannelFailure) -> (r: (ChannelState, ChannelAction))
    ensures
        r == give_up(state, failure),
{
    if recorded(state) {
        (ChannelState::Failed { failure, recorded: true }, ChannelAction::AbortAndRemove { failure })
    } else {
        (ChannelState::Failed { failure, recorded: false }, ChannelAction::Abort { failure })
    }
}

/// Advances the making of a socket by one observation.
pub fn channel_step(state: ChannelState, event: ChannelEvent) -> (r: (ChannelState, ChannelAction))
    ensures
        r == channel_transition(state, event),
{
    match state {
        ChannelState::Binding { attempt } => match event {
            ChannelEvent::Bound => (ChannelState::Resolving, ChannelAction::Resolve),
            ChannelEvent::AddrInUse => if attempt < BIND_ATTEMPTS {
                (ChannelState::Removing { attempt }, ChannelAction::RemoveStale)
            } else {
                abandon(state, ChannelFailure::Create)
            },
            ChannelEvent::Failed => abandon(state, ChannelFailure::Create),
            _ => abandon(state, ChannelFailure::OutOfOrder),
        },
        ChannelState::Removing { attempt } => match event {
            ChannelEvent::Removed => if attempt < BIND_ATTEMPTS {
                (ChannelState::Binding { attempt: attempt + 1 }, ChannelAction::Bind)
            } else {
                abandon(state, ChannelFailure::Create)
            },
            ChannelEvent::Failed => abandon(state, ChannelFailure::RemoveStale),
            _ => abandon(state, ChannelFailure::OutOfOrder),
        },
        ChannelState::Resolving => match event {
            ChannelEvent::Resolved => (ChannelState::LookingUp, ChannelAction::RecordAndLookUp),
            ChannelEvent::Failed => abandon(state, ChannelFailure::Resolve),
            _ => abandon(state, ChannelFailure::OutOfOrder),
        },
        ChannelState::LookingUp => match event {
            ChannelEvent::GroupFound { gid } => (
                ChannelState::Chowning,
                ChannelAction::Chown { owner: ChownUid::Unspecified, group: ChownGid::Gid(gid) },
            ),
            ChannelEvent::Failed => abandon(state, ChannelFailure::Group),
            _ => abandon(state, ChannelFailure::OutOfOrder),
        },
        ChannelState::Chowning => match event {
            ChannelEvent::Hardened => (
                ChannelState::Chmoding,
                ChannelAction::Chmod { mode: ChmodMode::socket_file() },
            ),
            ChannelEvent::Failed => abandon(state, ChannelFailure::Chown),
            _ => abandon(state, ChannelFailure::OutOfOrder),
        },
        ChannelState::Chmoding => match event {
            ChannelEvent::Hardened => (ChannelState::Ready, ChannelAction::Done),
            ChannelEvent::Failed => abandon(state, ChannelFailure::Chmod),
            _ => abandon(state, ChannelFailure::OutOfOrder),
        },
        ChannelState::Ready => abandon(state, ChannelFailure::OutOfOrder),
        ChannelState::Failed { failure, .. } => abandon(state, failure),
    }
}

impl SocketFile {
    /// The path at which the service binds its socket, in a runtime directory
    /// that it holds.
    pub fn bind_path(program_dir: &ProgramDir) -> (r: String)
        ensures
            r@ == joined_path(program_dir@, "socket"@),
    {
        program_dir.join(SOCKET_FILE_NAME)
    }

    /// The handle of a socket: with `path` for a socket file that the
    /// service made, without for a socket that was handed over.
    pub fn new(path: Option<&str>) -> (r: SocketFile)
        ensures
            match path {
                Some(p) => r@ == Some(p@),
                None => r@ is None,
            },
    {
        match path {
            Some(p) => SocketFile { path: Some(String::from_str(p)) },
            None => SocketFile { path: None },
        }
    }

    /// The handle that goes with a state of the making of a socket: it holds
    /// the resolved path exactly where that path was recorded.
    pub fn of_state(state: ChannelState, resolved: &str) -> (r: SocketFile)
        ensures
            is_recorded(state) ==> r@ == Some(resolved@),
            !is_recorded(state) ==> r@ is None,
    {
        if recorded(state) {
            SocketFile::new(Some(resolved))
        } else {
            SocketFile::new(None)
        }
    }

    /// The path of the socket file, where the service made it.
    pub fn path(&self) -> (r: Option<&str>)
        ensures
            match self@ {
                Some(p) => r matches Some(q) && q@ == p,
                None => r is None,
            },
    {
        match &self.path {
            Some(p) => Some(p.as_str()),
            None => None,
        }
    }

    /// The file to remove when the socket is given up: the recorded path, and
    /// nothing where none was recorded. A removal that fails is let be.
    pub fn release(self) -> (r: Option<String>)
        ensures
            match self@ {
                Some(p) => r matches Some(q) && q@ == p,
                None => r is None,
            },
    {
        self.path
    }
}

/// The kind of socket that a supervisor must hand over: a listening stream
/// socket of the local domain.
pub fn inherited_kind() -> (r: (AddressFamily, SocketType, Listening))
    ensures
        r == (AddressFamily::Unix, SocketType::Stream, Listening::Listening),
{
    (AddressFamily::Unix, SocketType::Stream, Listening::Listening)
}

/// The one descriptor that the supervisor handed over; any other number of
/// descriptors is an error that names the number.
pub fn inherited_descriptor(fds: ListenFds) -> (r: Result<i32, Error>)
    ensures
        fds@.len() == 1 ==> r == Ok::<i32, Error>(fds@[0]),
        fds@.len() != 1 ==> r == Err::<i32, Error>(Error::ListenFdsNr(fds@.len() as usize)),
{
    let mut fds = fds;
    let count: usize = fds.len();
    if count != 1 {
        return Err(Error::ListenFdsNr(count));
    }
    match fds.next() {
        Some(fd) => Ok(fd),
        None => Err(Error::ListenFdsNr(count)),
    }
}

/// What the check of the descriptor's kind leads to: the handle of a socket
/// without a file of its own, or the error.
pub open spec fn inherited(kind: Result<bool, Errno>) -> Result<Option<Seq<char>>, Error> {
    match kind {
        Err(e) => Err(Error::ListenFds(e)),
        Ok(false) => Err(Error::ListenFdsKind),
        Ok(true) => Ok(None),
    }
}

/// Takes over the descriptor after the check of its kind: `kind` is the
/// answer to whether it is a listening stream socket of the local domain.
pub fn inherited_socket(kind: Result<bool, Errno>) -> (r: Result<SocketFile, Error>)
    ensures
        match inherited(kind) {
            Ok(path) => r matches Ok(socket) && socket@ == path,
            Err(Error::ListenFds(e)) => r == Err::<SocketFile, Error>(Error::ListenFds(e)),
            Err(_) => r == Err::<SocketFile, Error>(Error::ListenFdsKind),
        },
{
    match kind {
        Err(e) => Err(Error::ListenFds(e)),
        Ok(false) => Err(Error::ListenFdsKind),
        Ok(true) => Ok(SocketFile::new(None)),
    }
}

/// The error for a socket that was not made; `path` is the socket's path and
/// `errno` the system's error number, `detail` the text of the failure.
pub fn channel_error(failure: ChannelFailure, path: &str, errno: Errno, detail: &str) -> (r: Error)
    ensures
        failure == ChannelFailure::Chown ==> (r matches Error::Chown(e, p) && e == errno && p@
            == path@),
        failure == ChannelFailure::Chmod ==> (r matches Error::Chmod(e, p) && e == errno && p@
            == path@),
        failure != ChannelFailure::Chown && failure != ChannelFailure::Chmod ==> (r matches Error::Io(
            m,
        ) && m@ == detail@),
{
    match failure {
        ChannelFailure::Chown => Error::Chown(errno, String::from_str(path)),
        ChannelFailure::Chmod => Error::Chmod(errno, String::from_str(path)),
        _ => Error::Io(String::from_str(detail)),
    }
}

/// Whether a state comes before the socket exists.
pub open spec fn before_bind(state: ChannelState) -> bool {
    match state {
        ChannelState::Binding { .. } => true,
        ChannelState::Removing { .. } => true,
        ChannelState::Failed { recorded, .. } => !recorded,
        _ => false,
    }
}

/// As long as no bind has succeeded, no path is recorded, whatever else
/// happens: giving up then removes nothing.
pub proof fn law_nothing_recorded_without_bind(state: ChannelState, events: Seq<ChannelEvent>)
    requires
        before_bind(state),
        forall|i: int| 0 <= i < events.len() ==> #[trigger] events[i] != ChannelEvent::Bound,
    ensures
        before_bind(channel_run(state, events)),
        !is_recorded(channel_run(state, events)),
    decreases events.len(),
{
    if events.len() > 0 {
        let next = channel_transition(state, events[0]).0;
        assert(events[0] != ChannelEvent::Bound);
        assert(before_bind(next));
        let rest = events.drop_first();
        assert forall|i: int| 0 <= i < rest.len() implies #[trigger] rest[i]
            != ChannelEvent::Bound by {
            assert(rest[i] == events[i + 1]);
        }
        law_nothing_recorded_without_bind(next, rest);
    }
}

/// A path is recorded in one way only: by resolving it, which is asked for
/// only after a successful bind. Once recorded it stays recorded, and every
/// failure after that asks for the file to be removed.
pub proof fn law_record_follows_bind(state: ChannelState, event: ChannelEvent)
    ensures
        ({
            let next = channel_transition(state, event);
            &&& is_recorded(next.0) && !is_recorded(state) ==> state == ChannelState::Resolving
                && event == ChannelEvent::Resolved
            &&& next.0 == ChannelState::Resolving ==> state is Binding && event
                == ChannelEvent::Bound
            &&& is_recorded(state) ==> is_recorded(next.0)
            &&& next.1 is AbortAndRemove <==> next.0 is Failed && is_recorded(next.0)
            &&& next.1 is Abort <==> next.0 is Failed && !is_recorded(next.0)
        }),
{
}

/// A socket that was handed over has no file of the service's: whatever the
/// outcome, nothing is recorded, so nothing is ever removed.
pub proof fn law_inherited_has_no_file(kind: Result<bool, Errno>)
    ensures
        inherited(kind) matches Ok(path) ==> path is None,
        inherited(kind) is Ok <==> kind == Ok::<bool, Errno>(true),
        kind == Ok::<bool, Errno>(false) ==> inherited(kind) == Err::<Option<Seq<char>>, Error>(
            Error::ListenFdsKind,
        ),
{
}

/// The file permissions asked for are read and write for owner and group and
/// nothing else.
pub proof fn law_socket_mode()
    ensures
        mode_bits(socket_mode()) == 0o660,
{
    reveal(crate::perms::bit);
}

} // verus!
