//! The errors of the service, and the exit status each one leads to.

use crate::decimal::{append_decimal, append_signed, decimal_chars, signed_chars};
use crate::group::{group_text, Group};
use crate::paths::{path_quote, quoted_path};
use vstd::prelude::*;
use vstd::std_specs::convert::FromSpecImpl;
use vstd::string::StringExecFns;

verus! {

/// An error number reported by the operating system.
#[derive(Clone, Copy, Debug, PartialEq, Eq, Structural)]
pub struct Errno {
    pub errno: i32,
}

impl From<i32> for Errno {
    fn from(errno: i32) -> (r: Errno) {
        Errno { errno }
    }
}

impl FromSpecImpl<i32> for Errno {
    open spec fn obeys_from_spec() -> bool {
        true
    }

    open spec fn from_spec(errno: i32) -> Errno {
        Errno { errno }
    }
}

/// The result of what can fail with an `Error`.
pub type Res<T> = Result<T, Error>;

/// Everything that can end startup or a run of the service.
///
/// Paths and the messages of foreign errors are carried as text.
#[derive(Debug)]
pub enum Error {
    /// The permission bits of the socket file could not be set: hardening
    /// the socket failed.
    Chmod(Errno, String),
    /// The group of the socket file could not be set: hardening the socket
    /// failed.
    Chown(Errno, String),
    /// The command line was not understood.
    Clap(String),
    /// The command line asked for help or the version, which was shown.
    ClapDisplayed(String),
    /// Daemonizing was asked for under a supervisor: a daemonize conflict.
    DaemonizeConflict,
    /// The process could not fork: a fork failure.
    Fork(Errno),
    /// The fork succeeded and this is the process that hands over: the child
    /// has the given process identifier.
    Forked(i32),
    /// The group could not be looked up: group resolution failed.
    Gid(Errno, Group),
    /// No such group exists: group resolution failed.
    GidNotFound(Group),
    /// A file or socket operation failed; failing to make the socket is one
    /// of these.
    Io(String),
    /// The supervisor's descriptors could not be queried.
    ListenFds(Errno),
    /// The supervisor passed a descriptor that is not a listening local
    /// stream socket: the wrong kind of descriptor.
    ListenFdsKind,
    /// The supervisor passed this many descriptors instead of one: the wrong
    /// number of descriptors.
    ListenFdsNr(usize),
    /// The supervisor could not be notified.
    Notify(Errno),
    /// The supervisor set up no notification channel: the channel to notify
    /// is missing.
    NotifyNoSocket,
    /// The marker file at the path holds more than this many bytes: the
    /// marker is too large.
    PidFileSize(String, usize),
    /// The runtime directory at the path is held by a live process: a lock
    /// conflict.
    ProgramDirAcquire(String),
    /// Text was not valid UTF-8.
    Utf8(String),
    /// The runtime directory convention could not be consulted.
    Xdg(String),
}

/// An error number in words: the system's description of it, then the
/// number itself in brackets.
pub open spec fn errno_text(e: Errno, description: Seq<char>) -> Seq<char> {
    description + " (errno "@ + signed_chars(e.errno as int) + ")"@
}

impl Errno {
    /// Appends this error number in words to `out`; `description` is what the
    /// system calls it.
    pub fn append_to(&self, description: &str, out: &mut String)
        ensures
            final(out)@ == old(out)@ + errno_text(*self, description@),
    {
        out.append(description);
        out.append(" (errno ");
        append_signed(self.errno as i64, out);
        out.append(")");
        assert(out@ =~= old(out)@ + errno_text(*self, description@));
    }

    /// This error number in words; `description` is what the system calls it.
    pub fn describe(&self, description: &str) -> (r: String)
        ensures
            r@ == errno_text(*self, description@),
    {
        let mut text = String::new();
        self.append_to(description, &mut text);
        assert(text@ =~= errno_text(*self, description@));
        text
    }
}

/// What the command line parser reported.
#[derive(Clone, Copy, Debug, PartialEq, Eq, Structural)]
pub enum ClapKind {
    /// It showed the help text.
    HelpDisplayed,
    /// It showed the version.
    VersionDisplayed,
    /// It found a mistake.
    Other,
}

/// An error in words. `description` is what the system calls the error
/// number, for the errors that hold one.
pub open spec fn error_text(e: Error, description: Seq<char>) -> Seq<char> {
    match e {
        Error::Chmod(errno, path) => "cannot chmod "@ + quoted_path(path@) + ": "@ + errno_text(
            errno,
            description,
        ),
        Error::Chown(errno, path) => "cannot chown "@ + quoted_path(path@) + ": "@ + errno_text(
            errno,
            description,
        ),
        Error::Clap(message) => message@,
        Error::ClapDisplayed(message) => message@,
        Error::DaemonizeConflict => "cannot daemonize with systemd"@,
        Error::Fork(errno) => "cannot fork: "@ + errno_text(errno, description),
        Error::Forked(pid) => "forked process: child PID "@ + signed_chars(pid as int),
        Error::Gid(errno, group) => "cannot access GID of group "@ + group_text(group) + ": "@
            + errno_text(errno, description),
        Error::GidNotFound(group) => "GID of group "@ + group_text(group) + " not found"@,
        Error::Io(message) => message@,
        Error::ListenFds(errno) => "cannot access listen sockets passed: "@ + errno_text(
            errno,
            description,
        ),
        Error::ListenFdsKind => "illegal kind of listen socket passed"@,
        Error::ListenFdsNr(nr) => "illegal nr of listen sockets passed: "@ + decimal_chars(
            nr as nat,
        ),
        Error::Notify(errno) => "cannot notify: "@ + errno_text(errno, description),
        Error::NotifyNoSocket => "cannot notify: socket not set"@,
        Error::PidFileSize(path, size) => "PID file "@ + quoted_path(path@) + " too large: "@
            + decimal_chars(size as nat) + " B"@,
        Error::ProgramDirAcquire(path) => "cannot acquire program dir "@ + quoted_path(path@),
        Error::Utf8(message) => message@,
        Error::Xdg(message) => message@,
    }
}

/// The text of the error that lies under `e`, for the errors that pass on
/// what something else reported.
pub open spec fn cause_of(e: Error) -> Option<Seq<char>> {
    match e {
        Error::Clap(message) => Some(message@),
        Error::ClapDisplayed(message) => Some(message@),
        Error::Io(message) => Some(message@),
        Error::Utf8(message) => Some(message@),
        Error::Xdg(message) => Some(message@),
        _ => None,
    }
}

/// The exit status after a run that ended with `e`.
pub open spec fn exit_status_of(e: Error) -> i32 {
    match e {
        Error::Clap(_) => 2,
        Error::ClapDisplayed(_) => 0,
        Error::Forked(_) => 0,
        _ => 1,
    }
}

/// The exit status of a whole run: zero on graceful completion, after a
/// displayed help text and in the process that forked the daemon; two on a
/// command line that was not understood; one on every other error.
pub open spec fn exit_status(outcome: Result<(), Error>) -> i32 {
    match outcome {
        Ok(_) => 0,
        Err(e) => exit_status_of(e),
    }
}

impl Error {
    /// The exit status of the process after this error.
    pub fn exit_code(&self) -> (r: i32)
        ensures
            r == exit_status_of(*self),
    {
        match self {
            Error::Clap(_) => 2,
            Error::ClapDisplayed(_) => 0,
            Error::Forked(_) => 0,
            _ => 1,
        }
    }

    /// The error for what the command line parser reported: a help text or
    /// version that it showed is no failure.
    pub fn from_clap(kind: ClapKind, message: String) -> (r: Error)
        ensures
            kind == ClapKind::Other ==> (r matches Error::Clap(m) && m@ == message@),
            kind != ClapKind::Other ==> (r matches Error::ClapDisplayed(m) && m@ == message@),
    {
        match kind {
            ClapKind::HelpDisplayed => Error::ClapDisplayed(message),
            ClapKind::VersionDisplayed => Error::ClapDisplayed(message),
            ClapKind::Other => Error::Clap(message),
        }
    }

    /// The text of the error that lies under this one, if it passes one on.
    pub fn cause(&self) -> (r: Option<&str>)
        ensures
            match cause_of(*self) {
                Some(text) => r matches Some(t) && t@ == text,
                None => r is None,
            },
    {
        match self {
            Error::Clap(message) => Some(message.as_str()),
            Error::ClapDisplayed(message) => Some(message.as_str()),
            Error::Io(message) => Some(message.as_str()),
            Error::Utf8(message) => Some(message.as_str()),
            Error::Xdg(message) => Some(message.as_str()),
            _ => None,
        }
    }

    /// This error in words. `description` is what the system calls the error
    /// number, for the errors that hold one; the others do not use it.
    pub fn message(&self, description: &str) -> (r: String)
        ensures
            r@ == error_text(*self, description@),
    {
        let mut text = String::new();
        match self {
            Error::Chmod(errno, path) => {
                text.append("cannot chmod ");
                text.append(path_quote(path.as_str()).as_str());
                text.append(": ");
                errno.append_to(description, &mut text);
            },
            Error::Chown(errno, path) => {
                text.append("cannot chown ");
                text.append(path_quote(path.as_str()).as_str());
                text.append(": ");
                errno.append_to(description, &mut text);
            },
            Error::Clap(message) => {
                text.append(message.as_str());
            },
            Error::ClapDisplayed(message) => {
                text.append(message.as_str());
            },
            Error::DaemonizeConflict => {
                text.append("cannot daemonize with systemd");
            },
            Error::Fork(errno) => {
                text.append("cannot fork: ");
                errno.append_to(description, &mut text);
            },
            Error::Forked(pid) => {
                text.append("forked process: child PID ");
                append_signed(*pid as i64, &mut text);
            },
            Error::Gid(errno, group) => {
                text.append("cannot access GID of group ");
                text.append(group.to_string().as_str());
                text.append(": ");
                errno.append_to(description, &mut text);
            },
            Error::GidNotFound(group) => {
                text.append("GID of group ");
                text.append(group.to_string().as_str());
                text.append(" not found");
            },
            Error::Io(message) => {
                text.append(message.as_str());
            },
            Error::ListenFds(errno) => {
                text.append("cannot access listen sockets passed: ");
                errno.append_to(description, &mut text);
            },
            Error::ListenFdsKind => {
                text.append("illegal kind of listen socket passed");
            },
            Error::ListenFdsNr(nr) => {
                text.append("illegal nr of listen sockets passed: ");
                append_decimal(*nr as u64, &mut text);
            },
            Error::Notify(errno) => {
                text.append("cannot notify: ");
                errno.append_to(description, &mut text);
            },
            Error::NotifyNoSocket => {
                text.append("cannot notify: socket not set");
            },
            Error::PidFileSize(path, size) => {
                text.append("PID file ");
                text.append(path_quote(path.as_str()).as_str());
                text.append(" too large: ");
                append_decimal(*size as u64, &mut text);
                text.append(" B");
            },
            Error::ProgramDirAcquire(path) => {
                text.append("cannot acquire program dir ");
                text.append(path_quote(path.as_str()).as_str());
            },
            Error::Utf8(message) => {
                text.append(message.as_str());
            },
            Error::Xdg(message) => {
                text.append(message.as_str());
            },
        }
        assert(text@ =~= error_text(*self, description@));
        text
    }

    /// Whether the error ends startup as a failure, rather than reporting an
    /// orderly early exit.
    pub fn is_fatal(&self) -> (r: bool)
        ensures
            r == (exit_status_of(*self) != 0),
    {
        self.exit_code() != 0
    }
}

/// The exit status of a whole run.
pub fn exit_code(outcome: &Result<(), Error>) -> (r: i32)
    ensures
        r == exit_status(*outcome),
{
    match outcome {
        Ok(_) => 0,
        Err(e) => e.exit_code(),
    }
}

} // verus!
