//! The two ways the service can be run: on its own, or under a supervisor
//! that hands over the socket and wants to hear how the service is doing.

use crate::daemon::{daemonize_decision, maybe_daemonize, SupervisionMode};
use crate::errors::{Errno, Error};
use crate::group::{same_group, Group};
use crate::sockets::{notify_text, NotifyState};
use vstd::prelude::*;
use vstd::string::{StrSliceExecFns, StringExecFns};

verus! {

/// The init systems that the service knows.
#[derive(Clone, Copy, Debug, PartialEq, Eq, Structural)]
pub enum InitSystemKind {
    /// No init system: the service looks after itself. Its name is "None".
    Unmanaged,
    /// systemd hands over the socket and is told of the service's state.
    Systemd,
}

/// A moment in the life of the service that a supervisor is told of.
#[derive(Clone, Copy, Debug, PartialEq, Eq, Structural)]
pub enum LifecycleEvent {
    StartupComplete,
    ReloadStarting,
    ReloadComplete,
    ShutdownStarting,
}

/// The text that tells a supervisor of an event.
pub open spec fn event_text(event: LifecycleEvent) -> Seq<char> {
    match event {
        LifecycleEvent::StartupComplete => "READY=1"@,
        LifecycleEvent::ReloadStarting => "RELOADING=1"@,
        LifecycleEvent::ReloadComplete => "READY=1"@,
        LifecycleEvent::ShutdownStarting => "STOPPING=1"@,
    }
}

/// The variable through which a supervisor is told of an event; its value is
/// always "1".
pub open spec fn event_variable(event: LifecycleEvent) -> Seq<char> {
    match event {
        LifecycleEvent::StartupComplete => "READY"@,
        LifecycleEvent::ReloadStarting => "RELOADING"@,
        LifecycleEvent::ReloadComplete => "READY"@,
        LifecycleEvent::ShutdownStarting => "STOPPING"@,
    }
}

/// What is sent for an event: nothing where nobody supervises, the event's
/// text under a supervisor.
pub open spec fn notification(mode: SupervisionMode, event: LifecycleEvent) -> Option<Seq<char>> {
    match mode {
        SupervisionMode::Unsupervised => None,
        SupervisionMode::Supervised => Some(event_text(event)),
    }
}

/// How a notification ended: sent, not sent for want of a channel, or failed.
pub open spec fn notified(sent: Result<bool, Errno>) -> Result<(), Error> {
    match sent {
        Err(e) => Err(Error::Notify(e)),
        Ok(false) => Err(Error::NotifyNoSocket),
        Ok(true) => Ok(()),
    }
}

/// Lower-case form of an ASCII letter; every other character is itself.
pub open spec fn lower(c: char) -> char {
    if 'A' <= c && c <= 'Z' {
        ((c as u8) + 32) as char
    } else {
        c
    }
}

/// Whether two texts are the same but for the case of their ASCII letters.
pub open spec fn same_ignoring_case(a: Seq<char>, b: Seq<char>) -> bool {
    a.len() == b.len() && forall|i: int| 0 <= i < a.len() ==> lower(#[trigger] a[i]) == lower(b[i])
}

/// The kind that a text names: "none" or "systemd", in any case.
pub open spec fn kind_of(s: Seq<char>) -> Option<InitSystemKind> {
    if same_ignoring_case(s, "None"@) {
        Some(InitSystemKind::Unmanaged)
    } else if same_ignoring_case(s, "Systemd"@) {
        Some(InitSystemKind::Systemd)
    } else {
        None
    }
}

fn lower_char(c: char) -> (r: char)
    ensures
        r == lower(c),
{
    if 'A' <= c && c <= 'Z' {
        ((c as u8) + 32) as char
    } else {
        c
    }
}

fn eq_ignore_case(a: &str, b: &str) -> (r: bool)
    ensures
        r == same_ignoring_case(a@, b@),
{
    let n: usize = a.unicode_len();
    if n != b.unicode_len() {
        return false;
    }
    let mut i: usize = 0;
    while i < n
        invariant
            n == a@.len(),
            n == b@.len(),
            0 <= i <= n,
            forall|j: int| 0 <= j < i ==> lower(#[trigger] a@[j]) == lower(b@[j]),
        decreases n - i,
    {
        if lower_char(a.get_char(i)) != lower_char(b.get_char(i)) {
            return false;
        }
        i += 1;
    }
    true
}

impl InitSystemKind {
    /// The kind that is used where none is chosen.
    pub fn variant_default() -> (r: InitSystemKind)
        ensures
            r == InitSystemKind::Unmanaged,
    {
        InitSystemKind::Unmanaged
    }

    /// The names of the kinds.
    pub fn variants() -> (r: [&'static str; 2])
        ensures
            r@.len() == 2,
            r@[0]@ == "None"@,
            r@[1]@ == "Systemd"@,
    {
        ["None", "Systemd"]
    }

    /// The kind's name.
    pub fn name(&self) -> (r: &'static str)
        ensures
            *self == InitSystemKind::Unmanaged ==> r@ == "None"@,
            *self == InitSystemKind::Systemd ==> r@ == "Systemd"@,
    {
        match self {
            InitSystemKind::Unmanaged => "None",
            InitSystemKind::Systemd => "Systemd",
        }
    }

    /// The kind that `s` names, whatever the case of its letters.
    pub fn from_str(s: &str) -> (r: Option<InitSystemKind>)
        ensures
            r == kind_of(s@),
    {
        if eq_ignore_case(s, "None") {
            Some(InitSystemKind::Unmanaged)
        } else if eq_ignore_case(s, "Systemd") {
            Some(InitSystemKind::Systemd)
        } else {
            None
        }
    }

    /// Whether a supervisor runs the service.
    pub fn mode(&self) -> (r: SupervisionMode)
        ensures
            r == mode_of(*self),
    {
        match self {
            InitSystemKind::Unmanaged => SupervisionMode::Unsupervised,
            InitSystemKind::Systemd => SupervisionMode::Supervised,
        }
    }

    /// Sets the service up for this kind of init system. `daemonize` is what
    /// the user asked for, `socket_file_group` the group for a socket file
    /// that the service makes itself; under a supervisor it makes none, and
    /// the group is not used.
    pub fn to_init_system(&self, daemonize: Option<bool>, socket_file_group: Group) -> (r: Result<
        InitSystem,
        Error,
    >)
        ensures
            match daemonize_decision(daemonize, mode_of(*self)) {
                None => r == Err::<InitSystem, Error>(Error::DaemonizeConflict),
                Some(fork) => r matches Ok(init) && init.kind() == *self && init.forks() == fork
                    && (
                match *self {
                    InitSystemKind::Unmanaged => init.group() matches Some(g) && same_group(
                        g,
                        socket_file_group,
                    ),
                    InitSystemKind::Systemd => init.group() is None,
                }),
            },
    {
        let fork: bool = match maybe_daemonize(daemonize, self.mode()) {
            Ok(fork) => fork,
            Err(e) => {
                return Err(e);
            },
        };
        match self {
            InitSystemKind::Unmanaged => Ok(
                InitSystem {
                    kind: InitSystemKind::Unmanaged,
                    daemonize: fork,
                    notify: Notify { mode: SupervisionMode::Unsupervised },
                    socket_file_group: Some(socket_file_group),
                },
            ),
            InitSystemKind::Systemd => Ok(
                InitSystem {
                    kind: InitSystemKind::Systemd,
                    daemonize: fork,
                    notify: Notify { mode: SupervisionMode::Supervised },
                    socket_file_group: None,
                },
            ),
        }
    }
}

/// Whether a supervisor runs a service of this kind.
pub open spec fn mode_of(kind: InitSystemKind) -> SupervisionMode {
    match kind {
        InitSystemKind::Unmanaged => SupervisionMode::Unsupervised,
        InitSystemKind::Systemd => SupervisionMode::Supervised,
    }
}

/// Tells the supervisor, if there is one, of the service's state.
#[derive(Clone, Copy, Debug, PartialEq, Eq, Structural)]
pub struct Notify {
    mode: SupervisionMode,
}

impl Notify {
    /// Whether there is a supervisor to tell.
    pub closed spec fn mode(&self) -> SupervisionMode {
        self.mode
    }

    /// A notifier for the given mode.
    pub fn new(mode: SupervisionMode) -> (r: Notify)
        ensures
            r.mode() == mode,
    {
        Notify { mode }
    }

    /// The text to send for an event, where there is someone to send it to.
    pub fn announce(&self, event: LifecycleEvent) -> (r: Option<String>)
        ensures
            match notification(self.mode(), event) {
                None => r is None,
                Some(text) => r matches Some(t) && t@ == text,
            },
    {
        match self.mode {
            SupervisionMode::Unsupervised => None,
            SupervisionMode::Supervised => {
                let state = state_of(event);
                proof {
                    lemma_event_text(event);
                }
                Some(state.message())
            },
        }
    }

    /// The text that says that startup is over.
    pub fn startup_end(&self) -> (r: Option<String>)
        ensures
            match notification(self.mode(), LifecycleEvent::StartupComplete) {
                None => r is None,
                Some(text) => r matches Some(t) && t@ == text,
            },
    {
        self.announce(LifecycleEvent::StartupComplete)
    }

    /// The text that says that a reload begins.
    pub fn reload_start(&self) -> (r: Option<String>)
        ensures
            match notification(self.mode(), LifecycleEvent::ReloadStarting) {
                None => r is None,
                Some(text) => r matches Some(t) && t@ == text,
            },
    {
        self.announce(LifecycleEvent::ReloadStarting)
    }

    /// The text that says that a reload is over.
    pub fn reload_end(&self) -> (r: Option<String>)
        ensures
            match notification(self.mode(), LifecycleEvent::ReloadComplete) {
                None => r is None,
                Some(text) => r matches Some(t) && t@ == text,
            },
    {
        self.announce(LifecycleEvent::ReloadComplete)
    }

    /// The text that says that shutdown begins.
    pub fn shutdown_start(&self) -> (r: Option<String>)
        ensures
            match notification(self.mode(), LifecycleEvent::ShutdownStarting) {
                None => r is None,
                Some(text) => r matches Some(t) && t@ == text,
            },
    {
        self.announce(LifecycleEvent::ShutdownStarting)
    }

    /// Judges how sending a notification ended: `sent` is the answer of the
    /// supervisor's library, or `None` where nothing was to be sent.
    pub fn notify(&self, sent: Option<Result<bool, Errno>>) -> (r: Result<(), Error>)
        ensures
            match sent {
                None => r == Ok::<(), Error>(()),
                Some(answer) => r == notified(answer),
            },
    {
        match sent {
            None => Ok(()),
            Some(Err(e)) => Err(Error::Notify(e)),
            Some(Ok(false)) => Err(Error::NotifyNoSocket),
            Some(Ok(true)) => Ok(()),
        }
    }
}

/// The variables that tell a supervisor of an event.
pub fn state_of(event: LifecycleEvent) -> (r: NotifyState)
    ensures
        r@ == seq![(event_variable(event), "1"@)],
{
    match event {
        LifecycleEvent::StartupComplete => NotifyState::single("READY", "1"),
        LifecycleEvent::ReloadStarting => NotifyState::single("RELOADING", "1"),
        LifecycleEvent::ReloadComplete => NotifyState::single("READY", "1"),
        LifecycleEvent::ShutdownStarting => NotifyState::single("STOPPING", "1"),
    }
}

/// The text of an event is its variable set to "1".
pub proof fn lemma_event_text(event: LifecycleEvent)
    ensures
        notify_text(seq![(event_variable(event), "1"@)]) == event_text(event),
{
    reveal_strlit("READY=1");
    reveal_strlit("RELOADING=1");
    reveal_strlit("STOPPING=1");
    reveal_strlit("READY");
    reveal_strlit("RELOADING");
    reveal_strlit("STOPPING");
    reveal_strlit("1");
    let pairs = seq![(event_variable(event), "1"@)];
    assert(pairs[0] == (event_variable(event), "1"@));
    assert(notify_text(pairs) =~= event_text(event));
}

/// Under a supervisor each event is told in its own words; without one
/// nothing is ever sent, and every event counts as told.
pub proof fn law_notifications(event: LifecycleEvent)
    ensures
        notification(SupervisionMode::Unsupervised, event) is None,
        notification(SupervisionMode::Supervised, LifecycleEvent::StartupComplete) == Some(
            "READY=1"@,
        ),
        notification(SupervisionMode::Supervised, LifecycleEvent::ReloadStarting) == Some(
            "RELOADING=1"@,
        ),
        notification(SupervisionMode::Supervised, LifecycleEvent::ReloadComplete) == Some(
            "READY=1"@,
        ),
        notification(SupervisionMode::Supervised, LifecycleEvent::ShutdownStarting) == Some(
            "STOPPING=1"@,
        ),
        notified(Ok(false)) == Err::<(), Error>(Error::NotifyNoSocket),
        notified(Ok(true)) == Ok::<(), Error>(()),
{
}

/// How the service is set up for its init system.
#[derive(Debug)]
pub struct InitSystem {
    kind: InitSystemKind,
    daemonize: bool,
    notify: Notify,
    socket_file_group: Option<Group>,
}

impl InitSystem {
    /// The kind of init system.
    pub closed spec fn kind(&self) -> InitSystemKind {
        self.kind
    }

    /// Whether the process forks into the background.
    pub closed spec fn forks(&self) -> bool {
        self.daemonize
    }

    /// The group of the socket file, where the service makes one.
    pub closed spec fn group(&self) -> Option<Group> {
        self.socket_file_group
    }

    /// The setup holds together: a supervised service does not fork and makes
    /// no socket file, so has no group for one; a service on its own has
    /// one; and what is told goes to the supervisor of this kind.
    #[verifier::type_invariant]
    spec fn wf(&self) -> bool {
        &&& self.notify.mode() == mode_of(self.kind)
        &&& self.kind == InitSystemKind::Systemd ==> !self.daemonize
        &&& (self.kind == InitSystemKind::Unmanaged <==> self.socket_file_group is Some)
    }

    /// Whether the process forks into the background.
    pub fn daemonize(&self) -> (r: bool)
        ensures
            r == self.forks(),
    {
        self.daemonize
    }

    /// The notifier for this init system.
    pub fn notify(&self) -> (r: &Notify)
        ensures
            r.mode() == mode_of(self.kind()),
    {
        proof {
            use_type_invariant(self);
        }
        &self.notify
    }

    /// Whether a supervisor runs the service.
    pub fn mode(&self) -> (r: SupervisionMode)
        ensures
            r == mode_of(self.kind()),
    {
        self.kind.mode()
    }

    /// The group of the socket file, where the service makes one.
    pub fn socket_file_group(&self) -> (r: Option<&Group>)
        ensures
            match self.group() {
                Some(g) => r matches Some(h) && *h == g,
                None => r is None,
            },
    {
        self.socket_file_group.as_ref()
    }
}

/// Where the service stands in its life.
#[derive(Clone, Copy, Debug, PartialEq, Eq, Structural)]
pub enum Phase {
    /// Startup is not over.
    Starting,
    /// The service serves.
    Running,
    /// The service reloads.
    Reloading,
    /// Shutdown has begun.
    Stopping,
}

/// The phase after an event, or `None` where the event does not belong in
/// the phase: startup ends once, reloads begin and end in turn, and shutdown
/// begins once, after which nothing follows.
pub open spec fn phase_after(phase: Phase, event: LifecycleEvent) -> Option<Phase> {
    match (phase, event) {
        (Phase::Starting, LifecycleEvent::StartupComplete) => Some(Phase::Running),
        (Phase::Running, LifecycleEvent::ReloadStarting) => Some(Phase::Reloading),
        (Phase::Reloading, LifecycleEvent::ReloadComplete) => Some(Phase::Running),
        (Phase::Running, LifecycleEvent::ShutdownStarting) => Some(Phase::Stopping),
        (Phase::Reloading, LifecycleEvent::ShutdownStarting) => Some(Phase::Stopping),
        _ => None,
    }
}

/// The phase after a run of events, or `None` where one of them does not
/// belong where it stands.
pub open spec fn phase_after_all(phase: Phase, events: Seq<LifecycleEvent>) -> Option<Phase>
    decreases events.len(),
{
    if events.len() == 0 {
        Some(phase)
    } else {
        match phase_after(phase, events[0]) {
            Some(next) => phase_after_all(next, events.drop_first()),
            None => None,
        }
    }
}

/// Moves the service on by one event, if the event belongs in the phase.
pub fn lifecycle_step(phase: Phase, event: LifecycleEvent) -> (r: Option<Phase>)
    ensures
        r == phase_after(phase, event),
{
    match phase {
        Phase::Starting => match event {
            LifecycleEvent::StartupComplete => Some(Phase::Running),
            _ => None,
        },
        Phase::Running => match event {
            LifecycleEvent::ReloadStarting => Some(Phase::Reloading),
            LifecycleEvent::ShutdownStarting => Some(Phase::Stopping),
            _ => None,
        },
        Phase::Reloading => match event {
            LifecycleEvent::ReloadComplete => Some(Phase::Running),
            LifecycleEvent::ShutdownStarting => Some(Phase::Stopping),
            _ => None,
        },
        Phase::Stopping => None,
    }
}

/// In a run of events that started, the end of startup does not come again,
/// and the start of shutdown is the last event if it comes at all.
pub proof fn lemma_started_order(phase: Phase, events: Seq<LifecycleEvent>)
    requires
        phase != Phase::Starting,
        phase_after_all(phase, events) is Some,
    ensures
        phase == Phase::Stopping ==> events.len() == 0,
        forall|i: int| 0 <= i < events.len() ==> #[trigger] events[i] != LifecycleEvent::StartupComplete,
        forall|i: int|
            0 <= i < events.len() - 1 ==> #[trigger] events[i] != LifecycleEvent::ShutdownStarting,
    decreases events.len(),
{
    if events.len() > 0 {
        let next = phase_after(phase, events[0]).unwrap();
        let rest = events.drop_first();
        lemma_started_order(next, rest);
        assert forall|i: int| 0 <= i < events.len() implies #[trigger] events[i]
            != LifecycleEvent::StartupComplete by {
            if i > 0 {
                assert(events[i] == rest[i - 1]);
            }
        }
        assert forall|i: int| 0 <= i < events.len() - 1 implies #[trigger] events[i]
            != LifecycleEvent::ShutdownStarting by {
            if i > 0 {
                assert(events[i] == rest[i - 1]);
            }
        }
    }
}

/// The events of a life come in order: the end of startup first and once,
/// reloads any number of times, the start of shutdown at most once and last.
pub proof fn law_lifecycle_order(events: Seq<LifecycleEvent>)
    requires
        phase_after_all(Phase::Starting, events) is Some,
        events.len() > 0,
    ensures
        events[0] == LifecycleEvent::StartupComplete,
        forall|i: int| 0 < i < events.len() ==> #[trigger] events[i] != LifecycleEvent::StartupComplete,
        forall|i: int|
            0 <= i < events.len() - 1 ==> #[trigger] events[i] != LifecycleEvent::ShutdownStarting,
{
    let rest = events.drop_first();
    lemma_started_order(Phase::Running, rest);
    assert forall|i: int| 0 < i < events.len() implies #[trigger] events[i]
        != LifecycleEvent::StartupComplete by {
        assert(events[i] == rest[i - 1]);
    }
    assert forall|i: int| 0 <= i < events.len() - 1 implies #[trigger] events[i]
        != LifecycleEvent::ShutdownStarting by {
        if i > 0 {
            assert(events[i] == rest[i - 1]);
        }
    }
}

} // verus!
