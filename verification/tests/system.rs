use krakend::channel::{
    channel_error, channel_start, channel_step, inherited_descriptor, inherited_kind,
    inherited_socket, ChannelAction, ChannelEvent, ChannelFailure, ChannelState, SocketFile,
};
use krakend::daemon::{fork, fork_and_exit, maybe_daemonize, ForkPid, SupervisionMode};
use krakend::decimal::{append_decimal, append_signed};
use krakend::errors::{exit_code, ClapKind, Errno, Error};
use krakend::group::{getgr_step, initial_capacity, GetgrStep, Group};
use krakend::init_system::{
    lifecycle_step, state_of, InitSystemKind, LifecycleEvent, Notify, Phase,
};
use krakend::perms::{chmod, chown, ChmodMode, ChownGid, ChownUid};
use krakend::pidlock::{LockState, ProgramDir};
use krakend::sockets::{
    is_socket, is_socket_query, listen_fds, notify, AddressFamily, Listening, NotifyState,
    SocketType,
};
use krakend::startup::{advance, run, start, Stage};

#[test]
fn chmod_mode_from_str() {
    let mode = ChmodMode::from_str("---rw-rw----").unwrap();
    assert!(mode.owner_read && mode.owner_write && mode.group_read && mode.group_write);
    assert!(!mode.owner_execute && !mode.group_execute);
    assert!(!mode.other_read && !mode.other_write && !mode.other_execute);
    assert!(!mode.set_uid && !mode.set_gid && !mode.sticky);
    assert_eq!(u32::from(mode), 0o660);
    assert_eq!(mode, ChmodMode::socket_file());
}

#[test]
fn chmod_mode_bits() {
    assert_eq!(u32::from(ChmodMode::from_str("------------").unwrap()), 0);
    assert_eq!(u32::from(ChmodMode::from_str("ugsrwxrwxrwx").unwrap()), 0o7777);
    assert_eq!(u32::from(ChmodMode::from_str("u-----------").unwrap()), 0o4000);
    assert_eq!(u32::from(ChmodMode::from_str("-g----------").unwrap()), 0o2000);
    assert_eq!(u32::from(ChmodMode::from_str("--s---------").unwrap()), 0o1000);
    assert_eq!(u32::from(ChmodMode::from_str("---r--------").unwrap()), 0o400);
    assert_eq!(u32::from(ChmodMode::from_str("----w-------").unwrap()), 0o200);
    assert_eq!(u32::from(ChmodMode::from_str("-----x------").unwrap()), 0o100);
    assert_eq!(u32::from(ChmodMode::from_str("------r-----").unwrap()), 0o40);
    assert_eq!(u32::from(ChmodMode::from_str("-------w----").unwrap()), 0o20);
    assert_eq!(u32::from(ChmodMode::from_str("--------x---").unwrap()), 0o10);
    assert_eq!(u32::from(ChmodMode::from_str("---------r--").unwrap()), 0o4);
    assert_eq!(u32::from(ChmodMode::from_str("----------w-").unwrap()), 0o2);
    assert_eq!(u32::from(ChmodMode::from_str("-----------x").unwrap()), 0o1);
    assert_eq!(u32::from(ChmodMode::from_str("???rwxr-xr-x").unwrap()), 0o7755);
}

#[test]
fn chmod_mode_wrong_length() {
    assert!(ChmodMode::from_str("").is_err());
    assert!(ChmodMode::from_str("rw-rw----").is_err());
    assert!(ChmodMode::from_str("---rw-rw-----").is_err());
}

#[test]
fn chown_arguments() {
    assert_eq!(u32::from(ChownUid::Uid(1000)), 1000);
    assert_eq!(u32::from(ChownUid::Unspecified), u32::MAX);
    assert_eq!(u32::from(ChownGid::Gid(100)), 100);
    assert_eq!(u32::from(ChownGid::Unspecified), u32::MAX);
}

#[test]
fn socket_codes_are_those_of_the_system() {
    assert_eq!(i32::from(AddressFamily::Inet), libc::AF_INET);
    assert_eq!(i32::from(AddressFamily::Inet6), libc::AF_INET6);
    assert_eq!(i32::from(AddressFamily::Local), libc::AF_LOCAL);
    assert_eq!(i32::from(AddressFamily::Unix), libc::AF_UNIX);
    assert_eq!(i32::from(AddressFamily::Unspecified), libc::AF_UNSPEC);
    assert_eq!(i32::from(SocketType::Dgram), libc::SOCK_DGRAM);
    assert_eq!(i32::from(SocketType::Raw), libc::SOCK_RAW);
    assert_eq!(i32::from(SocketType::Rdm), libc::SOCK_RDM);
    assert_eq!(i32::from(SocketType::Seqpacket), libc::SOCK_SEQPACKET);
    assert_eq!(i32::from(SocketType::Stream), libc::SOCK_STREAM);
    assert_eq!(i32::from(SocketType::Unspecified), 0);
}

#[test]
fn socket_codes_have_their_values() {
    assert_eq!(i32::from(AddressFamily::Inet), 2);
    assert_eq!(i32::from(AddressFamily::Inet6), 10);
    assert_eq!(i32::from(AddressFamily::Local), 1);
    assert_eq!(i32::from(AddressFamily::Unix), 1);
    assert_eq!(i32::from(AddressFamily::Unspecified), 0);
    assert_eq!(i32::from(SocketType::Dgram), 2);
    assert_eq!(i32::from(SocketType::Raw), 3);
    assert_eq!(i32::from(SocketType::Rdm), 4);
    assert_eq!(i32::from(SocketType::Seqpacket), 5);
    assert_eq!(i32::from(SocketType::Stream), 1);
    assert_eq!(i32::from(Listening::Listening), 1);
    assert_eq!(i32::from(Listening::NotListening), 0);
    assert_eq!(i32::from(Listening::Unspecified), -1);
    assert_eq!(
        is_socket_query(AddressFamily::Unix, SocketType::Stream, Listening::Listening),
        (1, 1, 1)
    );
}

#[test]
fn answers_of_the_supervisor_library() {
    assert_eq!(is_socket(1), Ok(true));
    assert_eq!(is_socket(0), Ok(false));
    assert_eq!(is_socket(-9), Err(Errno { errno: 9 }));
    assert_eq!(notify(5), Ok(true));
    assert_eq!(notify(0), Ok(false));
    assert_eq!(notify(-22), Err(Errno { errno: 22 }));
    assert_eq!(notify(i32::MIN), Err(Errno { errno: i32::MAX }));
    assert_eq!(Errno::from(13), Errno { errno: 13 });
}

#[test]
fn listen_fds_counts_from_three() {
    let mut fds = listen_fds(2).unwrap();
    assert_eq!(fds.len(), 2);
    assert_eq!(fds.size_hint(), (2, Some(2)));
    assert_eq!(fds.next(), Some(3));
    assert_eq!(fds.next(), Some(4));
    assert_eq!(fds.next(), None);
    assert_eq!(fds.next(), None);
    assert_eq!(fds.len(), 0);
    assert_eq!(listen_fds(0).unwrap().len(), 0);
    assert_eq!(listen_fds(-2), Err(Errno { errno: 2 }));
    assert_eq!(listen_fds(i32::MAX).unwrap().len(), (i32::MAX - 3) as usize);
}

#[test]
fn no_descriptor_is_the_wrong_number() {
    match inherited_descriptor(listen_fds(0).unwrap()) {
        Err(Error::ListenFdsNr(0)) => {}
        other => panic!("unexpected: {:?}", other),
    }
}

#[test]
fn two_descriptors_are_the_wrong_number() {
    match inherited_descriptor(listen_fds(2).unwrap()) {
        Err(Error::ListenFdsNr(2)) => {}
        other => panic!("unexpected: {:?}", other),
    }
    match inherited_descriptor(listen_fds(17).unwrap()) {
        Err(Error::ListenFdsNr(17)) => {}
        other => panic!("unexpected: {:?}", other),
    }
}

#[test]
fn one_descriptor_of_the_wrong_kind() {
    assert_eq!(inherited_descriptor(listen_fds(1).unwrap()).unwrap(), 3);
    assert_eq!(
        inherited_kind(),
        (AddressFamily::Unix, SocketType::Stream, Listening::Listening)
    );
    match inherited_socket(is_socket(0)) {
        Err(Error::ListenFdsKind) => {}
        other => panic!("unexpected: {:?}", other),
    }
    match inherited_socket(is_socket(-9)) {
        Err(Error::ListenFds(Errno { errno: 9 })) => {}
        other => panic!("unexpected: {:?}", other),
    }
}

#[test]
fn one_descriptor_of_the_right_kind() {
    let socket = inherited_socket(is_socket(1)).unwrap();
    assert_eq!(socket.path(), None);
    assert_eq!(socket.release(), None);
}

#[test]
fn socket_is_made_and_hardened() {
    let (state, action) = channel_start();
    assert_eq!(action, ChannelAction::Bind);
    let (state, action) = channel_step(state, ChannelEvent::Bound);
    assert_eq!(action, ChannelAction::Resolve);
    assert_eq!(SocketFile::of_state(state, "/run/krakend/socket").path(), None);
    let (state, action) = channel_step(state, ChannelEvent::Resolved);
    assert_eq!(action, ChannelAction::RecordAndLookUp);
    let (state, action) = channel_step(state, ChannelEvent::GroupFound { gid: 100 });
    assert_eq!(
        action,
        ChannelAction::Chown { owner: ChownUid::Unspecified, group: ChownGid::Gid(100) }
    );
    let (state, action) = channel_step(state, ChannelEvent::Hardened);
    match action {
        ChannelAction::Chmod { mode } => assert_eq!(u32::from(mode), 0o660),
        other => panic!("unexpected: {:?}", other),
    }
    let (state, action) = channel_step(state, ChannelEvent::Hardened);
    assert_eq!(state, ChannelState::Ready);
    assert_eq!(action, ChannelAction::Done);
    let socket = SocketFile::of_state(state, "/run/krakend/socket");
    assert_eq!(socket.path(), Some("/run/krakend/socket"));
    assert_eq!(socket.release(), Some(String::from("/run/krakend/socket")));
}

#[test]
fn stale_socket_file_is_removed_once() {
    let (state, _) = channel_start();
    let (state, action) = channel_step(state, ChannelEvent::AddrInUse);
    assert_eq!(action, ChannelAction::RemoveStale);
    let (state, action) = channel_step(state, ChannelEvent::Removed);
    assert_eq!(state, ChannelState::Binding { attempt: 2 });
    assert_eq!(action, ChannelAction::Bind);
    let (state, action) = channel_step(state, ChannelEvent::AddrInUse);
    assert_eq!(action, ChannelAction::Abort { failure: ChannelFailure::Create });
    assert_eq!(
        state,
        ChannelState::Failed { failure: ChannelFailure::Create, recorded: false }
    );
    assert_eq!(SocketFile::of_state(state, "/run/krakend/socket").release(), None);
}

#[test]
fn failed_bind_records_nothing() {
    let (state, _) = channel_start();
    let (state, action) = channel_step(state, ChannelEvent::Failed);
    assert_eq!(action, ChannelAction::Abort { failure: ChannelFailure::Create });
    assert_eq!(SocketFile::of_state(state, "/run/krakend/socket").release(), None);
    let (state, _) = channel_start();
    let (state, _) = channel_step(state, ChannelEvent::AddrInUse);
    let (state, action) = channel_step(state, ChannelEvent::Failed);
    assert_eq!(action, ChannelAction::Abort { failure: ChannelFailure::RemoveStale });
    assert_eq!(SocketFile::of_state(state, "/run/krakend/socket").release(), None);
    let (state, _) = channel_start();
    let (state, _) = channel_step(state, ChannelEvent::Bound);
    let (state, action) = channel_step(state, ChannelEvent::Failed);
    assert_eq!(action, ChannelAction::Abort { failure: ChannelFailure::Resolve });
    assert_eq!(SocketFile::of_state(state, "/run/krakend/socket").release(), None);
}

#[test]
fn failed_hardening_removes_the_file() {
    let (state, _) = channel_start();
    let (state, _) = channel_step(state, ChannelEvent::Bound);
    let (state, _) = channel_step(state, ChannelEvent::Resolved);
    let (failed, action) = channel_step(state, ChannelEvent::Failed);
    assert_eq!(action, ChannelAction::AbortAndRemove { failure: ChannelFailure::Group });
    assert_eq!(
        SocketFile::of_state(failed, "/run/krakend/socket").release(),
        Some(String::from("/run/krakend/socket"))
    );
    let (state, _) = channel_step(state, ChannelEvent::GroupFound { gid: 5 });
    let (failed, action) = channel_step(state, ChannelEvent::Failed);
    assert_eq!(action, ChannelAction::AbortAndRemove { failure: ChannelFailure::Chown });
    assert_eq!(
        failed,
        ChannelState::Failed { failure: ChannelFailure::Chown, recorded: true }
    );
    let (state, _) = channel_step(state, ChannelEvent::Hardened);
    let (_, action) = channel_step(state, ChannelEvent::Failed);
    assert_eq!(action, ChannelAction::AbortAndRemove { failure: ChannelFailure::Chmod });
    let (_, action) = channel_step(ChannelState::Ready, ChannelEvent::Bound);
    assert_eq!(action, ChannelAction::AbortAndRemove { failure: ChannelFailure::OutOfOrder });
}

#[test]
fn channel_errors_name_the_path() {
    let errno = Errno { errno: 1 };
    match channel_error(ChannelFailure::Chown, "/run/krakend/socket", errno, "") {
        Error::Chown(e, path) => {
            assert_eq!(e, errno);
            assert_eq!(path, "/run/krakend/socket");
        }
        other => panic!("unexpected: {:?}", other),
    }
    match channel_error(ChannelFailure::Chmod, "/run/krakend/socket", errno, "") {
        Error::Chmod(e, path) => {
            assert_eq!(e, errno);
            assert_eq!(path, "/run/krakend/socket");
        }
        other => panic!("unexpected: {:?}", other),
    }
    match channel_error(ChannelFailure::Create, "/run/krakend/socket", errno, "denied") {
        Error::Io(detail) => assert_eq!(detail, "denied"),
        other => panic!("unexpected: {:?}", other),
    }
}

#[test]
fn socket_path_is_in_the_program_dir() {
    let dir = ProgramDir::acquire("/run/krakend", LockState::Held, "").unwrap();
    assert_eq!(SocketFile::bind_path(&dir), "/run/krakend/socket");
    assert_eq!(SocketFile::new(Some("/x")).path(), Some("/x"));
    assert_eq!(SocketFile::new(None).path(), None);
}

#[test]
fn daemonize_under_supervisor_is_refused() {
    match maybe_daemonize(Some(true), SupervisionMode::Supervised) {
        Err(Error::DaemonizeConflict) => {}
        other => panic!("unexpected: {:?}", other),
    }
    match InitSystemKind::Systemd.to_init_system(Some(true), Group::Gid(0)) {
        Err(Error::DaemonizeConflict) => {}
        other => panic!("unexpected: {:?}", other),
    }
    match InitSystemKind::Systemd.to_init_system(Some(true), Group::Name(String::from("wheel")))
    {
        Err(Error::DaemonizeConflict) => {}
        other => panic!("unexpected: {:?}", other),
    }
}

#[test]
fn daemonize_defaults() {
    assert!(maybe_daemonize(None, SupervisionMode::Unsupervised).unwrap());
    assert!(maybe_daemonize(Some(true), SupervisionMode::Unsupervised).unwrap());
    assert!(!maybe_daemonize(Some(false), SupervisionMode::Unsupervised).unwrap());
    assert!(!maybe_daemonize(None, SupervisionMode::Supervised).unwrap());
    assert!(!maybe_daemonize(Some(false), SupervisionMode::Supervised).unwrap());
}

#[test]
fn init_system_is_set_up() {
    let init = InitSystemKind::Unmanaged.to_init_system(None, Group::Gid(7)).unwrap();
    assert!(init.daemonize());
    assert_eq!(init.mode(), SupervisionMode::Unsupervised);
    match init.socket_file_group() {
        Some(Group::Gid(7)) => {}
        other => panic!("unexpected: {:?}", other),
    }
    assert_eq!(init.notify().startup_end(), None);
    let init = InitSystemKind::Systemd.to_init_system(None, Group::Gid(7)).unwrap();
    assert!(!init.daemonize());
    assert_eq!(init.mode(), SupervisionMode::Supervised);
    assert!(init.socket_file_group().is_none());
    assert_eq!(init.notify().startup_end(), Some(String::from("READY=1")));
}

#[test]
fn init_system_kinds_by_name() {
    assert_eq!(InitSystemKind::variant_default(), InitSystemKind::Unmanaged);
    assert_eq!(InitSystemKind::variants(), ["None", "Systemd"]);
    assert_eq!(InitSystemKind::Unmanaged.name(), "None");
    assert_eq!(InitSystemKind::Systemd.name(), "Systemd");
    assert_eq!(InitSystemKind::from_str("None"), Some(InitSystemKind::Unmanaged));
    assert_eq!(InitSystemKind::from_str("none"), Some(InitSystemKind::Unmanaged));
    assert_eq!(InitSystemKind::from_str("SYSTEMD"), Some(InitSystemKind::Systemd));
    assert_eq!(InitSystemKind::from_str("sYsTeMd"), Some(InitSystemKind::Systemd));
    assert_eq!(InitSystemKind::from_str("system"), None);
    assert_eq!(InitSystemKind::from_str(""), None);
    assert_eq!(InitSystemKind::from_str("n\u{4f}ne "), None);
}

#[test]
fn fork_answers() {
    assert_eq!(fork(-1), None);
    assert_eq!(fork(0), Some(ForkPid::Parent));
    assert_eq!(fork(4321), Some(ForkPid::Child(4321)));
    assert!(fork_and_exit(Ok(ForkPid::Parent)).is_ok());
    match fork_and_exit(Ok(ForkPid::Child(4321))) {
        Err(Error::Forked(4321)) => {}
        other => panic!("unexpected: {:?}", other),
    }
    match fork_and_exit(Err(Errno { errno: 11 })) {
        Err(Error::Fork(Errno { errno: 11 })) => {}
        other => panic!("unexpected: {:?}", other),
    }
}

#[test]
fn supervised_notifications() {
    let notifier = Notify::new(SupervisionMode::Supervised);
    assert_eq!(notifier.startup_end(), Some(String::from("READY=1")));
    assert_eq!(notifier.reload_start(), Some(String::from("RELOADING=1")));
    assert_eq!(notifier.reload_end(), Some(String::from("READY=1")));
    assert_eq!(notifier.shutdown_start(), Some(String::from("STOPPING=1")));
    assert_eq!(
        notifier.announce(LifecycleEvent::ReloadStarting),
        Some(String::from("RELOADING=1"))
    );
    assert!(notifier.notify(Some(notify(1))).is_ok());
    match notifier.notify(Some(notify(0))) {
        Err(Error::NotifyNoSocket) => {}
        other => panic!("unexpected: {:?}", other),
    }
    match notifier.notify(Some(notify(-5))) {
        Err(Error::Notify(Errno { errno: 5 })) => {}
        other => panic!("unexpected: {:?}", other),
    }
}

#[test]
fn unsupervised_notifications() {
    let notifier = Notify::new(SupervisionMode::Unsupervised);
    assert_eq!(notifier.startup_end(), None);
    assert_eq!(notifier.reload_start(), None);
    assert_eq!(notifier.reload_end(), None);
    assert_eq!(notifier.shutdown_start(), None);
    assert!(notifier.notify(None).is_ok());
}

#[test]
fn notify_state_message() {
    assert_eq!(NotifyState::single("READY", "1").message(), "READY=1");
    assert_eq!(state_of(LifecycleEvent::ShutdownStarting).message(), "STOPPING=1");
    let state = NotifyState::from(vec![
        (String::from("READY"), String::from("1")),
        (String::from("STATUS"), String::from("serving")),
        (String::from("MAINPID"), String::from("42")),
    ]);
    assert_eq!(state.message(), "READY=1\nSTATUS=serving\nMAINPID=42");
    assert_eq!(NotifyState::from(Vec::new()).message(), "");
}

#[test]
fn groups_by_name_or_number() {
    match Group::from_str("1000") {
        Ok(Group::Gid(1000)) => {}
        other => panic!("unexpected: {:?}", other),
    }
    match Group::from_str("+7") {
        Ok(Group::Gid(7)) => {}
        other => panic!("unexpected: {:?}", other),
    }
    match Group::from_str("007") {
        Ok(Group::Gid(7)) => {}
        other => panic!("unexpected: {:?}", other),
    }
    for name in ["wheel", "", "+", "-1", "4294967296", "12 ", "gr\u{fc}n", "1\u{663}"] {
        match Group::from_str(name) {
            Ok(Group::Name(n)) => assert_eq!(n, name),
            other => panic!("unexpected: {:?}", other),
        }
        assert_eq!(name.parse::<u32>().ok(), None);
    }
}

#[test]
fn group_lookups() {
    let group = Group::Name(String::from("wheel"));
    assert_eq!(group.getgr(Ok(Some(10))).unwrap(), 10);
    match group.getgr(Ok(None)) {
        Err(Error::GidNotFound(Group::Name(name))) => assert_eq!(name, "wheel"),
        other => panic!("unexpected: {:?}", other),
    }
    match Group::Gid(3).getgr(Err(Errno { errno: 5 })) {
        Err(Error::Gid(Errno { errno: 5 }, Group::Gid(3))) => {}
        other => panic!("unexpected: {:?}", other),
    }
    assert_eq!(initial_capacity(-1), 128);
    assert_eq!(initial_capacity(-7), 128);
    assert_eq!(initial_capacity(1024), 1024);
    assert_eq!(initial_capacity(0), 0);
    assert_eq!(getgr_step(0, true, 128), GetgrStep::Found);
    assert_eq!(getgr_step(0, false, 128), GetgrStep::Missing);
    assert_eq!(getgr_step(libc::ERANGE, false, 128), GetgrStep::Retry { capacity: 256 });
    assert_eq!(getgr_step(34, false, 1), GetgrStep::Retry { capacity: 2 });
    assert_eq!(
        getgr_step(34, false, usize::MAX),
        GetgrStep::Failed(Errno { errno: 34 })
    );
    assert_eq!(getgr_step(5, false, 128), GetgrStep::Failed(Errno { errno: 5 }));
}

#[test]
fn exit_codes() {
    assert_eq!(exit_code(&Ok(())), 0);
    assert_eq!(run(Ok(())), 0);
    assert_eq!(Error::Clap(String::from("bad")).exit_code(), 2);
    assert_eq!(Error::ClapDisplayed(String::from("help")).exit_code(), 0);
    assert_eq!(Error::Forked(12).exit_code(), 0);
    assert_eq!(Error::DaemonizeConflict.exit_code(), 1);
    assert_eq!(Error::ListenFdsKind.exit_code(), 1);
    assert_eq!(Error::ListenFdsNr(2).exit_code(), 1);
    assert_eq!(Error::NotifyNoSocket.exit_code(), 1);
    assert_eq!(Error::ProgramDirAcquire(String::from("/run/krakend")).exit_code(), 1);
    assert_eq!(run(Err(Error::PidFileSize(String::from("/run/krakend/pid"), 128))), 1);
    assert!(Error::Io(String::from("x")).is_fatal());
    assert!(!Error::Forked(1).is_fatal());
}

#[test]
fn stages_of_a_run() {
    assert_eq!(start(true), Stage::Fork);
    assert_eq!(start(false), Stage::AcquireDir);
    let mut stage = start(true);
    let mut seen = vec![stage];
    while stage != Stage::Exit {
        stage = advance(stage, true);
        seen.push(stage);
    }
    assert_eq!(
        seen,
        vec![
            Stage::Fork,
            Stage::AcquireDir,
            Stage::ObtainSocket,
            Stage::NotifyStartup,
            Stage::Serve,
            Stage::NotifyShutdown,
            Stage::Release,
            Stage::Exit,
        ]
    );
    assert_eq!(advance(Stage::Fork, false), Stage::Exit);
    assert_eq!(advance(Stage::AcquireDir, false), Stage::Exit);
    assert_eq!(advance(Stage::ObtainSocket, false), Stage::Release);
    assert_eq!(advance(Stage::NotifyStartup, false), Stage::Release);
    assert_eq!(advance(Stage::Serve, false), Stage::Release);
    assert_eq!(advance(Stage::NotifyShutdown, false), Stage::Release);
    assert_eq!(advance(Stage::Release, false), Stage::Exit);
}

#[test]
fn numbers_as_text() {
    let mut text = String::from("n=");
    append_decimal(0, &mut text);
    assert_eq!(text, "n=0");
    let mut text = String::new();
    append_decimal(u64::MAX, &mut text);
    assert_eq!(text, "18446744073709551615");
    let mut text = String::new();
    append_decimal(1234567890, &mut text);
    assert_eq!(text, "1234567890");
    let mut text = String::new();
    append_signed(-42, &mut text);
    assert_eq!(text, "-42");
    let mut text = String::new();
    append_signed(i64::MIN, &mut text);
    assert_eq!(text, "-9223372036854775808");
    let mut text = String::new();
    append_signed(i64::MAX, &mut text);
    assert_eq!(text, "9223372036854775807");
    assert_eq!(Group::Gid(0).to_string(), "0");
    assert_eq!(Group::Gid(u32::MAX).to_string(), "4294967295");
    assert_eq!(Group::Name(String::from("wheel")).to_string(), "wheel");
}

#[test]
fn errors_in_words() {
    let errno = Errno { errno: 13 };
    assert_eq!(errno.describe("Permission denied"), "Permission denied (errno 13)");
    assert_eq!(Errno { errno: -1 }.describe("?"), "? (errno -1)");
    let denied = "Permission denied";
    assert_eq!(
        Error::Chmod(errno, String::from("/run/krakend/socket")).message(denied),
        "cannot chmod \"/run/krakend/socket\": Permission denied (errno 13)"
    );
    assert_eq!(
        Error::Chown(errno, String::from("/run/a\"b")).message(denied),
        "cannot chown \"/run/a\\\"b\": Permission denied (errno 13)"
    );
    assert_eq!(Error::Clap(String::from("bad argument")).message(""), "bad argument");
    assert_eq!(Error::ClapDisplayed(String::from("usage")).message(""), "usage");
    assert_eq!(Error::DaemonizeConflict.message(""), "cannot daemonize with systemd");
    assert_eq!(
        Error::Fork(Errno { errno: 11 }).message("Resource temporarily unavailable"),
        "cannot fork: Resource temporarily unavailable (errno 11)"
    );
    assert_eq!(Error::Forked(4321).message(""), "forked process: child PID 4321");
    assert_eq!(
        Error::Gid(errno, Group::Gid(100)).message(denied),
        "cannot access GID of group 100: Permission denied (errno 13)"
    );
    assert_eq!(
        Error::GidNotFound(Group::Name(String::from("wheel"))).message(""),
        "GID of group wheel not found"
    );
    assert_eq!(Error::Io(String::from("broken pipe")).message(""), "broken pipe");
    assert_eq!(
        Error::ListenFds(errno).message(denied),
        "cannot access listen sockets passed: Permission denied (errno 13)"
    );
    assert_eq!(Error::ListenFdsKind.message(""), "illegal kind of listen socket passed");
    assert_eq!(Error::ListenFdsNr(2).message(""), "illegal nr of listen sockets passed: 2");
    assert_eq!(
        Error::Notify(errno).message(denied),
        "cannot notify: Permission denied (errno 13)"
    );
    assert_eq!(Error::NotifyNoSocket.message(""), "cannot notify: socket not set");
    assert_eq!(
        Error::PidFileSize(String::from("/run/krakend/pid"), 128).message(""),
        "PID file \"/run/krakend/pid\" too large: 128 B"
    );
    assert_eq!(
        Error::ProgramDirAcquire(String::from("/run/krakend")).message(""),
        "cannot acquire program dir \"/run/krakend\""
    );
    assert_eq!(Error::Utf8(String::from("invalid utf-8")).message(""), "invalid utf-8");
    assert_eq!(Error::Xdg(String::from("no home")).message(""), "no home");
}

#[test]
fn causes_and_command_line_errors() {
    assert_eq!(Error::Io(String::from("broken pipe")).cause(), Some("broken pipe"));
    assert_eq!(Error::Clap(String::from("bad")).cause(), Some("bad"));
    assert_eq!(Error::ClapDisplayed(String::from("usage")).cause(), Some("usage"));
    assert_eq!(Error::Utf8(String::from("u")).cause(), Some("u"));
    assert_eq!(Error::Xdg(String::from("x")).cause(), Some("x"));
    assert_eq!(Error::NotifyNoSocket.cause(), None);
    assert_eq!(Error::Fork(Errno { errno: 1 }).cause(), None);
    assert_eq!(Error::ProgramDirAcquire(String::from("/run")).cause(), None);
    match Error::from_clap(ClapKind::HelpDisplayed, String::from("usage")) {
        Error::ClapDisplayed(text) => assert_eq!(text, "usage"),
        other => panic!("unexpected: {:?}", other),
    }
    match Error::from_clap(ClapKind::VersionDisplayed, String::from("1.0")) {
        Error::ClapDisplayed(text) => assert_eq!(text, "1.0"),
        other => panic!("unexpected: {:?}", other),
    }
    match Error::from_clap(ClapKind::Other, String::from("bad")) {
        Error::Clap(text) => assert_eq!(text, "bad"),
        other => panic!("unexpected: {:?}", other),
    }
}

#[test]
fn answers_to_changes_of_mode_and_owner() {
    let errno = Errno { errno: 1 };
    assert_eq!(chmod(0, errno), Ok(()));
    assert_eq!(chmod(-1, errno), Err(errno));
    assert_eq!(chown(0, errno), Ok(()));
    assert_eq!(chown(-1, errno), Err(errno));
    assert_eq!(chown(7, errno), Err(errno));
}

#[test]
fn lifecycle_events_come_in_order() {
    let mut phase = Phase::Starting;
    for event in [
        LifecycleEvent::StartupComplete,
        LifecycleEvent::ReloadStarting,
        LifecycleEvent::ReloadComplete,
        LifecycleEvent::ReloadStarting,
        LifecycleEvent::ReloadComplete,
        LifecycleEvent::ShutdownStarting,
    ] {
        phase = lifecycle_step(phase, event).unwrap();
    }
    assert_eq!(phase, Phase::Stopping);
    for event in [
        LifecycleEvent::StartupComplete,
        LifecycleEvent::ReloadStarting,
        LifecycleEvent::ReloadComplete,
        LifecycleEvent::ShutdownStarting,
    ] {
        assert_eq!(lifecycle_step(Phase::Stopping, event), None);
    }
    assert_eq!(lifecycle_step(Phase::Starting, LifecycleEvent::ShutdownStarting), None);
    assert_eq!(lifecycle_step(Phase::Starting, LifecycleEvent::ReloadStarting), None);
    assert_eq!(lifecycle_step(Phase::Running, LifecycleEvent::StartupComplete), None);
    assert_eq!(lifecycle_step(Phase::Running, LifecycleEvent::ReloadComplete), None);
    assert_eq!(lifecycle_step(Phase::Reloading, LifecycleEvent::ReloadStarting), None);
    assert_eq!(
        lifecycle_step(Phase::Reloading, LifecycleEvent::ShutdownStarting),
        Some(Phase::Stopping)
    );
}
