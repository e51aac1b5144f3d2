//! File permission bits and ownership arguments for the socket file.

use crate::errors::Errno;
use vstd::prelude::*;
use vstd::std_specs::convert::FromSpecImpl;
use vstd::string::StrSliceExecFns;

verus! {

/// The twelve permission flags of a file mode.
#[derive(Clone, Copy, Debug, PartialEq, Eq, Structural)]
pub struct ChmodMode {
    pub group_execute: bool,
    pub group_read: bool,
    pub group_write: bool,
    pub other_execute: bool,
    pub other_read: bool,
    pub other_write: bool,
    pub owner_execute: bool,
    pub owner_read: bool,
    pub owner_write: bool,
    pub set_gid: bool,
    pub set_uid: bool,
    pub sticky: bool,
}

/// A mode string did not have exactly twelve characters.
#[derive(Clone, Copy, Debug, PartialEq, Eq, Structural)]
pub struct ChmodModeParseError {}

/// Number of characters in a mode string.
pub const PERMISSIONS: usize = 12;

/// The character that switches a permission off.
pub const PERMISSION_FALSE: char = '-';

/// The mode written as "ugsrwxrwxrwx": set-UID, set-GID, sticky, then read,
/// write, execute for owner, group and other. A flag is off where the
/// character is '-', on for any other character.
pub open spec fn mode_of_chars(c: Seq<char>) -> ChmodMode
    recommends
        c.len() == 12,
{
    ChmodMode {
        set_uid: c[0] != '-',
        set_gid: c[1] != '-',
        sticky: c[2] != '-',
        owner_read: c[3] != '-',
        owner_write: c[4] != '-',
        owner_execute: c[5] != '-',
        group_read: c[6] != '-',
        group_write: c[7] != '-',
        group_execute: c[8] != '-',
        other_read: c[9] != '-',
        other_write: c[10] != '-',
        other_execute: c[11] != '-',
    }
}

/// The value of one flag at its bit position.
#[verifier::opaque]
pub open spec fn bit(flag: bool, weight: int) -> int {
    if flag {
        weight
    } else {
        0
    }
}

/// The numeric mode: the usual octal layout, from other-execute (1) up to
/// set-UID (0o4000).
pub open spec fn mode_bits(m: ChmodMode) -> int {
    bit(m.other_execute, 0o1) + bit(m.other_write, 0o2) + bit(m.other_read, 0o4)
        + bit(m.group_execute, 0o10) + bit(m.group_write, 0o20) + bit(m.group_read, 0o40)
        + bit(m.owner_execute, 0o100) + bit(m.owner_write, 0o200) + bit(m.owner_read, 0o400)
        + bit(m.sticky, 0o1000) + bit(m.set_gid, 0o2000) + bit(m.set_uid, 0o4000)
}

/// The mode of the socket file: read and write for owner and group.
pub open spec fn socket_mode() -> ChmodMode {
    ChmodMode {
        set_uid: false,
        set_gid: false,
        sticky: false,
        owner_read: true,
        owner_write: true,
        owner_execute: false,
        group_read: true,
        group_write: true,
        group_execute: false,
        other_read: false,
        other_write: false,
        other_execute: false,
    }
}

fn weigh(flag: bool, weight: u32) -> (r: u32)
    ensures
        r == bit(flag, weight as int),
        r <= weight,
{
    reveal(bit);
    if flag {
        weight
    } else {
        0
    }
}

impl ChmodMode {
    /// Reads a mode from its twelve-character form.
    pub fn from_str(s: &str) -> (r: Result<ChmodMode, ChmodModeParseError>)
        ensures
            s@.len() == 12 ==> r == Ok::<ChmodMode, ChmodModeParseError>(mode_of_chars(s@)),
            s@.len() != 12 ==> r is Err,
    {
        if s.unicode_len() != PERMISSIONS {
            return Err(ChmodModeParseError {});
        }
        Ok(
            ChmodMode {
                set_uid: s.get_char(0) != PERMISSION_FALSE,
                set_gid: s.get_char(1) != PERMISSION_FALSE,
                sticky: s.get_char(2) != PERMISSION_FALSE,
                owner_read: s.get_char(3) != PERMISSION_FALSE,
                owner_write: s.get_char(4) != PERMISSION_FALSE,
                owner_execute: s.get_char(5) != PERMISSION_FALSE,
                group_read: s.get_char(6) != PERMISSION_FALSE,
                group_write: s.get_char(7) != PERMISSION_FALSE,
                group_execute: s.get_char(8) != PERMISSION_FALSE,
                other_read: s.get_char(9) != PERMISSION_FALSE,
                other_write: s.get_char(10) != PERMISSION_FALSE,
                other_execute: s.get_char(11) != PERMISSION_FALSE,
            },
        )
    }

    /// The mode of a socket file this process creates: read and write for
    /// owner and group, nothing else.
    pub fn socket_file() -> (r: ChmodMode)
        ensures
            r == socket_mode(),
            r == mode_of_chars("---rw-rw----"@),
            mode_bits(r) == 0o660,
            !r.owner_execute && !r.group_execute && !r.other_execute,
            !r.other_read && !r.other_write,
            !r.set_uid && !r.set_gid && !r.sticky,
    {
        proof {
            reveal_strlit("---rw-rw----");
            reveal(bit);
        }
        match ChmodMode::from_str("---rw-rw----") {
            Ok(mode) => mode,
            Err(_) => ChmodMode {
                set_uid: false,
                set_gid: false,
                sticky: false,
                owner_read: true,
                owner_write: true,
                owner_execute: false,
                group_read: true,
                group_write: true,
                group_execute: false,
                other_read: false,
                other_write: false,
                other_execute: false,
            },
        }
    }
}

impl From<ChmodMode> for u32 {
    fn from(mode: ChmodMode) -> (r: u32) {
        let other: u32 = weigh(mode.other_execute, 0o1) + weigh(mode.other_write, 0o2) + weigh(
            mode.other_read,
            0o4,
        );
        let group: u32 = weigh(mode.group_execute, 0o10) + weigh(mode.group_write, 0o20) + weigh(
            mode.group_read,
            0o40,
        );
        let owner: u32 = weigh(mode.owner_execute, 0o100) + weigh(mode.owner_write, 0o200) + weigh(
            mode.owner_read,
            0o400,
        );
        let special: u32 = weigh(mode.sticky, 0o1000) + weigh(mode.set_gid, 0o2000) + weigh(
            mode.set_uid,
            0o4000,
        );
        other + group + owner + special
    }
}

impl FromSpecImpl<ChmodMode> for u32 {
    open spec fn obeys_from_spec() -> bool {
        true
    }

    open spec fn from_spec(mode: ChmodMode) -> u32 {
        mode_bits(mode) as u32
    }
}

/// The numeric mode of every mode stays within the twelve permission bits.
pub proof fn law_mode_fits_twelve_bits(m: ChmodMode)
    ensures
        0 <= mode_bits(m) <= 0o7777,
{
    reveal(bit);
    assert(forall|f: bool, w: int| 0 <= w ==> 0 <= #[trigger] bit(f, w) <= w);
}

/// The new owner of a file, or `Unspecified` to leave the owner as it is.
#[derive(Clone, Copy, Debug, PartialEq, Eq, Structural)]
pub enum ChownUid {
    Uid(u32),
    Unspecified,
}

/// The new group of a file, or `Unspecified` to leave the group as it is.
#[derive(Clone, Copy, Debug, PartialEq, Eq, Structural)]
pub enum ChownGid {
    Gid(u32),
    Unspecified,
}

/// The number that stands for "leave unchanged" in a change of ownership:
/// minus one, as an unsigned value.
pub const CHOWN_UNCHANGED: u32 = 0xffff_ffff;

/// The raw user id handed to the system.
pub open spec fn raw_uid(uid: ChownUid) -> u32 {
    match uid {
        ChownUid::Uid(uid) => uid,
        ChownUid::Unspecified => 0xffff_ffff,
    }
}

/// The raw group id handed to the system.
pub open spec fn raw_gid(gid: ChownGid) -> u32 {
    match gid {
        ChownGid::Gid(gid) => gid,
        ChownGid::Unspecified => 0xffff_ffff,
    }
}

impl From<ChownUid> for u32 {
    fn from(uid: ChownUid) -> (r: u32) {
        match uid {
            ChownUid::Uid(uid) => uid,
            ChownUid::Unspecified => CHOWN_UNCHANGED,
        }
    }
}

impl FromSpecImpl<ChownUid> for u32 {
    open spec fn obeys_from_spec() -> bool {
        true
    }

    open spec fn from_spec(uid: ChownUid) -> u32 {
        raw_uid(uid)
    }
}

impl From<ChownGid> for u32 {
    fn from(gid: ChownGid) -> (r: u32) {
        match gid {
            ChownGid::Gid(gid) => gid,
            ChownGid::Unspecified => CHOWN_UNCHANGED,
        }
    }
}

impl FromSpecImpl<ChownGid> for u32 {
    open spec fn obeys_from_spec() -> bool {
        true
    }

    open spec fn from_spec(gid: ChownGid) -> u32 {
        raw_gid(gid)
    }
}

/// How the system's answer to a change of mode or owner reads: zero is
/// success, anything else a failure, whose reason is the error number that
/// the system set.
pub open spec fn change_answer(res: i32, errno: Errno) -> Result<(), Errno> {
    if res == 0 {
        Ok(())
    } else {
        Err(errno)
    }
}

/// Reads the system's answer to a change of mode; `errno` is the error
/// number that the system set.
pub fn chmod(res: i32, errno: Errno) -> (r: Result<(), Errno>)
    ensures
        r == change_answer(res, errno),
{
    if res == 0 {
        Ok(())
    } else {
        Err(errno)
    }
}

/// Reads the system's answer to a change of owner; `errno` is the error
/// number that the system set.
pub fn chown(res: i32, errno: Errno) -> (r: Result<(), Errno>)
    ensures
        r == change_answer(res, errno),
{
    if res == 0 {
        Ok(())
    } else {
        Err(errno)
    }
}

} // verus!
