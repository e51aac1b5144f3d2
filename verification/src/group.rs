//! The group that owns the socket file, and how it is looked up.

use crate::decimal::{append_decimal, decimal_chars, parse_decimal, parse_u32};
use crate::errors::{Errno, Error};
use crate::sysconst::erange;
use crate::text::{ascii_bytes, ascii_bytes_of, is_ascii_text};
use vstd::prelude::*;
use vstd::string::{StrSliceExecFns, StringExecFns};

verus! {

/// A system group, by number or by name.
#[derive(Debug)]
pub enum Group {
    Gid(u32),
    Name(String),
}

/// The error type of parsing a group, which never fails.
#[derive(Clone, Copy, Debug, PartialEq, Eq, Structural)]
pub struct GroupParseError {}

/// The number that a text spells: an optional plus sign, then one or more
/// digits, within 32 bits. `None` for every other text.
pub open spec fn number_of_text(s: Seq<char>) -> Option<u32> {
    if !is_ascii_text(s) {
        None
    } else if s.len() > 0 && s[0] == '+' {
        parse_decimal(ascii_bytes_of(s).subrange(1, s.len() as int))
    } else {
        parse_decimal(ascii_bytes_of(s))
    }
}

impl Group {
    /// Reads a group: a number where the text spells one, else a name.
    pub fn from_str(s: &str) -> (r: Result<Group, GroupParseError>)
        ensures
            r is Ok,
            match number_of_text(s@) {
                Some(gid) => r == Ok::<Group, GroupParseError>(Group::Gid(gid)),
                None => r matches Ok(Group::Name(name)) && name@ == s@,
            },
    {
        match ascii_bytes(s) {
            Some(bytes) => {
                let signed: bool = bytes.len() > 0 && s.get_char(0) == '+';
                let digits: &[u8] = if signed {
                    vstd::slice::slice_subrange(bytes.as_slice(), 1, bytes.len())
                } else {
                    bytes.as_slice()
                };
                match parse_u32(digits) {
                    Some(gid) => Ok(Group::Gid(gid)),
                    None => Ok(Group::Name(String::from_str(s))),
                }
            },
            None => Ok(Group::Name(String::from_str(s))),
        }
    }

    /// Turns the answer of the system's group database into the group's
    /// number, or into the error that names this group.
    pub fn getgr(&self, lookup: Result<Option<u32>, Errno>) -> (r: Result<u32, Error>)
        ensures
            match lookup {
                Ok(Some(gid)) => r == Ok::<u32, Error>(gid),
                Ok(None) => r matches Err(Error::GidNotFound(g)) && same_group(g, *self),
                Err(e) => r matches Err(Error::Gid(e2, g)) && e2 == e && same_group(g, *self),
            },
    {
        match lookup {
            Ok(Some(gid)) => Ok(gid),
            Ok(None) => Err(Error::GidNotFound(self.copy())),
            Err(e) => Err(Error::Gid(e, self.copy())),
        }
    }

    /// The group as text: its number in decimal, or its name.
    pub fn to_string(&self) -> (r: String)
        ensures
            r@ == group_text(*self),
    {
        match self {
            Group::Gid(gid) => {
                let mut text = String::new();
                append_decimal(*gid as u64, &mut text);
                assert(text@ =~= decimal_chars(*gid as nat));
                text
            },
            Group::Name(name) => name.clone(),
        }
    }

    /// A copy of this group.
    pub fn copy(&self) -> (r: Group)
        ensures
            same_group(r, *self),
    {
        match self {
            Group::Gid(gid) => Group::Gid(*gid),
            Group::Name(name) => Group::Name(name.clone()),
        }
    }
}

/// A group as text: its number in decimal, or its name.
pub open spec fn group_text(group: Group) -> Seq<char> {
    match group {
        Group::Gid(gid) => decimal_chars(gid as nat),
        Group::Name(name) => name@,
    }
}

/// Whether two groups name the same thing.
pub open spec fn same_group(a: Group, b: Group) -> bool {
    match (a, b) {
        (Group::Gid(x), Group::Gid(y)) => x == y,
        (Group::Name(x), Group::Name(y)) => x@ == y@,
        _ => false,
    }
}

/// The buffer size for a group lookup where the system names none.
pub const CAPACITY_DEFAULT: usize = 128;

/// The first buffer size for a group lookup, from the size the system
/// suggests; a negative suggestion means that it suggests none.
pub fn initial_capacity(suggested: i64) -> (r: usize)
    ensures
        suggested < 0 ==> r == 128,
        suggested >= 0 ==> r == suggested as usize,
{
    if suggested < 0 {
        CAPACITY_DEFAULT
    } else {
        suggested as usize
    }
}

/// What to do after one attempt at a group lookup.
#[derive(Clone, Copy, Debug, PartialEq, Eq, Structural)]
pub enum GetgrStep {
    /// The entry was found and filled in.
    Found,
    /// The database holds no such group.
    Missing,
    /// The buffer was too small: try again with this capacity.
    Retry { capacity: usize },
    /// The lookup failed with this error.
    Failed(Errno),
}

/// The decision after a lookup returned `res` with a buffer of `capacity`
/// bytes; `found` says whether it handed back an entry. `range_error` is the
/// system's number for a buffer that was too small.
pub open spec fn getgr_decision(res: i32, found: bool, capacity: usize, range_error: i32) -> GetgrStep {
    if res == 0 {
        if found {
            GetgrStep::Found
        } else {
            GetgrStep::Missing
        }
    } else if res == range_error && capacity * 2 <= usize::MAX {
        GetgrStep::Retry { capacity: (capacity * 2) as usize }
    } else {
        GetgrStep::Failed(Errno { errno: res })
    }
}

/// Decides how a group lookup goes on: done on success, a buffer of twice the
/// size where it was too small, the error otherwise (also where the buffer
/// cannot grow any more).
pub fn getgr_step(res: i32, found: bool, capacity: usize) -> (r: GetgrStep)
    ensures
        r == getgr_decision(res, found, capacity, 34),
{
    if res == 0 {
        if found {
            GetgrStep::Found
        } else {
            GetgrStep::Missing
        }
    } else if res == erange() && capacity <= usize::MAX / 2 {
        GetgrStep::Retry { capacity: capacity * 2 }
    } else {
        GetgrStep::Failed(Errno { errno: res })
    }
}

} // verus!
