//! What is said to and heard from the supervisor's library: the kinds of
//! socket to ask about, the descriptors handed over, and how its answers
//! read.

use crate::errors::Errno;
use crate::sysconst::{
    af_inet, af_inet6, af_local, af_unix, af_unspec, sock_dgram, sock_raw, sock_rdm,
    sock_seqpacket, sock_stream,
};
use vstd::prelude::*;
use vstd::std_specs::convert::FromSpecImpl;
use vstd::string::StringExecFns;

verus! {

/// The first descriptor that a supervisor hands over.
pub const SD_LISTEN_FDS_START: i32 = 3;

/// The address family of a socket.
#[derive(Clone, Copy, Debug, PartialEq, Eq, Structural)]
pub enum AddressFamily {
    Inet,
    Inet6,
    Local,
    Unix,
    Unspecified,
}

/// The type of a socket.
#[derive(Clone, Copy, Debug, PartialEq, Eq, Structural)]
pub enum SocketType {
    Dgram,
    Raw,
    Rdm,
    Seqpacket,
    Stream,
    Unspecified,
}

/// Whether a socket is to be listening.
#[derive(Clone, Copy, Debug, PartialEq, Eq, Structural)]
pub enum Listening {
    Listening,
    NotListening,
    Unspecified,
}

/// The system's number for an address family.
pub open spec fn family_code(family: AddressFamily) -> i32 {
    match family {
        AddressFamily::Inet => 2,
        AddressFamily::Inet6 => 10,
        AddressFamily::Local => 1,
        AddressFamily::Unix => 1,
        AddressFamily::Unspecified => 0,
    }
}

/// The system's number for a socket type; zero asks for any type.
pub open spec fn type_code(type_: SocketType) -> i32 {
    match type_ {
        SocketType::Dgram => 2,
        SocketType::Raw => 3,
        SocketType::Rdm => 4,
        SocketType::Seqpacket => 5,
        SocketType::Stream => 1,
        SocketType::Unspecified => 0,
    }
}

/// The number that asks for a listening socket (1), one that does not listen
/// (0), or either (-1).
pub open spec fn listening_code(listening: Listening) -> i32 {
    match listening {
        Listening::Listening => 1i32,
        Listening::NotListening => 0i32,
        Listening::Unspecified => -1i32,
    }
}

impl From<AddressFamily> for i32 {
    fn from(family: AddressFamily) -> (r: i32) {
        match family {
            AddressFamily::Inet => af_inet(),
            AddressFamily::Inet6 => af_inet6(),
            AddressFamily::Local => af_local(),
            AddressFamily::Unix => af_unix(),
            AddressFamily::Unspecified => af_unspec(),
        }
    }
}

impl FromSpecImpl<AddressFamily> for i32 {
    open spec fn obeys_from_spec() -> bool {
        true
    }

    open spec fn from_spec(family: AddressFamily) -> i32 {
        family_code(family)
    }
}

impl From<SocketType> for i32 {
    fn from(type_: SocketType) -> (r: i32) {
        match type_ {
            SocketType::Dgram => sock_dgram(),
            SocketType::Raw => sock_raw(),
            SocketType::Rdm => sock_rdm(),
            SocketType::Seqpacket => sock_seqpacket(),
            SocketType::Stream => sock_stream(),
            SocketType::Unspecified => 0,
        }
    }
}

impl FromSpecImpl<SocketType> for i32 {
    open spec fn obeys_from_spec() -> bool {
        true
    }

    open spec fn from_spec(type_: SocketType) -> i32 {
        type_code(type_)
    }
}

impl From<Listening> for i32 {
    fn from(listening: Listening) -> (r: i32) {
        match listening {
            Listening::Listening => 1,
            Listening::NotListening => 0,
            Listening::Unspecified => -1,
        }
    }
}

impl FromSpecImpl<Listening> for i32 {
    open spec fn obeys_from_spec() -> bool {
        true
    }

    open spec fn from_spec(listening: Listening) -> i32 {
        listening_code(listening)
    }
}

/// The error number in a negative answer: the answer negated, and the
/// largest number for the one answer that cannot be negated.
pub open spec fn errno_of(res: i32) -> Errno {
    if res == i32::MIN {
        Errno { errno: i32::MAX }
    } else {
        Errno { errno: (-res) as i32 }
    }
}

/// How the supervisor's library answers a question: a negative number is an
/// error, zero is no, anything above is yes.
pub open spec fn answer_of(res: i32) -> Result<bool, Errno> {
    if res < 0 {
        Err(errno_of(res))
    } else {
        Ok(res != 0)
    }
}

fn errno_from(res: i32) -> (r: Errno)
    requires
        res < 0,
    ensures
        r == errno_of(res),
{
    if res == i32::MIN {
        Errno { errno: i32::MAX }
    } else {
        Errno { errno: -res }
    }
}

fn answer(res: i32) -> (r: Result<bool, Errno>)
    ensures
        r == answer_of(res),
{
    if res < 0 {
        Err(errno_from(res))
    } else if res == 0 {
        Ok(false)
    } else {
        Ok(true)
    }
}

/// The three numbers to ask the supervisor's library about a socket with.
pub fn is_socket_query(family: AddressFamily, type_: SocketType, listening: Listening) -> (r: (
    i32,
    i32,
    i32,
))
    ensures
        r == (family_code(family), type_code(type_), listening_code(listening)),
{
    (i32::from(family), i32::from(type_), i32::from(listening))
}

/// Reads the answer to the question whether a descriptor is a socket of the
/// kind asked for.
pub fn is_socket(res: i32) -> (r: Result<bool, Errno>)
    ensures
        r == answer_of(res),
{
    answer(res)
}

/// Reads the answer to a notification: whether it was sent, which it is not
/// where the supervisor set up no channel.
pub fn notify(res: i32) -> (r: Result<bool, Errno>)
    ensures
        r == answer_of(res),
{
    answer(res)
}

/// The descriptors handed over by the supervisor that have not been taken
/// yet: `next`, and those above it below `end`.
#[derive(Clone, Copy, Debug, PartialEq, Eq, Structural)]
pub struct ListenFds {
    next: i32,
    end: i32,
}

impl View for ListenFds {
    type V = Seq<i32>;

    /// The descriptors left, in order.
    closed spec fn view(&self) -> Seq<i32> {
        if self.next < self.end {
            Seq::new((self.end - self.next) as nat, |i: int| (self.next + i) as i32)
        } else {
            Seq::empty()
        }
    }
}

/// The descriptors that an answer of `count` announces: that many, from
/// descriptor 3 on, and no more than there are numbers.
pub open spec fn announced(count: i32) -> Seq<i32> {
    if count <= 0 {
        Seq::empty()
    } else if count > i32::MAX - 3 {
        Seq::new((i32::MAX - 3) as nat, |i: int| (3 + i) as i32)
    } else {
        Seq::new(count as nat, |i: int| (3 + i) as i32)
    }
}

/// Reads the answer to the question how many descriptors were handed over.
pub fn listen_fds(res: i32) -> (r: Result<ListenFds, Errno>)
    ensures
        res < 0 ==> r == Err::<ListenFds, Errno>(errno_of(res)),
        res >= 0 ==> (r matches Ok(fds) && fds@ == announced(res)),
{
    if res < 0 {
        Err(errno_from(res))
    } else {
        let end: i32 = if res > i32::MAX - SD_LISTEN_FDS_START {
            i32::MAX
        } else {
            SD_LISTEN_FDS_START + res
        };
        let fds = ListenFds { next: SD_LISTEN_FDS_START, end };
        assert(fds@ =~= announced(res));
        Ok(fds)
    }
}

impl ListenFds {
    /// How many descriptors are left.
    pub fn len(&self) -> (r: usize)
        ensures
            r == self@.len(),
    {
        if self.next < self.end {
            (self.end as i64 - self.next as i64) as usize
        } else {
            0
        }
    }

    /// Takes the next descriptor, if one is left.
    pub fn next(&mut self) -> (r: Option<i32>)
        ensures
            old(self)@.len() == 0 ==> r is None && final(self)@ == old(self)@,
            old(self)@.len() > 0 ==> r == Some(old(self)@[0]) && final(self)@ == old(
                self,
            )@.drop_first(),
    {
        if self.next >= self.end {
            None
        } else {
            let fd: i32 = self.next;
            self.next = self.next + 1;
            assert(self@ =~= old(self)@.drop_first());
            Some(fd)
        }
    }

    /// The number of descriptors left, as the lower and the upper bound of
    /// what is still to come.
    pub fn size_hint(&self) -> (r: (usize, Option<usize>))
        ensures
            r.0 == self@.len(),
            r.1 == Some(r.0),
    {
        let len = self.len();
        (len, Some(len))
    }
}

/// Variables and their values, to be sent to the supervisor.
#[derive(Debug)]
pub struct NotifyState {
    vars_to_vals: Vec<(String, String)>,
}

/// One line of a notification: the variable, an equals sign, the value.
pub open spec fn assignment(pair: (Seq<char>, Seq<char>)) -> Seq<char> {
    pair.0 + seq!['='] + pair.1
}

/// The text of a notification: one line for each variable, with a line feed
/// between one line and the next.
pub open spec fn notify_text(pairs: Seq<(Seq<char>, Seq<char>)>) -> Seq<char>
    decreases pairs.len(),
{
    if pairs.len() == 0 {
        Seq::empty()
    } else if pairs.len() == 1 {
        assignment(pairs[0])
    } else {
        notify_text(pairs.drop_last()) + seq!['\n'] + assignment(pairs.last())
    }
}

impl View for NotifyState {
    type V = Seq<(Seq<char>, Seq<char>)>;

    closed spec fn view(&self) -> Seq<(Seq<char>, Seq<char>)> {
        self.vars_to_vals@.map_values(|p: (String, String)| (p.0@, p.1@))
    }
}

impl NotifyState {
    /// The state with one variable.
    pub fn single(var: &str, val: &str) -> (r: NotifyState)
        ensures
            r@ == seq![(var@, val@)],
    {
        let mut pairs: Vec<(String, String)> = Vec::new();
        pairs.push((String::from_str(var), String::from_str(val)));
        let r = NotifyState { vars_to_vals: pairs };
        assert(r@ =~= seq![(var@, val@)]);
        r
    }

    /// The state with the given variables, in their order.
    pub fn from(vars_to_vals: Vec<(String, String)>) -> (r: NotifyState)
        ensures
            r@ == vars_to_vals@.map_values(|p: (String, String)| (p.0@, p.1@)),
    {
        NotifyState { vars_to_vals }
    }

    /// The text to send.
    pub fn message(&self) -> (r: String)
        ensures
            r@ == notify_text(self@),
    {
        let mut text = String::new();
        let mut i: usize = 0;
        assert(self@.take(0) =~= Seq::<(Seq<char>, Seq<char>)>::empty());
        while i < self.vars_to_vals.len()
            invariant
                0 <= i <= self.vars_to_vals.len(),
                self.vars_to_vals@.len() == self@.len(),
                text@ == notify_text(self@.take(i as int)),
            decreases self.vars_to_vals.len() - i,
        {
            let ghost before = text@;
            proof {
                let next = self@.take(i + 1);
                assert(next.drop_last() =~= self@.take(i as int));
                assert(next.last() == (self.vars_to_vals@[i as int].0@, self.vars_to_vals@[i as int].1@));
            }
            if i > 0 {
                text.append("\n");
            }
            text.append(self.vars_to_vals[i].0.as_str());
            text.append("=");
            text.append(self.vars_to_vals[i].1.as_str());
            proof {
                reveal_strlit("\n");
                reveal_strlit("=");
                let pair = self@.take(i + 1).last();
                assert("\n"@ =~= seq!['\n']);
                assert("="@ =~= seq!['=']);
                if i > 0 {
                    assert(text@ =~= before + seq!['\n'] + assignment(pair));
                } else {
                    assert(before =~= Seq::<char>::empty());
                    assert(text@ =~= assignment(pair));
                }
            }
            i += 1;
        }
        assert(self@.take(self.vars_to_vals.len() as int) =~= self@);
        text
    }
}

} // verus!
