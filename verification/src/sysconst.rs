//! Numbers of the Linux system interface, as the `libc` crate defines them.
//!
//! Each function hands out one constant of `libc`. Its value is trusted to be
//! the one that `libc` defines for Linux on every architecture but MIPS,
//! where two of the socket types are numbered the other way round.

use vstd::prelude::*;

verus! {

/// `libc::ERANGE`: the error number for a result that does not fit the
/// buffer. Trusted to be 34.
#[verifier::external_body]
pub(crate) fn erange() -> (r: i32)
    ensures
        r == 34,
{
    libc::ERANGE
}

/// `libc::AF_INET`. Trusted to be 2.
#[verifier::external_body]
pub(crate) fn af_inet() -> (r: i32)
    ensures
        r == 2,
{
    libc::AF_INET
}

/// `libc::AF_INET6`. Trusted to be 10.
#[verifier::external_body]
pub(crate) fn af_inet6() -> (r: i32)
    ensures
        r == 10,
{
    libc::AF_INET6
}

/// `libc::AF_LOCAL`. Trusted to be 1.
#[verifier::external_body]
pub(crate) fn af_local() -> (r: i32)
    ensures
        r == 1,
{
    libc::AF_LOCAL
}

/// `libc::AF_UNIX`. Trusted to be 1.
#[verifier::external_body]
pub(crate) fn af_unix() -> (r: i32)
    ensures
        r == 1,
{
    libc::AF_UNIX
}

/// `libc::AF_UNSPEC`. Trusted to be 0.
#[verifier::external_body]
pub(crate) fn af_unspec() -> (r: i32)
    ensures
        r == 0,
{
    libc::AF_UNSPEC
}

/// `libc::SOCK_DGRAM`. Trusted to be 2.
#[verifier::external_body]
pub(crate) fn sock_dgram() -> (r: i32)
    ensures
        r == 2,
{
    libc::SOCK_DGRAM
}

/// `libc::SOCK_RAW`. Trusted to be 3.
#[verifier::external_body]
pub(crate) fn sock_raw() -> (r: i32)
    ensures
        r == 3,
{
    libc::SOCK_RAW
}

/// `libc::SOCK_RDM`. Trusted to be 4.
#[verifier::external_body]
pub(crate) fn sock_rdm() -> (r: i32)
    ensures
        r == 4,
{
    libc::SOCK_RDM
}

/// `libc::SOCK_SEQPACKET`. Trusted to be 5.
#[verifier::external_body]
pub(crate) fn sock_seqpacket() -> (r: i32)
    ensures
        r == 5,
{
    libc::SOCK_SEQPACKET
}

/// `libc::SOCK_STREAM`. Trusted to be 1.
#[verifier::external_body]
pub(crate) fn sock_stream() -> (r: i32)
    ensures
        r == 1,
{
    libc::SOCK_STREAM
}

} // verus!
