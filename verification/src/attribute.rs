//! Reading and writing one attribute file: what each answer of the system
//! leads to.

use crate::response::AttributeError;
use vstd::prelude::*;
use vstd::string::StringExecFns;

verus! {

/// How one read or write ended.
#[derive(Clone, Copy, Debug, PartialEq, Eq, Structural)]
pub enum Transfer {
    /// This many bytes were read or written.
    Done(usize),
    /// A signal interrupted it.
    Interrupted,
    /// The system called the argument invalid.
    InvalidInput,
    /// It failed otherwise.
    Failed,
}

/// What follows a read or write.
#[derive(Debug)]
pub enum Verdict {
    /// The transfer is complete.
    Complete,
    /// Try again.
    Retry,
    /// Give up with this error.
    Error(AttributeError),
}

/// What is said of a write that wrote less than the whole value.
pub const SHORT_WRITE: &'static str = "failed to write entire value";

/// Judges a read of the attribute `attribute`: any number of bytes completes
/// it, an interrupt repeats it, and every failure is a read error with
/// `detail`.
pub fn after_read(outcome: Transfer, attribute: &str, detail: &str) -> (r: Verdict)
    ensures
        outcome is Done ==> r is Complete,
        outcome is Interrupted ==> r is Retry,
        outcome is InvalidInput || outcome is Failed ==> (r matches Verdict::Error(
            AttributeError::Read { attribute: a, data: d },
        ) && a@ == attribute@ && d@ == detail@),
{
    match outcome {
        Transfer::Done(_) => Verdict::Complete,
        Transfer::Interrupted => Verdict::Retry,
        _ => Verdict::Error(
            AttributeError::Read {
                attribute: String::from_str(attribute),
                data: String::from_str(detail),
            },
        ),
    }
}

/// Judges a write of `expected` bytes to the attribute `attribute`: it is
/// complete only if all bytes were written; an interrupt repeats it; a value
/// that the device calls invalid is reported as such; every other failure is
/// a write error with `detail`.
pub fn after_write(outcome: Transfer, expected: usize, attribute: &str, detail: &str) -> (r:
    Verdict)
    ensures
        outcome == Transfer::Done(expected) ==> r is Complete,
        outcome is Done && outcome != Transfer::Done(expected) ==> (r matches Verdict::Error(
            AttributeError::Write { attribute: a, data: d },
        ) && a@ == attribute@ && d@ == "failed to write entire value"@),
        outcome is Interrupted ==> r is Retry,
        outcome is InvalidInput ==> (r matches Verdict::Error(
            AttributeError::Einval { attribute: a },
        ) && a@ == attribute@),
        outcome is Failed ==> (r matches Verdict::Error(
            AttributeError::Write { attribute: a, data: d },
        ) && a@ == attribute@ && d@ == detail@),
{
    match outcome {
        Transfer::Done(written) => {
            if written == expected {
                Verdict::Complete
            } else {
                Verdict::Error(
                    AttributeError::Write {
                        attribute: String::from_str(attribute),
                        data: String::from_str(SHORT_WRITE),
                    },
                )
            }
        },
        Transfer::Interrupted => Verdict::Retry,
        Transfer::InvalidInput => Verdict::Error(
            AttributeError::Einval { attribute: String::from_str(attribute) },
        ),
        Transfer::Failed => Verdict::Error(
            AttributeError::Write {
                attribute: String::from_str(attribute),
                data: String::from_str(detail),
            },
        ),
    }
}

/// The error for a device whose files cannot be opened.
pub fn not_accessible(detail: &str) -> (r: AttributeError)
    ensures
        r matches AttributeError::DeviceNotAccessible { data } && data@ == detail@,
{
    AttributeError::DeviceNotAccessible { data: String::from_str(detail) }
}

/// `page_size::get`: the size of a memory page on this machine. It differs
/// from machine to machine, so nothing is claimed of it.
#[verifier::external_body]
fn page_size() -> (r: usize) {
    page_size::get()
}

/// A buffer of `size` zero bytes.
pub fn zeroed(size: usize) -> (r: Vec<u8>)
    ensures
        r@.len() == size,
        forall|i: int| 0 <= i < r@.len() ==> r@[i] == 0,
{
    let mut buffer: Vec<u8> = Vec::new();
    let mut i: usize = 0;
    while i < size
        invariant
            0 <= i <= size,
            buffer@.len() == i,
            forall|j: int| 0 <= j < buffer@.len() ==> buffer@[j] == 0,
        decreases size - i,
    {
        buffer.push(0);
        i += 1;
    }
    buffer
}

/// The buffer into which an attribute is read: one memory page of zero
/// bytes, whatever the size of a page is. The size is the machine's to say,
/// so only the content is promised here; `zeroed` says what is made for each
/// size.
pub fn read_buffer() -> (r: Vec<u8>)
    ensures
        forall|i: int| 0 <= i < r@.len() ==> r@[i] == 0,
{
    zeroed(page_size())
}

/// What was read: the first `read` bytes of the buffer, or all of it where
/// it holds no more.
pub fn received(buffer: Vec<u8>, read: usize) -> (r: Vec<u8>)
    ensures
        read <= buffer@.len() ==> r@ == buffer@.take(read as int),
        read > buffer@.len() ==> r@ == buffer@,
{
    let mut kept = buffer;
    if read <= kept.len() {
        kept.truncate(read);
        assert(kept@ =~= buffer@.take(read as int));
    }
    kept
}

} // verus!
