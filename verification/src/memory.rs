//! Buffers that are reserved up front, so that running out of memory is an error and not an abort.

use vstd::prelude::*;

use crate::size::SizeError;

verus! {

/// Why a screen cannot be set up.
#[derive(Clone, Copy, Debug, PartialEq, Eq, Structural)]
pub enum SetupError {
    /// The terminal cannot be drawn on.
    Size(SizeError),
    /// There is no memory for the buffers.
    OutOfMemory,
}

impl SetupError {
    /// The message shown to the user.
    pub fn message(self) -> (text: &'static str)
        ensures
            text@ == (match self {
                SetupError::Size(SizeError::TooSmall) =>
                    "terminal must be at least 1 column by 2 rows"@,
                SetupError::Size(SizeError::TooLarge) =>
                    "terminal exceeds the limit of 1,000,000 cells"@,
                SetupError::OutOfMemory =>
                    "memory allocation failed because the memory allocator returned an error"@,
            }),
    {
        match self {
            SetupError::Size(e) => e.message(),
            SetupError::OutOfMemory =>
                "memory allocation failed because the memory allocator returned an error",
        }
    }
}

/// A buffer that room was reserved in.
pub struct Buffer {
    pub bytes: Vec<u8>,
    /// The number of bytes that the buffer was asked to have room for.
    pub asked: Ghost<nat>,
}

/// Calls `Vec::try_reserve_exact`, which asks the allocator for room for `additional` more bytes
/// and keeps the contents. Where it succeeds, `asked` is the number of bytes in all that there is
/// room for then, as it was asked for. It does nothing, and so does not fail, where the capacity
/// suffices already, as it always does for no bytes; and it fails where more than `isize::MAX`
/// bytes would be needed, which is more than a vector can hold. In between it is up to the
/// allocator: nothing is said of that answer, nor of how much more room than asked for there may
/// be.
#[verifier::external_body]
fn try_reserve_exact(bytes: Vec<u8>, additional: usize) -> (buffer: Option<Buffer>)
    ensures
        buffer matches Some(b) ==> b.bytes@ == bytes@ && b.asked@ == bytes@.len() + additional,
        additional == 0 ==> buffer is Some,
        bytes@.len() + additional > isize::MAX ==> buffer is None,
{
    let mut bytes = bytes;
    let asked = Ghost((bytes@.len() + additional) as nat);
    match bytes.try_reserve_exact(additional) {
        Ok(()) => Some(Buffer { bytes, asked }),
        Err(_) => None,
    }
}

/// An empty buffer with room for `capacity` bytes, if the allocator has that much. For no bytes it
/// is not asked, and there always is one; for more bytes than a vector can hold there never is.
pub fn reserved_buffer(capacity: usize) -> (buffer: Option<Buffer>)
    ensures
        buffer matches Some(b) ==> b.bytes@ == Seq::<u8>::empty() && b.asked@ == capacity,
        capacity == 0 ==> buffer is Some,
        capacity > isize::MAX ==> buffer is None,
{
    try_reserve_exact(Vec::new(), capacity)
}

} // verus!
