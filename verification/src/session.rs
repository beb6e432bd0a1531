//! What a pseudo-terminal session decides: which failures end it, and how a
//! write that the kernel took only in part goes on.
//!
//! The session itself, with its descriptors and its child process, belongs
//! to the program; it reports here what the kernel answered.

use vstd::prelude::*;
use vstd::slice::slice_subrange;

verus! {

/// What can go wrong in a session.
#[derive(Clone, Copy, Debug, PartialEq, Eq, Structural)]
pub enum SessionError {
    /// The pseudo-terminal or the shell could not be set up.
    Spawn,
    /// Reading from or writing to the pseudo-terminal failed.
    Io,
    /// The kernel did not take the new geometry.
    Resize,
}

impl SessionError {
    /// Whether the session ends with this error. A failed start and failed
    /// input or output end it; a geometry that the kernel did not take is
    /// reported and the session goes on, with the buffer already resized.
    pub fn is_fatal(&self) -> (fatal: bool)
        ensures
            fatal == (*self != SessionError::Resize),
    {
        match self {
            SessionError::Spawn => true,
            SessionError::Io => true,
            SessionError::Resize => false,
        }
    }
}

/// How a write stands after the kernel answered.
#[derive(Clone, Copy, Debug, PartialEq, Eq, Structural)]
pub enum WriteStatus {
    /// Every byte is written.
    Complete,
    /// Bytes are left; write again what `remaining` holds.
    Partial,
    /// The kernel reported an error; the write is given up.
    Failed,
}

/// Bytes on their way to the shell, and how many of them the kernel has
/// taken.
pub struct PendingWrite {
    bytes: Vec<u8>,
    written: usize,
}

impl PendingWrite {
    #[verifier::type_invariant]
    spec fn inv(self) -> bool {
        self.written <= self.bytes.len()
    }

    /// All the bytes of the write.
    pub closed spec fn bytes(self) -> Seq<u8> {
        self.bytes@
    }

    /// How many bytes the kernel has taken.
    pub closed spec fn written(self) -> int {
        self.written as int
    }

    /// The bytes that the kernel has not taken yet.
    pub open spec fn rest(self) -> Seq<u8> {
        self.bytes().skip(self.written())
    }

    /// A write of `bytes`, of which nothing is written yet.
    pub fn new(bytes: Vec<u8>) -> (write: Self)
        ensures
            write.bytes() == bytes@,
            write.written() == 0,
    {
        PendingWrite { bytes, written: 0 }
    }

    /// The bytes to hand to the kernel next.
    pub fn remaining(&self) -> (rest: &[u8])
        ensures
            rest@ == self.rest(),
            0 <= self.written() <= self.bytes().len(),
    {
        proof {
            use_type_invariant(self);
        }
        let rest = slice_subrange(self.bytes.as_slice(), self.written, self.bytes.len());
        assert(rest@ =~= self.rest());
        rest
    }

    pub fn is_complete(&self) -> (complete: bool)
        ensures
            complete == (self.written() == self.bytes().len()),
    {
        self.written == self.bytes.len()
    }

    /// Takes the answer of the kernel to a write of `remaining`: the number
    /// of bytes written, or a negative number for an error. After an error
    /// nothing changes. Otherwise that many bytes count as written, never
    /// more than were handed over, and the write is complete once none is
    /// left.
    pub fn record(&mut self, count: isize) -> (status: WriteStatus)
        ensures
            final(self).bytes() == old(self).bytes(),
            count < 0 ==> status == WriteStatus::Failed && final(self).written()
                == old(self).written(),
            count >= 0 ==> final(self).written() == (if old(self).written() + count > old(
                self,
            ).bytes().len() {
                old(self).bytes().len() as int
            } else {
                old(self).written() + count
            }),
            count >= 0 ==> status == (if final(self).written() == final(self).bytes().len() {
                WriteStatus::Complete
            } else {
                WriteStatus::Partial
            }),
    {
        proof {
            use_type_invariant(&*self);
        }
        if count < 0 {
            return WriteStatus::Failed;
        }
        let left = self.bytes.len() - self.written;
        if count as usize >= left {
            self.written = self.bytes.len();
        } else {
            self.written = self.written + count as usize;
        }
        if self.written == self.bytes.len() {
            WriteStatus::Complete
        } else {
            WriteStatus::Partial
        }
    }
}

} // verus!
