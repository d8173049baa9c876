//! The cursor that every reader and writer scope moves over the ring buffer
//! of a socket.
//!
//! A socket buffer is addressed by 16-bit offsets that wrap round. A scope
//! sees the `len` bytes that start at offset `head`; the cursor stands `pos`
//! bytes into them. Offsets are never compared with each other: what counts
//! is how far one lies past another, going forward round the ring.

use crate::error::Error;
use vstd::prelude::*;

verus! {

/// The offset that lies `n` bytes past `base`, going forward round the
/// ring.
pub open spec fn offset(base: u16, n: int) -> u16 {
    ((base + n) % 0x1_0000) as u16
}

/// The number of bytes from offset `from` up to offset `to`, going forward
/// round the ring.
pub open spec fn distance(from: u16, to: u16) -> nat {
    ((to - from) % 0x1_0000) as nat
}

/// Going `m` bytes forward and then `n` more is going `m + n` bytes forward.
pub proof fn lemma_offset_sum(base: u16, m: nat, n: nat)
    requires
        m <= 0xFFFF,
        n <= 0xFFFF,
    ensures
        offset(offset(base, m as int), n as int) == offset(base, (m + n) as int),
{
    let first = offset(base, m as int);
    assert(first == base + m || first == base + m - 0x1_0000);
}

/// Where to seek from, and how far.
#[derive(Debug, Clone, Copy, PartialEq, Eq, Structural)]
pub enum SeekFrom {
    /// So many bytes past the start of the stream.
    Start(u16),
    /// So many bytes past the end of the stream; a seek beyond the end
    /// fails, so only zero and negative offsets succeed.
    End(i16),
    /// So many bytes past the current position.
    Current(i16),
}

impl SeekFrom {
    /// The position that this seek aims at in a stream of `len` bytes whose
    /// cursor stands at `pos`.
    pub open spec fn target(self, len: nat, pos: nat) -> int {
        match self {
            SeekFrom::Start(n) => n as int,
            SeekFrom::End(n) => len + n,
            SeekFrom::Current(n) => pos + n,
        }
    }
}

/// What a cursor is: a scope of `len` bytes that starts at offset `head`,
/// with `pos` of them consumed.
pub struct CursorView {
    /// Offset of the first byte of the scope.
    pub head: u16,
    /// Number of bytes in the scope.
    pub len: nat,
    /// Number of bytes between the start of the scope and the cursor.
    pub pos: nat,
}

impl CursorView {
    /// The cursor lies inside its scope, and the scope inside the ring.
    pub open spec fn wf(self) -> bool {
        self.pos <= self.len <= 0xFFFF
    }

    /// Offset of the byte under the cursor.
    pub open spec fn ptr(self) -> u16 {
        offset(self.head, self.pos as int)
    }

    /// Offset of the first byte past the scope.
    pub open spec fn tail(self) -> u16 {
        offset(self.head, self.len as int)
    }

    /// Number of bytes between the cursor and the end of the scope.
    pub open spec fn remaining(self) -> nat {
        (self.len - self.pos) as nat
    }

    /// The number of bytes that a transfer of up to `want` bytes moves.
    pub open spec fn clamp(self, want: nat) -> nat {
        if want <= self.remaining() {
            want
        } else {
            self.remaining()
        }
    }

    /// The same scope with the cursor at `pos`.
    pub open spec fn at(self, pos: nat) -> CursorView {
        CursorView { pos, ..self }
    }

    /// The same scope with the cursor `n` bytes further on.
    pub open spec fn forward(self, n: nat) -> CursorView {
        CursorView { pos: self.pos + n, ..self }
    }

    /// The same scope with the cursor `n` bytes further back, or at the
    /// head if it stands fewer than `n` bytes into the scope.
    pub open spec fn back(self, n: nat) -> CursorView {
        CursorView {
            pos: if n <= self.pos {
                (self.pos - n) as nat
            } else {
                0
            },
            ..self
        }
    }

    /// Whether `seek` lands inside the scope.
    pub open spec fn reaches(self, seek: SeekFrom) -> bool {
        0 <= seek.target(self.len, self.pos) <= self.len
    }
}

/// A cursor over one scope of a socket buffer.
#[derive(Debug, PartialEq, Eq)]
pub struct BufferCursor {
    head_ptr: u16,
    tail_ptr: u16,
    ptr: u16,
}

impl View for BufferCursor {
    type V = CursorView;

    closed spec fn view(&self) -> CursorView {
        CursorView {
            head: self.head_ptr,
            len: distance(self.head_ptr, self.tail_ptr),
            pos: distance(self.head_ptr, self.ptr),
        }
    }
}

impl BufferCursor {
    #[verifier::type_invariant]
    spec fn inside(self) -> bool {
        distance(self.head_ptr, self.ptr) <= distance(self.head_ptr, self.tail_ptr)
    }

    /// A cursor at the start of the `len` bytes that begin at offset `head`.
    pub fn new(head: u16, len: u16) -> (cursor: BufferCursor)
        ensures
            cursor@ == (CursorView { head, len: len as nat, pos: 0 }),
            cursor@.wf(),
    {
        BufferCursor { head_ptr: head, tail_ptr: head.wrapping_add(len), ptr: head }
    }

    /// Offset of the first byte of the scope.
    pub fn head_ptr(&self) -> (ptr: u16)
        ensures
            self@.wf(),
            ptr == self@.head,
    {
        proof {
            use_type_invariant(self);
        }
        self.head_ptr
    }

    /// Offset of the first byte past the scope.
    pub fn tail_ptr(&self) -> (ptr: u16)
        ensures
            self@.wf(),
            ptr == self@.tail(),
    {
        proof {
            use_type_invariant(self);
        }
        self.tail_ptr
    }

    /// Offset of the byte under the cursor.
    pub fn ptr(&self) -> (ptr: u16)
        ensures
            self@.wf(),
            ptr == self@.ptr(),
    {
        proof {
            use_type_invariant(self);
        }
        self.ptr
    }

    /// Number of bytes in the scope.
    pub fn len(&self) -> (len: u16)
        ensures
            self@.wf(),
            len == self@.len,
    {
        proof {
            use_type_invariant(self);
        }
        self.tail_ptr.wrapping_sub(self.head_ptr)
    }

    /// Number of bytes between the start of the scope and the cursor.
    pub fn position(&self) -> (pos: u16)
        ensures
            self@.wf(),
            pos == self@.pos,
    {
        proof {
            use_type_invariant(self);
        }
        self.ptr.wrapping_sub(self.head_ptr)
    }

    /// Number of bytes between the cursor and the end of the scope.
    pub fn remaining(&self) -> (n: u16)
        ensures
            self@.wf(),
            n == self@.remaining(),
    {
        proof {
            use_type_invariant(self);
        }
        self.tail_ptr.wrapping_sub(self.ptr)
    }

    /// Puts the cursor back at the start of the scope.
    pub fn rewind(&mut self)
        ensures
            final(self)@ == old(self)@.at(0),
            final(self)@.wf(),
    {
        proof {
            use_type_invariant(&*self);
        }
        self.ptr = self.head_ptr;
    }

    /// Moves the cursor to where `seek` aims, if that lies inside the scope;
    /// else the cursor stays.
    pub fn seek<E>(&mut self, seek: SeekFrom) -> (r: Result<(), Error<E>>)
        ensures
            old(self)@.reaches(seek) ==> r is Ok && final(self)@ == old(self)@.at(
                seek.target(old(self)@.len, old(self)@.pos) as nat,
            ),
            !old(self)@.reaches(seek) ==> r == Err::<(), Error<E>>(Error::UnexpectedEof)
                && final(self)@ == old(self)@,
            final(self)@.wf(),
    {
        let len: i32 = self.len() as i32;
        let pos: i32 = self.position() as i32;
        let target: i32 = match seek {
            SeekFrom::Start(n) => n as i32,
            SeekFrom::End(n) => len + n as i32,
            SeekFrom::Current(n) => pos + n as i32,
        };
        if 0 <= target && target <= len {
            self.ptr = self.head_ptr.wrapping_add(target as u16);
            Ok(())
        } else {
            Err(Error::UnexpectedEof)
        }
    }

    /// Moves the cursor forward by `want` bytes, or by what is left of the
    /// scope if that is less, and returns by how many it moved.
    pub fn advance(&mut self, want: usize) -> (n: u16)
        ensures
            n == old(self)@.clamp(want as nat),
            final(self)@ == old(self)@.forward(n as nat),
            final(self)@.wf(),
    {
        let left: u16 = self.remaining();
        let n: u16 = if want < left as usize {
            want as u16
        } else {
            left
        };
        self.ptr = self.ptr.wrapping_add(n);
        n
    }

    /// Moves the cursor back by `n` bytes, or to the head of the scope if it
    /// stands fewer than `n` bytes into it.
    pub fn retract(&mut self, n: u16)
        ensures
            final(self)@ == old(self)@.back(n as nat),
            final(self)@.wf(),
    {
        let pos: u16 = self.position();
        if n <= pos {
            self.ptr = self.ptr.wrapping_sub(n);
        } else {
            self.ptr = self.head_ptr;
        }
    }

    /// Moves the cursor forward by `want` bytes if so many are left of the
    /// scope; else the cursor stays.
    pub fn advance_exact(&mut self, want: usize) -> (moved: bool)
        ensures
            moved <==> want <= old(self)@.remaining(),
            moved ==> final(self)@ == old(self)@.forward(want as nat),
            !moved ==> final(self)@ == old(self)@,
            final(self)@.wf(),
    {
        let left: u16 = self.remaining();
        if want <= left as usize {
            self.ptr = self.ptr.wrapping_add(want as u16);
            true
        } else {
            false
        }
    }
}

} // verus!
