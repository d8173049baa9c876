//! Reader and writer scopes over the buffers of one socket.
//!
//! A scope is a snapshot: it is opened on what the chip reported at that
//! moment, moves only its own cursor, and tells the caller which bytes of
//! the socket buffer to copy. What the chip learns of it is decided when the
//! scope is left, by the reader's `unread` and the writer's `abort` flag.

use crate::cursor::{BufferCursor, CursorView, SeekFrom};
use crate::error::Error;
use crate::net::SocketAddrV4;
use crate::registers::Request;
use vstd::prelude::*;
use w5500_ll::Sn;

verus! {

/// What a reader scope is.
pub struct ReaderView {
    /// The socket that is read.
    pub sn: Sn,
    /// The bytes of the receive buffer that the scope sees, and how many of
    /// them were read.
    pub cursor: CursorView,
    /// Whether the chip is to keep what the scope saw.
    pub unread: bool,
}

impl ReaderView {
    /// The copy out of the receive buffer that a read of `n` bytes asks for:
    /// none for no bytes.
    pub open spec fn transfer(self, n: nat) -> Option<Request> {
        if n == 0 {
            None
        } else {
            Some(Request::RxData { ptr: self.cursor.ptr(), len: n as u16 })
        }
    }

    /// The same scope with the cursor as `cursor` has it.
    pub open spec fn with(self, cursor: CursorView) -> ReaderView {
        ReaderView { cursor, ..self }
    }
}

/// Streaming reader for the receive buffer of a socket.
#[derive(Debug, PartialEq, Eq)]
pub struct TcpReader {
    sn: Sn,
    cursor: BufferCursor,
    unread: bool,
}

impl View for TcpReader {
    type V = ReaderView;

    closed spec fn view(&self) -> ReaderView {
        ReaderView { sn: self.sn, cursor: self.cursor@, unread: self.unread }
    }
}

impl TcpReader {
    /// A reader of the `len` bytes that begin at offset `head` of the
    /// receive buffer of socket `sn`, with nothing read yet.
    pub fn new(sn: Sn, head: u16, len: u16) -> (reader: TcpReader)
        ensures
            reader@ == (ReaderView {
                sn,
                cursor: CursorView { head, len: len as nat, pos: 0 },
                unread: false,
            }),
            reader@.cursor.wf(),
    {
        TcpReader { sn, cursor: BufferCursor::new(head, len), unread: false }
    }

    /// The socket that is read.
    pub fn sn(&self) -> (sn: Sn)
        ensures
            sn == self@.sn,
    {
        self.sn
    }

    /// Offset of the first byte past the scope.
    pub fn tail_ptr(&self) -> (ptr: u16)
        ensures
            self@.cursor.wf(),
            ptr == self@.cursor.tail(),
    {
        self.cursor.tail_ptr()
    }

    /// Seeks to an offset, in bytes, within the stream. A seek beyond either
    /// end fails and leaves the reader as it was.
    pub fn seek<E>(&mut self, pos: SeekFrom) -> (r: Result<(), Error<E>>)
        ensures
            old(self)@.cursor.reaches(pos) ==> r is Ok && final(self)@ == old(self)@.with(
                old(self)@.cursor.at(pos.target(old(self)@.cursor.len, old(self)@.cursor.pos) as nat),
            ),
            !old(self)@.cursor.reaches(pos) ==> r == Err::<(), Error<E>>(Error::UnexpectedEof)
                && final(self)@ == old(self)@,
            final(self)@.cursor.wf(),
    {
        self.cursor.seek(pos)
    }

    /// Rewinds to the beginning of the stream.
    pub fn rewind(&mut self)
        ensures
            final(self)@ == old(self)@.with(old(self)@.cursor.at(0)),
            final(self)@.cursor.wf(),
    {
        self.cursor.rewind()
    }

    /// Length of the stream, in bytes.
    pub fn stream_len(&self) -> (len: u16)
        ensures
            self@.cursor.wf(),
            len == self@.cursor.len,
    {
        self.cursor.len()
    }

    /// Current position in the stream, in bytes from its beginning.
    pub fn stream_position(&self) -> (pos: u16)
        ensures
            self@.cursor.wf(),
            pos == self@.cursor.pos,
    {
        self.cursor.position()
    }

    /// Number of bytes from the current position to the end of the stream.
    pub fn remain(&self) -> (n: u16)
        ensures
            self@.cursor.wf(),
            n == self@.cursor.remaining(),
    {
        self.cursor.remaining()
    }

    /// Reads into a destination of `len` bytes: as many bytes as the
    /// destination holds, or as are left of the stream if that is less. The
    /// reader moves past them and returns their number, and with it the copy
    /// that brings them to the front of the destination. Where the transport
    /// fails the copy, [`TcpReader::retract`] takes the bytes back.
    pub fn read(&mut self, len: usize) -> (r: (u16, Option<Request>))
        ensures
            r.0 == old(self)@.cursor.clamp(len as nat),
            r.1 == old(self)@.transfer(r.0 as nat),
            final(self)@ == old(self)@.with(old(self)@.cursor.forward(r.0 as nat)),
            final(self)@.cursor.wf(),
    {
        let ptr: u16 = self.cursor.ptr();
        let n: u16 = self.cursor.advance(len);
        if n != 0 {
            (n, Some(Request::RxData { ptr, len: n }))
        } else {
            (0, None)
        }
    }

    /// Takes back the last `n` bytes that were read, for a copy that the
    /// transport failed: the reader moves back by `n` bytes, or to the
    /// beginning of the stream if it stands fewer than `n` bytes into it.
    pub fn retract(&mut self, n: u16)
        ensures
            final(self)@ == old(self)@.with(old(self)@.cursor.back(n as nat)),
            final(self)@.cursor.wf(),
    {
        self.cursor.retract(n)
    }

    /// Reads exactly `len` bytes. Where fewer are left of the stream this
    /// fails and the reader stays where it was; else it moves past them and
    /// returns the copy that fills a destination of `len` bytes.
    pub fn read_exact<E>(&mut self, len: usize) -> (r: Result<Option<Request>, Error<E>>)
        ensures
            len <= old(self)@.cursor.remaining() ==> r == Ok::<Option<Request>, Error<E>>(
                old(self)@.transfer(len as nat),
            ) && final(self)@ == old(self)@.with(old(self)@.cursor.forward(len as nat)),
            len > old(self)@.cursor.remaining() ==> r == Err::<Option<Request>, Error<E>>(
                Error::UnexpectedEof,
            ) && final(self)@ == old(self)@,
            final(self)@.cursor.wf(),
    {
        let ptr: u16 = self.cursor.ptr();
        if self.cursor.advance_exact(len) {
            if len != 0 {
                Ok(Some(Request::RxData { ptr, len: len as u16 }))
            } else {
                Ok(None)
            }
        } else {
            Err(Error::UnexpectedEof)
        }
    }

    /// Marks the data as unread: when the scope is left, the chip keeps all
    /// of it, and the next scope sees it again.
    pub fn unread(&mut self)
        ensures
            final(self)@ == (ReaderView { unread: true, ..old(self)@ }),
    {
        self.unread = true;
    }

    /// Whether the data was marked as unread.
    pub fn is_unread(&self) -> (unread: bool)
        ensures
            unread == self@.unread,
    {
        self.unread
    }
}

/// What a writer scope is.
pub struct WriterView {
    /// The socket that is written.
    pub sn: Sn,
    /// The free bytes of the transmit buffer that the scope sees, and how
    /// many of them were written.
    pub cursor: CursorView,
    /// The destination to set before sending, if one was given.
    pub dest: Option<SocketAddrV4>,
    /// Whether nothing is to be sent.
    pub abort: bool,
}

impl WriterView {
    /// The copy into the transmit buffer that a write of `n` bytes asks for:
    /// none for no bytes.
    pub open spec fn transfer(self, n: nat) -> Option<Request> {
        if n == 0 {
            None
        } else {
            Some(Request::TxData { ptr: self.cursor.ptr(), len: n as u16 })
        }
    }

    /// The same scope with the cursor as `cursor` has it.
    pub open spec fn with(self, cursor: CursorView) -> WriterView {
        WriterView { cursor, ..self }
    }
}

/// Streaming writer for the transmit buffer of a socket.
#[derive(Debug, PartialEq, Eq)]
pub struct Writer {
    sn: Sn,
    cursor: BufferCursor,
    dest: Option<SocketAddrV4>,
    abort: bool,
}

impl View for Writer {
    type V = WriterView;

    closed spec fn view(&self) -> WriterView {
        WriterView { sn: self.sn, cursor: self.cursor@, dest: self.dest, abort: self.abort }
    }
}

impl Writer {
    /// A writer of the `len` free bytes that begin at offset `head` of the
    /// transmit buffer of socket `sn`, with nothing written yet. What it
    /// writes goes to `dest`, or where no `dest` is given, to the
    /// destination that the socket has.
    pub fn new(sn: Sn, head: u16, len: u16, dest: Option<SocketAddrV4>) -> (writer: Writer)
        ensures
            writer@ == (WriterView {
                sn,
                cursor: CursorView { head, len: len as nat, pos: 0 },
                dest,
                abort: false,
            }),
            writer@.cursor.wf(),
    {
        Writer { sn, cursor: BufferCursor::new(head, len), dest, abort: false }
    }

    /// The destination that was given for what is written, if any.
    pub fn dest(&self) -> (dest: Option<SocketAddrV4>)
        ensures
            dest == self@.dest,
    {
        self.dest
    }

    /// The socket that is written.
    pub fn sn(&self) -> (sn: Sn)
        ensures
            sn == self@.sn,
    {
        self.sn
    }

    /// Offset of the first byte past what was written.
    pub fn ptr(&self) -> (ptr: u16)
        ensures
            self@.cursor.wf(),
            ptr == self@.cursor.ptr(),
    {
        self.cursor.ptr()
    }

    /// Rewinds to the beginning of the stream.
    pub fn rewind(&mut self)
        ensures
            final(self)@ == old(self)@.with(old(self)@.cursor.at(0)),
            final(self)@.cursor.wf(),
    {
        self.cursor.rewind()
    }

    /// Length of the stream, in bytes.
    pub fn stream_len(&self) -> (len: u16)
        ensures
            self@.cursor.wf(),
            len == self@.cursor.len,
    {
        self.cursor.len()
    }

    /// Current position in the stream, in bytes from its beginning.
    pub fn stream_position(&self) -> (pos: u16)
        ensures
            self@.cursor.wf(),
            pos == self@.cursor.pos,
    {
        self.cursor.position()
    }

    /// Number of bytes from the current position to the end of the stream.
    pub fn remain(&self) -> (n: u16)
        ensures
            self@.cursor.wf(),
            n == self@.cursor.remaining(),
    {
        self.cursor.remaining()
    }

    /// Writes from a source of `len` bytes: as many bytes as the source
    /// holds, or as there is room for if that is less; the rest of the source
    /// is dropped. The writer moves past them and returns their number, and
    /// with it the copy that takes them from the front of the source. Where
    /// the transport fails the copy, [`Writer::retract`] takes the bytes
    /// back.
    pub fn write(&mut self, len: usize) -> (r: (u16, Option<Request>))
        ensures
            r.0 == old(self)@.cursor.clamp(len as nat),
            r.1 == old(self)@.transfer(r.0 as nat),
            final(self)@ == old(self)@.with(old(self)@.cursor.forward(r.0 as nat)),
            final(self)@.cursor.wf(),
    {
        let ptr: u16 = self.cursor.ptr();
        let n: u16 = self.cursor.advance(len);
        if n != 0 {
            (n, Some(Request::TxData { ptr, len: n }))
        } else {
            (0, None)
        }
    }

    /// Takes back the last `n` bytes that were written, for a copy that the
    /// transport failed: the writer moves back by `n` bytes, or to the
    /// beginning of the stream if it stands fewer than `n` bytes into it.
    pub fn retract(&mut self, n: u16)
        ensures
            final(self)@ == old(self)@.with(old(self)@.cursor.back(n as nat)),
            final(self)@.cursor.wf(),
    {
        self.cursor.retract(n)
    }

    /// Writes all `len` bytes of a source. Where there is less room this
    /// fails and the writer stays where it was; else it moves past them and
    /// returns the copy that takes the whole source.
    pub fn write_all<E>(&mut self, len: usize) -> (r: Result<Option<Request>, Error<E>>)
        ensures
            len <= old(self)@.cursor.remaining() ==> r == Ok::<Option<Request>, Error<E>>(
                old(self)@.transfer(len as nat),
            ) && final(self)@ == old(self)@.with(old(self)@.cursor.forward(len as nat)),
            len > old(self)@.cursor.remaining() ==> r == Err::<Option<Request>, Error<E>>(
                Error::OutOfMemory,
            ) && final(self)@ == old(self)@,
            final(self)@.cursor.wf(),
    {
        let ptr: u16 = self.cursor.ptr();
        if self.cursor.advance_exact(len) {
            if len != 0 {
                Ok(Some(Request::TxData { ptr, len: len as u16 }))
            } else {
                Ok(None)
            }
        } else {
            Err(Error::OutOfMemory)
        }
    }

    /// Aborts the write: when the scope is left, nothing is sent.
    pub fn abort(&mut self)
        ensures
            final(self)@ == (WriterView { abort: true, ..old(self)@ }),
    {
        self.abort = true;
    }

    /// Whether the write was aborted.
    pub fn is_aborted(&self) -> (abort: bool)
        ensures
            abort == self@.abort,
    {
        self.abort
    }
}

} // verus!
