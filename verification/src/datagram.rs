//! Received datagrams: the header that the chip puts before each of them,
//! and the reader scope over the payload of one.

use crate::cursor::{CursorView, SeekFrom};
use crate::error::Error;
use crate::net::{Ipv4Addr, SocketAddrV4};
use crate::registers::Request;
use crate::stream::{ReaderView, TcpReader};
use vstd::prelude::*;
use w5500_ll::Sn;

verus! {

/// The 16-bit number whose big-endian bytes are `hi`, `lo`.
pub open spec fn be16(hi: u8, lo: u8) -> u16 {
    (hi * 0x100 + lo) as u16
}

/// W5500 UDP header.
///
/// This is not the header of a UDP datagram on the wire. In the receive
/// buffer of a UDP socket the chip puts before each datagram:
/// four bytes of origin IP address, two bytes of origin port and two bytes
/// of payload length, the numbers big-endian.
#[derive(Debug, Clone, Copy, PartialEq, Eq, PartialOrd, Ord, Structural)]
pub struct UdpHeader {
    /// Origin IP address and port.
    pub origin: SocketAddrV4,
    /// Length of the payload in bytes.
    pub len: u16,
}

impl UdpHeader {
    /// Length of the header in the receive buffer, in bytes.
    pub const LEN: u16 = 8;

    /// The header that the eight bytes `buf` spell.
    pub open spec fn parse(buf: Seq<u8>) -> UdpHeader {
        UdpHeader {
            origin: SocketAddrV4 {
                ip: Ipv4Addr(buf[0], buf[1], buf[2], buf[3]),
                port: be16(buf[4], buf[5]),
            },
            len: be16(buf[6], buf[7]),
        }
    }

    /// Deserialize a UDP header.
    pub fn deser(buf: [u8; 8]) -> (header: UdpHeader)
        ensures
            header == UdpHeader::parse(buf@),
    {
        let port: u16 = buf[4] as u16 * 0x100 + buf[5] as u16;
        let len: u16 = buf[6] as u16 * 0x100 + buf[7] as u16;
        UdpHeader {
            origin: SocketAddrV4::new(Ipv4Addr::new(buf[0], buf[1], buf[2], buf[3]), port),
            len,
        }
    }
}

/// What a UDP reader is.
pub struct UdpReaderView {
    /// The scope over the payload of the datagram.
    pub stream: ReaderView,
    /// The header of the datagram.
    pub header: UdpHeader,
}

impl UdpReaderView {
    /// The same reader with the scope as `stream` has it.
    pub open spec fn with(self, stream: ReaderView) -> UdpReaderView {
        UdpReaderView { stream, ..self }
    }
}

/// Streaming reader for the payload of one datagram in the receive buffer
/// of a UDP socket.
#[derive(Debug, PartialEq, Eq)]
pub struct UdpReader {
    inner: TcpReader,
    header: UdpHeader,
}

impl View for UdpReader {
    type V = UdpReaderView;

    closed spec fn view(&self) -> UdpReaderView {
        UdpReaderView { stream: self.inner@, header: self.header }
    }
}

impl UdpReader {
    /// A reader of the `len` bytes that begin at offset `head` of the
    /// receive buffer of socket `sn`, which belong to the datagram that
    /// `header` came before; nothing of them is read yet.
    pub fn new(sn: Sn, head: u16, len: u16, header: UdpHeader) -> (reader: UdpReader)
        ensures
            reader@ == (UdpReaderView {
                stream: ReaderView {
                    sn,
                    cursor: CursorView { head, len: len as nat, pos: 0 },
                    unread: false,
                },
                header,
            }),
            reader@.stream.cursor.wf(),
    {
        UdpReader { inner: TcpReader::new(sn, head, len), header }
    }

    /// The socket that is read.
    pub fn sn(&self) -> (sn: Sn)
        ensures
            sn == self@.stream.sn,
    {
        self.inner.sn()
    }

    /// Offset of the first byte past the scope.
    pub fn tail_ptr(&self) -> (ptr: u16)
        ensures
            self@.stream.cursor.wf(),
            ptr == self@.stream.cursor.tail(),
    {
        self.inner.tail_ptr()
    }

    /// Seeks to an offset, in bytes, within the payload. A seek beyond
    /// either end fails and leaves the reader as it was.
    pub fn seek<E>(&mut self, pos: SeekFrom) -> (r: Result<(), Error<E>>)
        ensures
            old(self)@.stream.cursor.reaches(pos) ==> r is Ok && final(self)@ == old(self)@.with(
                old(self)@.stream.with(
                    old(self)@.stream.cursor.at(
                        pos.target(old(self)@.stream.cursor.len, old(self)@.stream.cursor.pos) as nat,
                    ),
                ),
            ),
            !old(self)@.stream.cursor.reaches(pos) ==> r == Err::<(), Error<E>>(
                Error::UnexpectedEof,
            ) && final(self)@ == old(self)@,
            final(self)@.stream.cursor.wf(),
    {
        self.inner.seek(pos)
    }

    /// Rewinds to the beginning of the payload.
    pub fn rewind(&mut self)
        ensures
            final(self)@ == old(self)@.with(old(self)@.stream.with(old(self)@.stream.cursor.at(0))),
            final(self)@.stream.cursor.wf(),
    {
        self.inner.rewind()
    }

    /// Length of the stream, in bytes: that of the payload, or of what the
    /// chip held of it when the reader was made.
    pub fn stream_len(&self) -> (len: u16)
        ensures
            self@.stream.cursor.wf(),
            len == self@.stream.cursor.len,
    {
        self.inner.stream_len()
    }

    /// Current position in the stream, in bytes from its beginning.
    pub fn stream_position(&self) -> (pos: u16)
        ensures
            self@.stream.cursor.wf(),
            pos == self@.stream.cursor.pos,
    {
        self.inner.stream_position()
    }

    /// Number of bytes from the current position to the end of the stream.
    pub fn remain(&self) -> (n: u16)
        ensures
            self@.stream.cursor.wf(),
            n == self@.stream.cursor.remaining(),
    {
        self.inner.remain()
    }

    /// Reads into a destination of `len` bytes: as many bytes as the
    /// destination holds, or as are left of the stream if that is less. The
    /// reader moves past them and returns their number, and with it the copy
    /// that brings them to the front of the destination. Where the transport
    /// fails the copy, [`UdpReader::retract`] takes the bytes back.
    pub fn read(&mut self, len: usize) -> (r: (u16, Option<Request>))
        ensures
            r.0 == old(self)@.stream.cursor.clamp(len as nat),
            r.1 == old(self)@.stream.transfer(r.0 as nat),
            final(self)@ == old(self)@.with(
                old(self)@.stream.with(old(self)@.stream.cursor.forward(r.0 as nat)),
            ),
            final(self)@.stream.cursor.wf(),
    {
        self.inner.read(len)
    }

    /// Takes back the last `n` bytes that were read, for a copy that the
    /// transport failed: the reader moves back by `n` bytes, or to the
    /// beginning of the stream if it stands fewer than `n` bytes into it.
    pub fn retract(&mut self, n: u16)
        ensures
            final(self)@ == old(self)@.with(
                old(self)@.stream.with(old(self)@.stream.cursor.back(n as nat)),
            ),
            final(self)@.stream.cursor.wf(),
    {
        self.inner.retract(n)
    }

    /// Reads exactly `len` bytes. Where fewer are left of the stream this
    /// fails and the reader stays where it was; else it moves past them and
    /// returns the copy that fills a destination of `len` bytes.
    pub fn read_exact<E>(&mut self, len: usize) -> (r: Result<Option<Request>, Error<E>>)
        ensures
            len <= old(self)@.stream.cursor.remaining() ==> r == Ok::<Option<Request>, Error<E>>(
                old(self)@.stream.transfer(len as nat),
            ) && final(self)@ == old(self)@.with(
                old(self)@.stream.with(old(self)@.stream.cursor.forward(len as nat)),
            ),
            len > old(self)@.stream.cursor.remaining() ==> r == Err::<Option<Request>, Error<E>>(
                Error::UnexpectedEof,
            ) && final(self)@ == old(self)@,
            final(self)@.stream.cursor.wf(),
    {
        self.inner.read_exact(len)
    }

    /// Marks the data as unread: when the scope is left, the chip keeps the
    /// datagram, and the next scope sees it again.
    pub fn unread(&mut self)
        ensures
            final(self)@ == old(self)@.with(ReaderView { unread: true, ..old(self)@.stream }),
    {
        self.inner.unread()
    }

    /// Whether the data was marked as unread.
    pub fn is_unread(&self) -> (unread: bool)
        ensures
            unread == self@.stream.unread,
    {
        self.inner.is_unread()
    }

    /// Get the UDP header.
    pub fn header(&self) -> (header: &UdpHeader)
        ensures
            *header == self@.header,
    {
        &self.header
    }
}

} // verus!
