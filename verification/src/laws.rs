//! What holds of every scope and of every operation.

use crate::cursor::{distance, lemma_offset_sum, offset, CursorView, SeekFrom};
use crate::datagram::{UdpHeader, UdpReaderView};
use crate::registers::{Reply, Request, SocketCommand, SocketStatus, UDP_MODE};
use crate::stream::{ReaderView, WriterView};
use crate::udp::{capped, least, Access, Outcome, State, StepView, Udp};
use vstd::prelude::*;
use w5500_ll::Sn;

verus! {

/// Wrapping subtraction of any two offsets gives the number of bytes from
/// the one up to the other, modulo 65536: their difference where the second
/// is not the smaller number, and where it is, where the ring wraps round
/// between the two, their difference and 65536. Going on by that number of
/// bytes from the first offset leads to the second.
pub proof fn lemma_wrapping_distance(from: u16, to: u16)
    ensures
        to.wrapping_sub(from) == distance(from, to),
        from <= to ==> distance(from, to) == to - from,
        to < from ==> distance(from, to) == to - from + 0x1_0000,
        offset(from, distance(from, to) as int) == to,
{
}

/// Wrapping addition of a number of bytes to an offset gives the offset
/// that lies so many bytes past it, and wrapping subtraction finds the number
/// again, also where the new offset is the smaller number.
pub proof fn lemma_wrapping_offset(from: u16, n: u16)
    ensures
        from.wrapping_add(n) == offset(from, n as int),
        distance(from, offset(from, n as int)) == n,
        offset(from, n as int).wrapping_sub(from) == n,
{
}

/// The distances between the head, the cursor and the tail of a scope are
/// the numbers of bytes that were consumed, that remain, and that the scope
/// holds, wherever in the ring the scope lies.
pub proof fn lemma_cursor_counts(cursor: CursorView)
    requires
        cursor.wf(),
    ensures
        cursor.ptr().wrapping_sub(cursor.head) == cursor.pos,
        cursor.tail().wrapping_sub(cursor.ptr()) == cursor.remaining(),
        cursor.tail().wrapping_sub(cursor.head) == cursor.len,
        cursor.pos + cursor.remaining() == cursor.len,
{
}

/// A transfer of up to `want` bytes leaves the cursor inside its scope, and
/// the next transfer begins at the offset where this one ended: what a scope
/// hands out piece by piece lies in the ring without a gap and without a
/// byte twice.
pub proof fn lemma_cursor_forward(cursor: CursorView, want: nat)
    requires
        cursor.wf(),
    ensures
        ({
            let n = cursor.clamp(want);
            let next = cursor.forward(n);
            &&& next.wf()
            &&& next.ptr() == offset(cursor.ptr(), n as int)
            &&& next.remaining() == cursor.remaining() - n
            &&& next.tail() == cursor.tail()
        }),
{
    lemma_offset_sum(cursor.head, cursor.pos, cursor.clamp(want));
}

/// Taking back the bytes of a transfer puts the cursor where it stood before
/// the transfer.
pub proof fn lemma_cursor_retract(cursor: CursorView, want: nat)
    requires
        cursor.wf(),
    ensures
        cursor.forward(cursor.clamp(want)).back(cursor.clamp(want)) == cursor,
{
}

/// A seek that lands inside the scope leaves the cursor at its target; the
/// scope itself stays.
pub proof fn lemma_cursor_seek(cursor: CursorView, seek: SeekFrom)
    requires
        cursor.wf(),
        cursor.reaches(seek),
    ensures
        ({
            let next = cursor.at(seek.target(cursor.len, cursor.pos) as nat);
            &&& next.wf()
            &&& next.head == cursor.head
            &&& next.tail() == cursor.tail()
            &&& seek matches SeekFrom::Start(n) ==> next.pos == n
            &&& seek matches SeekFrom::End(n) ==> next.remaining() == -n
            &&& seek matches SeekFrom::Current(n) ==> next.pos == cursor.pos + n
        }),
{
}

/// A reader scope that was not marked as unread is left by moving the read
/// pointer of the chip to the end of the scope and telling the chip so,
/// and by nothing else.
pub proof fn lemma_udp_reader_exit_commits(reader: UdpReaderView)
    requires
        !reader.stream.unread,
    ensures
        ({
            let s0 = Udp::reader_exit(reader);
            let s1 = s0.on(Reply::Done);
            let s2 = s1.on(Reply::Done);
            &&& s0.asks(Request::SetRxReadPointer(reader.stream.cursor.tail()))
            &&& s1.asks(Request::Command(SocketCommand::Recv))
            &&& s2 == StepView::Done(Outcome::Left)
        }),
{
}

/// How a reader scope is left does not depend on how much of it was read.
pub proof fn lemma_udp_reader_exit_ignores_position(reader: UdpReaderView, pos: nat)
    ensures
        Udp::reader_exit(reader.with(reader.stream.with(reader.stream.cursor.at(pos))))
            == Udp::reader_exit(reader),
{
}

/// A reader scope that was marked as unread is left without any access to
/// the chip.
pub proof fn lemma_udp_reader_exit_unread(reader: UdpReaderView)
    requires
        reader.stream.unread,
    ensures
        Udp::reader_exit(reader) == StepView::Done(Outcome::Left),
{
}

/// Opening a reader scope only reads from the chip: the received size, the
/// read pointer and the header at the read pointer. The reader that comes
/// of it is given by these three alone, so that a scope opened again on an
/// unchanged chip is the same scope, over the same datagram.
pub proof fn lemma_udp_reader(sn: Sn, size: u16, rd: u16, buf: [u8; 8])
    requires
        size >= UdpHeader::LEN,
    ensures
        ({
            let header = UdpHeader::parse(buf@);
            let s0 = Udp::at(sn, State::RxSize { access: Access::Stream });
            let s1 = s0.on(Reply::Word(size));
            let s2 = s1.on(Reply::Word(rd));
            let s3 = s2.on(Reply::Header(buf));
            &&& s0.asks(Request::RxReceivedSize)
            &&& s1.asks(Request::RxReadPointer)
            &&& s2.asks(Request::RxHeader { ptr: rd })
            &&& s3 matches StepView::Reader(reader)
            &&& reader.header == header
            &&& reader.stream.sn == sn
            &&& !reader.stream.unread
            &&& reader.stream.cursor == (CursorView {
                head: offset(rd, 8),
                len: least(header.len, (size - 8) as u16) as nat,
                pos: 0,
            })
        }),
{
}

/// A reader scope that is left unread is seen again. Wherever its cursor
/// stands, leaving it touches no register; and the reader that is opened
/// depends on nothing but what the chip answered, so that on the same
/// answers the same reader is opened again, with the same header over the
/// same bytes.
pub proof fn lemma_udp_reader_again(
    sn: Sn,
    size: u16,
    rd: u16,
    first: [u8; 8],
    again: [u8; 8],
    pos: nat,
)
    requires
        size >= UdpHeader::LEN,
        first@ == again@,
    ensures
        ({
            let asked = Udp::at(sn, State::RxSize { access: Access::Stream }).on(
                Reply::Word(size),
            ).on(Reply::Word(rd));
            &&& asked.on(Reply::Header(first)) matches StepView::Reader(reader)
            &&& Udp::reader_exit(
                reader.with(
                    ReaderView {
                        unread: true,
                        cursor: reader.stream.cursor.at(pos),
                        ..reader.stream
                    },
                ),
            ) == StepView::Done(Outcome::Left)
            &&& asked.on(Reply::Header(again)) == StepView::Reader(reader)
        }),
{
}

/// With more than one datagram in the receive buffer, a reader scope ends
/// where the first of them ends: it holds as many bytes as the header of
/// the first declares, however many bytes lie after them, and no read
/// within it moves more than these.
pub proof fn lemma_udp_reader_one_datagram(
    sn: Sn,
    size: u16,
    rd: u16,
    buf: [u8; 8],
    want: nat,
)
    requires
        size >= UdpHeader::LEN + UdpHeader::parse(buf@).len,
    ensures
        ({
            let first = UdpHeader::parse(buf@).len;
            let s3 = Udp::at(sn, State::RxSize { access: Access::Stream }).on(
                Reply::Word(size),
            ).on(Reply::Word(rd)).on(Reply::Header(buf));
            &&& s3 matches StepView::Reader(reader)
            &&& reader.stream.cursor.len == first
            &&& reader.stream.cursor.tail() == offset(rd, 8 + first)
            &&& reader.stream.cursor.clamp(want) <= first
        }),
{
    lemma_offset_sum(rd, 8, UdpHeader::parse(buf@).len as nat);
}

/// A receive that finds fewer than eight bytes in the receive buffer, or a
/// header that declares more payload than is buffered after it, ends in
/// `WouldBlock` and has written nothing to the chip. So does a peek, with or
/// without the payload.
pub proof fn lemma_would_block(
    sn: Sn,
    access: Access,
    size: u16,
    rd: u16,
    buf: [u8; 8],
)
    requires
        access != Access::Stream,
    ensures
        ({
            let s0 = Udp::at(sn, State::RxSize { access });
            let s1 = s0.on(Reply::Word(size));
            let s2 = s1.on(Reply::Word(rd));
            let s3 = s2.on(Reply::Header(buf));
            &&& s0.asks(Request::RxReceivedSize)
            &&& size < 8 ==> s1 == StepView::WouldBlock
            &&& size >= 8 ==> s1.asks(Request::RxReadPointer) && s2.asks(
                Request::RxHeader { ptr: rd },
            )
            &&& size >= 8 && UdpHeader::parse(buf@).len > size - 8 ==> s3 == StepView::WouldBlock
        }),
{
}

/// A receive of a datagram that is buffered whole copies as much of the
/// payload as the buffer of `len` bytes holds, and then moves the read
/// pointer past the header and the whole of the declared payload, so that
/// what the buffer did not hold is discarded and the next datagram comes
/// next. It ends with the number of bytes copied and the origin.
pub proof fn lemma_udp_recv_from(sn: Sn, len: usize, size: u16, rd: u16, buf: [u8; 8])
    requires
        size >= UdpHeader::LEN + UdpHeader::parse(buf@).len,
    ensures
        ({
            let header = UdpHeader::parse(buf@);
            let n = least(header.len, capped(len));
            let s3 = Udp::at(sn, State::RxSize { access: Access::Receive { cap: capped(len) } }).on(
                Reply::Word(size),
            ).on(Reply::Word(rd)).on(Reply::Header(buf));
            let s4 = if n != 0 {
                s3.on(Reply::Done)
            } else {
                s3
            };
            let s5 = s4.on(Reply::Done);
            let s6 = s5.on(Reply::Done);
            &&& n != 0 ==> s3.asks(Request::RxData { ptr: offset(rd, 8), len: n })
            &&& s4.asks(Request::SetRxReadPointer(offset(rd, 8 + header.len)))
            &&& s5.asks(Request::Command(SocketCommand::Recv))
            &&& s6 == StepView::Done(Outcome::Received { len: n, origin: header.origin })
        }),
{
}

/// A receive into a buffer that is shorter than the payload of the datagram
/// copies exactly as many bytes as the buffer holds and ends with that
/// number; the read pointer still moves past all of the payload, so that
/// the rest of it is discarded and not left in the queue.
pub proof fn lemma_udp_recv_from_truncates(sn: Sn, len: usize, size: u16, rd: u16, buf: [u8; 8])
    requires
        size >= UdpHeader::LEN + UdpHeader::parse(buf@).len,
        0 < len < UdpHeader::parse(buf@).len,
    ensures
        ({
            let header = UdpHeader::parse(buf@);
            let s3 = Udp::at(sn, State::RxSize { access: Access::Receive { cap: capped(len) } }).on(
                Reply::Word(size),
            ).on(Reply::Word(rd)).on(Reply::Header(buf));
            let s4 = s3.on(Reply::Done);
            let s5 = s4.on(Reply::Done);
            let s6 = s5.on(Reply::Done);
            &&& s3.asks(Request::RxData { ptr: offset(rd, 8), len: len as u16 })
            &&& s4.asks(Request::SetRxReadPointer(offset(rd, 8 + header.len)))
            &&& s5.asks(Request::Command(SocketCommand::Recv))
            &&& s6 == StepView::Done(Outcome::Received { len: len as u16, origin: header.origin })
        }),
{
}

/// A peek at a datagram that is buffered whole copies as much of the
/// payload as the buffer of `len` bytes holds and ends with the number of
/// bytes copied and the header. It writes nothing to the chip.
pub proof fn lemma_udp_peek_from(sn: Sn, len: usize, size: u16, rd: u16, buf: [u8; 8])
    requires
        size >= UdpHeader::LEN + UdpHeader::parse(buf@).len,
    ensures
        ({
            let header = UdpHeader::parse(buf@);
            let n = least(header.len, capped(len));
            let s3 = Udp::at(sn, State::RxSize { access: Access::Peek { cap: capped(len) } }).on(
                Reply::Word(size),
            ).on(Reply::Word(rd)).on(Reply::Header(buf));
            let s4 = if n != 0 {
                s3.on(Reply::Done)
            } else {
                s3
            };
            &&& n != 0 ==> s3.asks(Request::RxData { ptr: offset(rd, 8), len: n })
            &&& s4 == StepView::Done(Outcome::Peeked { len: n, header })
        }),
{
}

/// A peek at the header of a datagram that is buffered whole ends with the
/// header as soon as it is read.
pub proof fn lemma_udp_peek_from_header(sn: Sn, size: u16, rd: u16, buf: [u8; 8])
    requires
        size >= UdpHeader::LEN + UdpHeader::parse(buf@).len,
    ensures
        Udp::at(sn, State::RxSize { access: Access::Header }).on(Reply::Word(size)).on(
            Reply::Word(rd),
        ).on(Reply::Header(buf)) == StepView::Done(Outcome::Header(UdpHeader::parse(buf@))),
{
}

/// A send writes as many bytes as were asked for, or as the transmit
/// buffer has room for if that is less, and ends with that number. Where it
/// is none, the send ends after it has read the free size.
pub proof fn lemma_udp_send(sn: Sn, len: usize, free: u16, wr: u16)
    ensures
        ({
            let n = least(capped(len), free);
            let s0 = Udp::sending(sn, false, len);
            let s1 = s0.on(Reply::Word(free));
            let s2 = s1.on(Reply::Word(wr));
            let s3 = s2.on(Reply::Done);
            let s4 = s3.on(Reply::Done);
            let s5 = s4.on(Reply::Done);
            &&& s0.asks(Request::TxFreeSize)
            &&& n == 0 ==> s1 == StepView::Done(Outcome::Sent(0))
            &&& n != 0 ==> {
                &&& s1.asks(Request::TxWritePointer)
                &&& s2.asks(Request::TxData { ptr: wr, len: n })
                &&& s3.asks(Request::SetTxWritePointer(offset(wr, n as int)))
                &&& s4.asks(Request::Command(SocketCommand::Send))
                &&& s5 == StepView::Done(Outcome::Sent(n))
            }
        }),
{
}

/// A send of all or nothing writes all of the data where the transmit
/// buffer has room for it, and ends with the number of bytes of data. Where
/// it has not, the send ends after it has read the free size, with 0;
/// nothing was written, not a part of the data either. Data of more than
/// 65535 bytes is never sent: the send is over before it asks for anything,
/// with 0.
pub proof fn lemma_udp_send_if_free(sn: Sn, len: usize, free: u16, wr: u16)
    ensures
        ({
            let s0 = Udp::sending(sn, true, len);
            let s1 = s0.on(Reply::Word(free));
            let s2 = s1.on(Reply::Word(wr));
            let s3 = s2.on(Reply::Done);
            let s4 = s3.on(Reply::Done);
            let s5 = s4.on(Reply::Done);
            &&& len > 0xFFFF ==> s0 == StepView::Done(Outcome::Sent(0))
            &&& len <= 0xFFFF ==> s0.asks(Request::TxFreeSize)
            &&& free < len <= 0xFFFF ==> s1 == StepView::Done(Outcome::Sent(0))
            &&& len <= free ==> {
                &&& s1.asks(Request::TxWritePointer)
                &&& s2.asks(Request::TxData { ptr: wr, len: len as u16 })
                &&& s3.asks(Request::SetTxWritePointer(offset(wr, len as int)))
                &&& s4.asks(Request::Command(SocketCommand::Send))
                &&& s5 == StepView::Done(Outcome::Sent(len as u16))
            }
        }),
{
}

/// A send to an address sets the destination first and then does what a
/// send to the destination of the socket does.
pub proof fn lemma_udp_send_to(sn: Sn, len: usize, addr: crate::net::SocketAddrV4, exact: bool)
    ensures
        ({
            let s0 = Udp::at(sn, State::TxDestination { addr, exact, size: len });
            &&& s0.asks(Request::SetDestination(addr))
            &&& s0.on(Reply::Done) == Udp::sending(sn, exact, len)
        }),
{
}

/// Opening a writer scope reads the free size and the write pointer of the
/// transmit buffer; the scope begins at the write pointer and holds as many
/// bytes as are free.
pub proof fn lemma_udp_writer(
    sn: Sn,
    dest: Option<crate::net::SocketAddrV4>,
    free: u16,
    wr: u16,
)
    ensures
        ({
            let s0 = Udp::at(sn, State::WriterFree { dest });
            let s1 = s0.on(Reply::Word(free));
            let s2 = s1.on(Reply::Word(wr));
            &&& s0.asks(Request::TxFreeSize)
            &&& s1.asks(Request::TxWritePointer)
            &&& s2 == StepView::Writer(
                WriterView {
                    sn,
                    cursor: CursorView { head: wr, len: free as nat, pos: 0 },
                    dest,
                    abort: false,
                },
            )
        }),
{
}

/// A writer scope that was not aborted is left by setting the destination,
/// if the writer was given one, moving the write pointer of the chip to
/// where the writer stands, and telling the chip to send. One that was
/// aborted is left without any access to the chip.
pub proof fn lemma_udp_writer_exit(writer: WriterView)
    ensures
        ({
            let s0 = Udp::writer_exit(writer);
            let s1 = match writer.dest {
                Some(_) => s0.on(Reply::Done),
                None => s0,
            };
            let s2 = s1.on(Reply::Done);
            let s3 = s2.on(Reply::Done);
            &&& writer.abort ==> s0 == StepView::Done(Outcome::Left)
            &&& !writer.abort ==> {
                &&& writer.dest matches Some(addr) ==> s0.asks(Request::SetDestination(addr))
                &&& s1.asks(Request::SetTxWritePointer(writer.cursor.ptr()))
                &&& s2.asks(Request::Command(SocketCommand::Send))
                &&& s3 == StepView::Done(Outcome::Left)
            }
        }),
{
}

/// A bind closes the socket, waits until the chip reports it closed, sets
/// the port and the UDP mode, opens the socket, and waits until the chip
/// reports it open for UDP.
pub proof fn lemma_udp_bind(sn: Sn, port: u16)
    ensures
        ({
            let s0 = Udp::at(sn, State::BindClose { port });
            let s1 = s0.on(Reply::Done);
            let s2 = s1.on(Reply::Status(Ok(SocketStatus::Closed)));
            let s3 = s2.on(Reply::Done);
            let s4 = s3.on(Reply::Done);
            let s5 = s4.on(Reply::Done);
            let s6 = s5.on(Reply::Status(Ok(SocketStatus::Udp)));
            &&& s0.asks(Request::Command(SocketCommand::Close))
            &&& s1 == Udp::at(sn, State::BindClosed { port })
            &&& s1.asks(Request::Status)
            &&& s2.asks(Request::SetPort(port))
            &&& s3.asks(Request::SetMode(UDP_MODE))
            &&& s4.asks(Request::Command(SocketCommand::Open))
            &&& s5 == Udp::at(sn, State::BindOpened)
            &&& s5.asks(Request::Status)
            &&& s6 == StepView::Done(Outcome::Bound)
        }),
{
}

/// A bind that has closed the socket goes on asking for the status for as
/// long as the chip reports anything but closed, however often that is.
pub proof fn lemma_udp_bind_waits_closed(sn: Sn, port: u16, replies: Seq<Reply>)
    requires
        forall|i: int|
            0 <= i < replies.len() ==> #[trigger] replies[i] != Reply::Status(
                Ok(SocketStatus::Closed),
            ),
    ensures
        Udp::at(sn, State::BindClosed { port }).after(replies) == Udp::at(
            sn,
            State::BindClosed { port },
        ),
    decreases replies.len(),
{
    if replies.len() != 0 {
        lemma_udp_bind_waits_closed(sn, port, replies.drop_last());
    }
}

/// A bind that has opened the socket goes on asking for the status for as
/// long as the chip reports anything but open for UDP, however often that
/// is.
pub proof fn lemma_udp_bind_waits_opened(sn: Sn, replies: Seq<Reply>)
    requires
        forall|i: int|
            0 <= i < replies.len() ==> #[trigger] replies[i] != Reply::Status(
                Ok(SocketStatus::Udp),
            ),
    ensures
        Udp::at(sn, State::BindOpened).after(replies) == Udp::at(sn, State::BindOpened),
    decreases replies.len(),
{
    if replies.len() != 0 {
        lemma_udp_bind_waits_opened(sn, replies.drop_last());
    }
}

/// A reply of another kind than the pending request is answered by leaves
/// an operation where it stands.
pub proof fn lemma_other_reply_is_ignored(op: Udp, reply: Reply)
    requires
        !reply.answers(&op.pending()),
    ensures
        op.next(reply) == StepView::Ask(op),
{
}

/// An operation that looks at the receive buffer without taking from it
/// writes nothing to the chip: neither a peek nor the opening of a reader
/// scope ever waits for an access that changes a register or a buffer.
pub proof fn lemma_peek_writes_nothing(op: Udp, reply: Reply)
    requires
        op.looks(),
    ensures
        !op.pending().writes(),
        op.next(reply) matches StepView::Ask(next) ==> next.looks(),
{
}

/// An operation ends as it set out to: a step leads to an end that the
/// operation could come to before the step, or to a state from which it can
/// come to no other ends than before. So a bind ends bound, a send with the
/// number of bytes sent, a receive with a datagram or in `WouldBlock`, and
/// the opening of a scope with the scope.
pub proof fn lemma_ends(op: Udp, reply: Reply, end: StepView)
    ensures
        match op.next(reply) {
            StepView::Ask(next) => next.state.ends(end) ==> op.state.ends(end),
            over => op.state.ends(over),
        },
{
}

} // verus!
