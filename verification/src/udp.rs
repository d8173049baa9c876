//! The operations of a UDP socket.
//!
//! An operation is a conversation with the registers of its socket. A
//! [`Udp`] value is an operation that waits for the answer to one register
//! access, its [`Udp::request`]; [`Udp::step`] takes the answer and says what
//! comes next. The caller carries the accesses out, in the order in which
//! they are asked for, and stops at the first that the transport fails.
//!
//! Everything is non-blocking. A receive that finds no complete datagram
//! ends in [`Step::WouldBlock`], to be tried again later. Only a bind
//! waits: it asks for the status of the socket until the chip reports that
//! the socket has closed, and again until it has opened.

use crate::cursor::{offset, CursorView};
use crate::datagram::{UdpHeader, UdpReader, UdpReaderView};
use crate::error::Error;
use crate::net::SocketAddrV4;
use crate::registers::{udp_mode, Reply, Request, SocketCommand, SocketStatus, UDP_MODE};
use crate::stream::{ReaderView, Writer, WriterView};
use vstd::prelude::*;
use w5500_ll::Sn;

verus! {

/// How a datagram is taken from the receive buffer.
#[derive(Debug, Clone, Copy, PartialEq, Eq, Structural)]
pub enum Access {
    /// Copy the payload, then remove the datagram.
    Receive {
        /// Number of bytes that the caller's buffer holds at most.
        cap: u16,
    },
    /// Copy the payload and leave the datagram where it is.
    Peek {
        /// Number of bytes that the caller's buffer holds at most.
        cap: u16,
    },
    /// Look at the header alone.
    Header,
    /// Open a reader scope on the payload.
    Stream,
}

/// What an operation ends with.
#[derive(Debug, Clone, Copy, PartialEq, Eq, Structural)]
pub enum Outcome {
    /// The socket is bound and open.
    Bound,
    /// A datagram was received.
    Received {
        /// Number of bytes that were copied.
        len: u16,
        /// Where the datagram came from.
        origin: SocketAddrV4,
    },
    /// A datagram was looked at.
    Peeked {
        /// Number of bytes that were copied.
        len: u16,
        /// The header of the datagram.
        header: UdpHeader,
    },
    /// The header of the next datagram.
    Header(UdpHeader),
    /// Number of bytes that were sent.
    Sent(u16),
    /// A scope was left.
    Left,
}

/// Where an operation stands: the register access that it waits for, and
/// what it has learnt so far.
#[derive(Debug, Clone, Copy, PartialEq, Eq)]
pub enum State {
    /// Bind: closing the socket.
    BindClose {
        /// The port to bind to.
        port: u16,
    },
    /// Bind: waiting for the socket to report that it has closed.
    BindClosed {
        /// The port to bind to.
        port: u16,
    },
    /// Bind: setting the source port.
    BindPort {
        /// The port to bind to.
        port: u16,
    },
    /// Bind: setting the mode to UDP.
    BindMode,
    /// Bind: opening the socket.
    BindOpen,
    /// Bind: waiting for the socket to report that it is open for UDP.
    BindOpened,
    /// Receive: asking how many bytes the receive buffer holds.
    RxSize {
        /// How the datagram is taken.
        access: Access,
    },
    /// Receive: asking where the receive buffer is read from.
    RxPointer {
        /// How the datagram is taken.
        access: Access,
        /// Number of bytes that the receive buffer holds after the header.
        avail: u16,
    },
    /// Receive: reading the header of the datagram.
    RxHeader {
        /// How the datagram is taken.
        access: Access,
        /// Number of bytes that the receive buffer holds after the header.
        avail: u16,
        /// Offset of the header in the receive buffer.
        rd: u16,
    },
    /// Receive: copying the payload.
    RxData {
        /// Whether the datagram stays in the receive buffer.
        keep: bool,
        /// The header of the datagram.
        header: UdpHeader,
        /// Number of bytes to copy.
        len: u16,
        /// Offset of the header in the receive buffer.
        rd: u16,
    },
    /// Moving the receive read pointer.
    RxAdvance {
        /// The new read pointer.
        next: u16,
        /// What the operation ends with.
        done: Outcome,
    },
    /// Telling the chip that the receive read pointer has moved.
    RxCommand {
        /// What the operation ends with.
        done: Outcome,
    },
    /// Send: setting the destination.
    TxDestination {
        /// The destination.
        addr: SocketAddrV4,
        /// Whether to send all of the data or nothing.
        exact: bool,
        /// Number of bytes of data.
        size: usize,
    },
    /// Send: asking how much room the transmit buffer has.
    TxFree {
        /// Whether to send all of the data or nothing.
        exact: bool,
        /// Number of bytes of data, as far as a datagram can hold them.
        len: u16,
    },
    /// Send: asking where the transmit buffer is written to.
    TxPointer {
        /// Number of bytes to send.
        len: u16,
    },
    /// Send: copying the data.
    TxData {
        /// Number of bytes to send.
        len: u16,
        /// Offset in the transmit buffer to copy to.
        wr: u16,
    },
    /// Moving the transmit write pointer.
    TxAdvance {
        /// The new write pointer.
        next: u16,
        /// What the operation ends with.
        done: Outcome,
    },
    /// Telling the chip to send.
    TxCommand {
        /// What the operation ends with.
        done: Outcome,
    },
    /// Writer: asking how much room the transmit buffer has.
    WriterFree {
        /// The destination to set before sending, if one was given.
        dest: Option<SocketAddrV4>,
    },
    /// Writer: asking where the transmit buffer is written to.
    WriterPointer {
        /// The destination to set before sending, if one was given.
        dest: Option<SocketAddrV4>,
        /// Number of free bytes in the transmit buffer.
        free: u16,
    },
    /// Leaving a writer: setting the destination.
    ExitDestination {
        /// The destination.
        addr: SocketAddrV4,
        /// The new write pointer.
        next: u16,
    },
}

/// An operation on a UDP socket that waits for the answer to a register
/// access.
#[derive(Debug, Clone, Copy, PartialEq, Eq)]
pub struct Udp {
    /// The socket.
    pub sn: Sn,
    /// Where the operation stands.
    pub state: State,
}

/// What comes next in an operation.
#[derive(Debug, PartialEq, Eq)]
pub enum Step {
    /// The operation goes on: carry out its request and hand it the reply.
    Ask(Udp),
    /// The operation is done.
    Done(Outcome),
    /// The operation is done: it has opened a reader scope over the payload
    /// of the datagram at the front of the receive buffer.
    Reader(UdpReader),
    /// The operation is done: it has opened a writer scope over the free
    /// part of the transmit buffer.
    Writer(Writer),
    /// The receive buffer holds no complete datagram yet; nothing was
    /// changed.
    WouldBlock,
}

/// What a [`Step`] is: the same, with each scope as what it is.
pub enum StepView {
    /// The operation goes on.
    Ask(Udp),
    /// The operation is done.
    Done(Outcome),
    /// The operation has opened a reader scope.
    Reader(UdpReaderView),
    /// The operation has opened a writer scope.
    Writer(WriterView),
    /// The receive buffer holds no complete datagram yet.
    WouldBlock,
}

impl StepView {
    /// Whether the operation waits for the answer to `request`.
    pub open spec fn asks(self, request: Request) -> bool {
        self matches StepView::Ask(op) && op.pending() == request
    }

    /// What comes after `reply`: the next step of an operation that goes on,
    /// and no change once the operation is over.
    pub open spec fn on(self, reply: Reply) -> StepView {
        match self {
            StepView::Ask(op) => op.next(reply),
            _ => self,
        }
    }

    /// What comes after the replies `replies`, taken in order.
    pub open spec fn after(self, replies: Seq<Reply>) -> StepView
        decreases replies.len(),
    {
        if replies.len() == 0 {
            self
        } else {
            self.after(replies.drop_last()).on(replies.last())
        }
    }
}

impl View for Step {
    type V = StepView;

    open spec fn view(&self) -> StepView {
        match *self {
            Step::Ask(op) => StepView::Ask(op),
            Step::Done(outcome) => StepView::Done(outcome),
            Step::Reader(reader) => StepView::Reader(reader@),
            Step::Writer(writer) => StepView::Writer(writer@),
            Step::WouldBlock => StepView::WouldBlock,
        }
    }
}

/// The smaller of two numbers.
pub open spec fn least(a: u16, b: u16) -> u16 {
    if a <= b {
        a
    } else {
        b
    }
}

/// The length `len` of a caller's buffer, as far as a 16-bit count can tell
/// it.
pub open spec fn capped(len: usize) -> u16 {
    if len <= 0xFFFF {
        len as u16
    } else {
        0xFFFF
    }
}

fn least_of(a: u16, b: u16) -> (m: u16)
    ensures
        m == least(a, b),
{
    if a <= b {
        a
    } else {
        b
    }
}

fn cap_of(len: usize) -> (cap: u16)
    ensures
        cap == capped(len),
{
    if len <= 0xFFFF {
        len as u16
    } else {
        0xFFFF
    }
}

impl State {
    /// The register access that an operation in this state waits for.
    pub open spec fn pending(self) -> Request {
        match self {
            State::BindClose { .. } => Request::Command(SocketCommand::Close),
            State::BindClosed { .. } => Request::Status,
            State::BindPort { port } => Request::SetPort(port),
            State::BindMode => Request::SetMode(UDP_MODE),
            State::BindOpen => Request::Command(SocketCommand::Open),
            State::BindOpened => Request::Status,
            State::RxSize { .. } => Request::RxReceivedSize,
            State::RxPointer { .. } => Request::RxReadPointer,
            State::RxHeader { rd, .. } => Request::RxHeader { ptr: rd },
            State::RxData { len, rd, .. } => Request::RxData {
                ptr: offset(rd, UdpHeader::LEN as int),
                len,
            },
            State::RxAdvance { next, .. } => Request::SetRxReadPointer(next),
            State::RxCommand { .. } => Request::Command(SocketCommand::Recv),
            State::TxDestination { addr, .. } => Request::SetDestination(addr),
            State::TxFree { .. } => Request::TxFreeSize,
            State::TxPointer { .. } => Request::TxWritePointer,
            State::TxData { len, wr } => Request::TxData { ptr: wr, len },
            State::TxAdvance { next, .. } => Request::SetTxWritePointer(next),
            State::TxCommand { .. } => Request::Command(SocketCommand::Send),
            State::WriterFree { .. } => Request::TxFreeSize,
            State::WriterPointer { .. } => Request::TxWritePointer,
            State::ExitDestination { addr, .. } => Request::SetDestination(addr),
        }
    }

    /// Whether an operation in this state can come to an end in `end`.
    pub open spec fn ends(self, end: StepView) -> bool {
        match self {
            State::BindClose { .. }
            | State::BindClosed { .. }
            | State::BindPort { .. }
            | State::BindMode
            | State::BindOpen
            | State::BindOpened => end == StepView::Done(Outcome::Bound),
            State::RxSize { access, .. }
            | State::RxPointer { access, .. }
            | State::RxHeader { access, .. } => match access {
                Access::Receive { .. } => end is WouldBlock || (end matches StepView::Done(o)
                    && o is Received),
                Access::Peek { .. } => end is WouldBlock || (end matches StepView::Done(o)
                    && o is Peeked),
                Access::Header => end is WouldBlock || (end matches StepView::Done(o)
                    && o is Header),
                Access::Stream => end is WouldBlock || end is Reader,
            },
            State::RxData { keep, .. } => end matches StepView::Done(o) && if keep {
                o is Peeked
            } else {
                o is Received
            },
            State::RxAdvance { done, .. }
            | State::RxCommand { done }
            | State::TxAdvance { done, .. }
            | State::TxCommand { done } => end == StepView::Done(done),
            State::TxDestination { .. }
            | State::TxFree { .. }
            | State::TxPointer { .. }
            | State::TxData { .. } => end matches StepView::Done(o) && o is Sent,
            State::WriterFree { .. } | State::WriterPointer { .. } => end is Writer,
            State::ExitDestination { .. } => end == StepView::Done(Outcome::Left),
        }
    }
}

impl Udp {
    /// The register access that the operation waits for.
    pub open spec fn pending(self) -> Request {
        self.state.pending()
    }

    /// Whether the operation only looks at the receive buffer: it is part of
    /// a peek, of a look at a header or of the opening of a reader scope.
    pub open spec fn looks(self) -> bool {
        match self.state {
            State::RxSize { access, .. }
            | State::RxPointer { access, .. }
            | State::RxHeader { access, .. } => !(access is Receive),
            State::RxData { keep, .. } => keep,
            _ => false,
        }
    }

    /// The operation on socket `sn` that stands at `state`.
    pub open spec fn at(sn: Sn, state: State) -> StepView {
        StepView::Ask(Udp { sn, state })
    }

    /// What becomes of the datagram at the front of the receive buffer, once
    /// its header is read. The header lies at offset `rd`, and `avail` bytes
    /// are buffered after it.
    ///
    /// A reader scope sees the payload as far as it is buffered, and never
    /// more than the payload, whatever lies after it. The other ways of
    /// access wait for a datagram of which all is buffered: a look at the
    /// header ends there; the others copy as much of the payload as the
    /// caller's buffer holds, and a receive then moves the read pointer past
    /// the whole of the datagram, copied or not.
    pub open spec fn framed(
        sn: Sn,
        access: Access,
        avail: u16,
        rd: u16,
        header: UdpHeader,
    ) -> StepView {
        match access {
            Access::Stream => StepView::Reader(
                UdpReaderView {
                    stream: ReaderView {
                        sn,
                        cursor: CursorView {
                            head: offset(rd, UdpHeader::LEN as int),
                            len: least(header.len, avail) as nat,
                            pos: 0,
                        },
                        unread: false,
                    },
                    header,
                },
            ),
            _ if avail < header.len => StepView::WouldBlock,
            Access::Header => StepView::Done(Outcome::Header(header)),
            Access::Peek { cap } => if least(header.len, cap) != 0 {
                Udp::at(
                    sn,
                    State::RxData { keep: true, header, len: least(header.len, cap), rd },
                )
            } else {
                StepView::Done(Outcome::Peeked { len: 0, header })
            },
            Access::Receive { cap } => if least(header.len, cap) != 0 {
                Udp::at(
                    sn,
                    State::RxData { keep: false, header, len: least(header.len, cap), rd },
                )
            } else {
                Udp::at(
                    sn,
                    State::RxAdvance {
                        next: offset(rd, UdpHeader::LEN + header.len),
                        done: Outcome::Received { len: 0, origin: header.origin },
                    },
                )
            },
        }
    }

    /// The start of a send of `len` bytes to the destination that the socket
    /// has. More than a datagram can hold is cut short, unless all or
    /// nothing is to be sent: then nothing is.
    pub open spec fn sending(sn: Sn, exact: bool, len: usize) -> StepView {
        if exact && len > 0xFFFF {
            StepView::Done(Outcome::Sent(0))
        } else {
            Udp::at(sn, State::TxFree { exact, len: capped(len) })
        }
    }

    /// What a send of `len` bytes does once it knows that the transmit
    /// buffer has `free` bytes of room: it writes what fits, or, where all
    /// or nothing is to be sent, all of the data if that fits and else
    /// nothing.
    pub open spec fn fitted(sn: Sn, exact: bool, len: u16, free: u16) -> StepView {
        if exact {
            if len <= free {
                Udp::at(sn, State::TxPointer { len })
            } else {
                StepView::Done(Outcome::Sent(0))
            }
        } else if least(len, free) != 0 {
            Udp::at(sn, State::TxPointer { len: least(len, free) })
        } else {
            StepView::Done(Outcome::Sent(0))
        }
    }

    /// What the operation does with `reply`.
    ///
    /// A reply that is not of the kind that answers the pending request
    /// changes nothing: the operation goes on waiting.
    pub open spec fn next(self, reply: Reply) -> StepView {
        let sn = self.sn;
        if !reply.answers(&self.pending()) {
            StepView::Ask(self)
        } else {
            match self.state {
                State::BindClose { port } => Udp::at(sn, State::BindClosed { port }),
                State::BindClosed { port } => if reply == Reply::Status(Ok(SocketStatus::Closed)) {
                    Udp::at(sn, State::BindPort { port })
                } else {
                    StepView::Ask(self)
                },
                State::BindPort { .. } => Udp::at(sn, State::BindMode),
                State::BindMode => Udp::at(sn, State::BindOpen),
                State::BindOpen => Udp::at(sn, State::BindOpened),
                State::BindOpened => if reply == Reply::Status(Ok(SocketStatus::Udp)) {
                    StepView::Done(Outcome::Bound)
                } else {
                    StepView::Ask(self)
                },
                State::RxSize { access } => if reply->Word_0 < UdpHeader::LEN {
                    StepView::WouldBlock
                } else {
                    Udp::at(
                        sn,
                        State::RxPointer { access, avail: (reply->Word_0 - UdpHeader::LEN) as u16 },
                    )
                },
                State::RxPointer { access, avail } => Udp::at(
                    sn,
                    State::RxHeader { access, avail, rd: reply->Word_0 },
                ),
                State::RxHeader { access, avail, rd } => Udp::framed(
                    sn,
                    access,
                    avail,
                    rd,
                    UdpHeader::parse(reply->Header_0@),
                ),
                State::RxData { keep, header, len, rd } => if keep {
                    StepView::Done(Outcome::Peeked { len, header })
                } else {
                    Udp::at(
                        sn,
                        State::RxAdvance {
                            next: offset(rd, UdpHeader::LEN + header.len),
                            done: Outcome::Received { len, origin: header.origin },
                        },
                    )
                },
                State::RxAdvance { done, .. } => Udp::at(sn, State::RxCommand { done }),
                State::RxCommand { done } => StepView::Done(done),
                State::TxDestination { exact, size, .. } => Udp::sending(sn, exact, size),
                State::TxFree { exact, len } => Udp::fitted(sn, exact, len, reply->Word_0),
                State::TxPointer { len } => Udp::at(sn, State::TxData { len, wr: reply->Word_0 }),
                State::TxData { len, wr } => Udp::at(
                    sn,
                    State::TxAdvance { next: offset(wr, len as int), done: Outcome::Sent(len) },
                ),
                State::TxAdvance { done, .. } => Udp::at(sn, State::TxCommand { done }),
                State::TxCommand { done } => StepView::Done(done),
                State::WriterFree { dest } => Udp::at(
                    sn,
                    State::WriterPointer { dest, free: reply->Word_0 },
                ),
                State::WriterPointer { dest, free } => StepView::Writer(
                    WriterView {
                        sn,
                        cursor: CursorView { head: reply->Word_0, len: free as nat, pos: 0 },
                        dest,
                        abort: false,
                    },
                ),
                State::ExitDestination { next, .. } => Udp::at(
                    sn,
                    State::TxAdvance { next, done: Outcome::Left },
                ),
            }
        }
    }

    /// How a reader scope is left: a reader that was marked as unread leaves
    /// the chip as it was; any other moves the read pointer to the end of
    /// the scope, wherever the reader stood, and tells the chip so.
    pub open spec fn reader_exit(reader: UdpReaderView) -> StepView {
        if reader.stream.unread {
            StepView::Done(Outcome::Left)
        } else {
            Udp::at(
                reader.stream.sn,
                State::RxAdvance { next: reader.stream.cursor.tail(), done: Outcome::Left },
            )
        }
    }

    /// How a writer scope is left: a writer that was aborted leaves the chip
    /// as it was; any other sets the destination, if it was given one, moves
    /// the write pointer to where the writer stands and tells the chip to
    /// send.
    pub open spec fn writer_exit(writer: WriterView) -> StepView {
        if writer.abort {
            StepView::Done(Outcome::Left)
        } else {
            match writer.dest {
                Some(addr) => Udp::at(
                    writer.sn,
                    State::ExitDestination { addr, next: writer.cursor.ptr() },
                ),
                None => Udp::at(
                    writer.sn,
                    State::TxAdvance { next: writer.cursor.ptr(), done: Outcome::Left },
                ),
            }
        }
    }
}

impl Udp {
    /// The register access that the operation waits for.
    pub fn request(&self) -> (request: Request)
        ensures
            request == self.pending(),
    {
        match &self.state {
            State::BindClose { .. } => Request::Command(SocketCommand::Close),
            State::BindClosed { .. } => Request::Status,
            State::BindPort { port } => Request::SetPort(*port),
            State::BindMode => Request::SetMode(udp_mode()),
            State::BindOpen => Request::Command(SocketCommand::Open),
            State::BindOpened => Request::Status,
            State::RxSize { .. } => Request::RxReceivedSize,
            State::RxPointer { .. } => Request::RxReadPointer,
            State::RxHeader { rd, .. } => Request::RxHeader { ptr: *rd },
            State::RxData { len, rd, .. } => Request::RxData {
                ptr: rd.wrapping_add(UdpHeader::LEN),
                len: *len,
            },
            State::RxAdvance { next, .. } => Request::SetRxReadPointer(*next),
            State::RxCommand { .. } => Request::Command(SocketCommand::Recv),
            State::TxDestination { addr, .. } => Request::SetDestination(*addr),
            State::TxFree { .. } => Request::TxFreeSize,
            State::TxPointer { .. } => Request::TxWritePointer,
            State::TxData { len, wr } => Request::TxData { ptr: *wr, len: *len },
            State::TxAdvance { next, .. } => Request::SetTxWritePointer(*next),
            State::TxCommand { .. } => Request::Command(SocketCommand::Send),
            State::WriterFree { .. } => Request::TxFreeSize,
            State::WriterPointer { .. } => Request::TxWritePointer,
            State::ExitDestination { addr, .. } => Request::SetDestination(*addr),
        }
    }

    fn frame(sn: Sn, access: Access, avail: u16, rd: u16, header: UdpHeader) -> (r: Step)
        ensures
            r@ == Udp::framed(sn, access, avail, rd, header),
    {
        let head: u16 = rd.wrapping_add(UdpHeader::LEN);
        match access {
            Access::Stream => Step::Reader(
                UdpReader::new(sn, head, least_of(header.len, avail), header),
            ),
            _ if avail < header.len => Step::WouldBlock,
            Access::Header => Step::Done(Outcome::Header(header)),
            Access::Peek { cap } => {
                let len: u16 = least_of(header.len, cap);
                if len != 0 {
                    Step::Ask(Udp { sn, state: State::RxData { keep: true, header, len, rd } })
                } else {
                    Step::Done(Outcome::Peeked { len, header })
                }
            },
            Access::Receive { cap } => {
                let len: u16 = least_of(header.len, cap);
                if len != 0 {
                    Step::Ask(Udp { sn, state: State::RxData { keep: false, header, len, rd } })
                } else {
                    Step::Ask(
                        Udp {
                            sn,
                            state: State::RxAdvance {
                                next: head.wrapping_add(header.len),
                                done: Outcome::Received { len, origin: header.origin },
                            },
                        },
                    )
                }
            },
        }
    }

    fn send(sn: Sn, exact: bool, len: usize) -> (r: Step)
        ensures
            r@ == Udp::sending(sn, exact, len),
    {
        if exact && len > 0xFFFF {
            Step::Done(Outcome::Sent(0))
        } else {
            Step::Ask(Udp { sn, state: State::TxFree { exact, len: cap_of(len) } })
        }
    }

    fn fit(sn: Sn, exact: bool, len: u16, free: u16) -> (r: Step)
        ensures
            r@ == Udp::fitted(sn, exact, len, free),
    {
        let some: u16 = least_of(len, free);
        if exact {
            if len <= free {
                Step::Ask(Udp { sn, state: State::TxPointer { len } })
            } else {
                Step::Done(Outcome::Sent(0))
            }
        } else if some != 0 {
            Step::Ask(Udp { sn, state: State::TxPointer { len: some } })
        } else {
            Step::Done(Outcome::Sent(0))
        }
    }

    /// Takes the reply to the request of the operation, and says what comes
    /// next.
    pub fn step(self, reply: Reply) -> (r: Step)
        ensures
            r@ == self.next(reply),
    {
        if !reply.answers(&self.request()) {
            return Step::Ask(self);
        }
        let sn: Sn = self.sn;
        match self.state {
            State::BindClose { port } => Step::Ask(Udp { sn, state: State::BindClosed { port } }),
            State::BindClosed { port } => match reply {
                Reply::Status(Ok(SocketStatus::Closed)) => Step::Ask(
                    Udp { sn, state: State::BindPort { port } },
                ),
                _ => Step::Ask(Udp { sn, state: State::BindClosed { port } }),
            },
            State::BindPort { .. } => Step::Ask(Udp { sn, state: State::BindMode }),
            State::BindMode => Step::Ask(Udp { sn, state: State::BindOpen }),
            State::BindOpen => Step::Ask(Udp { sn, state: State::BindOpened }),
            State::BindOpened => match reply {
                Reply::Status(Ok(SocketStatus::Udp)) => Step::Done(Outcome::Bound),
                _ => Step::Ask(Udp { sn, state: State::BindOpened }),
            },
            State::RxSize { access } => match reply {
                Reply::Word(size) if size >= UdpHeader::LEN => Step::Ask(
                    Udp { sn, state: State::RxPointer { access, avail: size - UdpHeader::LEN } },
                ),
                _ => Step::WouldBlock,
            },
            State::RxPointer { access, avail } => match reply {
                Reply::Word(rd) => Step::Ask(Udp { sn, state: State::RxHeader { access, avail, rd } }),
                _ => vstd::pervasive::unreached(),
            },
            State::RxHeader { access, avail, rd } => match reply {
                Reply::Header(buf) => Udp::frame(sn, access, avail, rd, UdpHeader::deser(buf)),
                _ => vstd::pervasive::unreached(),
            },
            State::RxData { keep, header, len, rd } => if keep {
                Step::Done(Outcome::Peeked { len, header })
            } else {
                Step::Ask(
                    Udp {
                        sn,
                        state: State::RxAdvance {
                            next: rd.wrapping_add(UdpHeader::LEN).wrapping_add(header.len),
                            done: Outcome::Received { len, origin: header.origin },
                        },
                    },
                )
            },
            State::RxAdvance { done, .. } => Step::Ask(Udp { sn, state: State::RxCommand { done } }),
            State::RxCommand { done } => Step::Done(done),
            State::TxDestination { exact, size, .. } => Udp::send(sn, exact, size),
            State::TxFree { exact, len } => match reply {
                Reply::Word(free) => Udp::fit(sn, exact, len, free),
                _ => vstd::pervasive::unreached(),
            },
            State::TxPointer { len } => match reply {
                Reply::Word(wr) => Step::Ask(Udp { sn, state: State::TxData { len, wr } }),
                _ => vstd::pervasive::unreached(),
            },
            State::TxData { len, wr } => Step::Ask(
                Udp {
                    sn,
                    state: State::TxAdvance { next: wr.wrapping_add(len), done: Outcome::Sent(len) },
                },
            ),
            State::TxAdvance { done, .. } => Step::Ask(Udp { sn, state: State::TxCommand { done } }),
            State::TxCommand { done } => Step::Done(done),
            State::WriterFree { dest } => match reply {
                Reply::Word(free) => Step::Ask(
                    Udp { sn, state: State::WriterPointer { dest, free } },
                ),
                _ => vstd::pervasive::unreached(),
            },
            State::WriterPointer { dest, free } => match reply {
                Reply::Word(wr) => Step::Writer(Writer::new(sn, wr, free, dest)),
                _ => vstd::pervasive::unreached(),
            },
            State::ExitDestination { next, .. } => Step::Ask(
                Udp { sn, state: State::TxAdvance { next, done: Outcome::Left } },
            ),
        }
    }

    /// Binds socket `sn` to the local port `port`.
    ///
    /// The socket is closed first, which empties its receive and transmit
    /// buffers; then its port and mode are set and it is opened. After the
    /// close and after the open the operation asks for the status of the
    /// socket, again and again, until the chip reports it closed, and then
    /// open for UDP: the chip does so unless it is held in reset. The
    /// operation ends in [`Outcome::Bound`].
    ///
    /// The port must not be in use by another socket of the chip; this is
    /// not looked into here: see [`port_is_unique`].
    ///
    /// The conversation is written out in
    /// [`lemma_udp_bind`](crate::laws::lemma_udp_bind).
    pub fn udp_bind(sn: Sn, port: u16) -> (r: Step)
        ensures
            r@ == Udp::at(sn, State::BindClose { port }),
    {
        Step::Ask(Udp { sn, state: State::BindClose { port } })
    }

    /// Receives a single datagram on socket `sn` into a buffer of `len`
    /// bytes.
    ///
    /// The operation ends in [`Step::WouldBlock`] where the receive buffer
    /// does not hold the whole of a datagram, else in [`Outcome::Received`].
    /// As much of the payload as the buffer holds is copied to it; the rest
    /// is discarded, for the datagram is removed whole.
    ///
    /// The conversation is written out in
    /// [`lemma_udp_recv_from`](crate::laws::lemma_udp_recv_from).
    pub fn udp_recv_from(sn: Sn, len: usize) -> (r: Step)
        ensures
            r@ == Udp::at(sn, State::RxSize { access: Access::Receive { cap: capped(len) } }),
    {
        Step::Ask(
            Udp { sn, state: State::RxSize { access: Access::Receive { cap: cap_of(len) } } },
        )
    }

    /// Receives a single datagram on socket `sn` into a buffer of `len`
    /// bytes, without removing it from the queue.
    ///
    /// The operation ends in [`Step::WouldBlock`] where the receive buffer
    /// does not hold the whole of a datagram, else in [`Outcome::Peeked`].
    /// No register is written.
    ///
    /// The conversation is written out in
    /// [`lemma_udp_peek_from`](crate::laws::lemma_udp_peek_from).
    pub fn udp_peek_from(sn: Sn, len: usize) -> (r: Step)
        ensures
            r@ == Udp::at(sn, State::RxSize { access: Access::Peek { cap: capped(len) } }),
    {
        Step::Ask(Udp { sn, state: State::RxSize { access: Access::Peek { cap: cap_of(len) } } })
    }

    /// Receives the origin and size of the next datagram on socket `sn`,
    /// without removing it from the queue.
    ///
    /// The operation ends in [`Step::WouldBlock`] where the receive buffer
    /// does not hold the whole of a datagram, else in [`Outcome::Header`].
    /// No register is written and no payload is copied.
    ///
    /// The conversation is written out in
    /// [`lemma_udp_peek_from_header`](crate::laws::lemma_udp_peek_from_header).
    pub fn udp_peek_from_header(sn: Sn) -> (r: Step)
        ensures
            r@ == Udp::at(sn, State::RxSize { access: Access::Header }),
    {
        Step::Ask(Udp { sn, state: State::RxSize { access: Access::Header } })
    }

    /// Sends `len` bytes of data on socket `sn` to the address `addr`: sets
    /// the destination, then goes on as [`Udp::udp_send`] does.
    pub fn udp_send_to(sn: Sn, len: usize, addr: SocketAddrV4) -> (r: Step)
        ensures
            r@ == Udp::at(sn, State::TxDestination { addr, exact: false, size: len }),
    {
        Step::Ask(Udp { sn, state: State::TxDestination { addr, exact: false, size: len } })
    }

    /// Sends `len` bytes of data on socket `sn` to the address `addr`, if
    /// the transmit buffer has room for all of them: sets the destination,
    /// then goes on as [`Udp::udp_send_if_free`] does.
    pub fn udp_send_to_if_free(sn: Sn, len: usize, addr: SocketAddrV4) -> (r: Step)
        ensures
            r@ == Udp::at(sn, State::TxDestination { addr, exact: true, size: len }),
    {
        Step::Ask(Udp { sn, state: State::TxDestination { addr, exact: true, size: len } })
    }

    /// Sends `len` bytes of data on socket `sn` to the destination that the
    /// socket has.
    ///
    /// As many bytes are sent as the transmit buffer has room for, and no
    /// more than 65535; where that is none, no register is written. The
    /// operation ends in [`Outcome::Sent`] with the number of bytes sent.
    ///
    /// The conversation is written out in
    /// [`lemma_udp_send`](crate::laws::lemma_udp_send).
    pub fn udp_send(sn: Sn, len: usize) -> (r: Step)
        ensures
            r@ == Udp::sending(sn, false, len),
    {
        Udp::send(sn, false, len)
    }

    /// Sends `len` bytes of data on socket `sn` to the destination that the
    /// socket has, if the transmit buffer has room for all of them.
    ///
    /// All of the data is sent or none of it, and the operation ends in
    /// [`Outcome::Sent`] with the number of bytes sent: that of the data, or
    /// 0 where the transmit buffer has less room, in which case no register
    /// is written. Data of more than 65535 bytes is never sent, and no
    /// register is touched for it.
    ///
    /// The conversation is written out in
    /// [`lemma_udp_send_if_free`](crate::laws::lemma_udp_send_if_free).
    pub fn udp_send_if_free(sn: Sn, len: usize) -> (r: Step)
        ensures
            r@ == Udp::sending(sn, true, len),
    {
        Udp::send(sn, true, len)
    }

    /// Creates a UDP reader: a scope over the payload of the datagram at the
    /// front of the receive buffer of socket `sn`.
    ///
    /// The operation ends in [`Step::WouldBlock`] where the receive buffer
    /// holds no header, else in [`Step::Reader`]. The scope is as long as
    /// the payload, or as what is buffered of it if that is less: with more
    /// than one datagram in the buffer it sees the first alone. Leave the
    /// scope with [`Udp::udp_reader_exit`].
    ///
    /// The conversation is written out in
    /// [`lemma_udp_reader`](crate::laws::lemma_udp_reader).
    pub fn udp_reader(sn: Sn) -> (r: Step)
        ensures
            r@ == Udp::at(sn, State::RxSize { access: Access::Stream }),
    {
        Step::Ask(Udp { sn, state: State::RxSize { access: Access::Stream } })
    }

    /// Creates a UDP writer: a scope over the free part of the transmit
    /// buffer of socket `sn`, as large as the chip reports it.
    ///
    /// The operation ends in [`Step::Writer`]. What is written goes to the
    /// destination that the socket has. Leave the scope with
    /// [`Udp::udp_writer_exit`].
    ///
    /// The conversation is written out in
    /// [`lemma_udp_writer`](crate::laws::lemma_udp_writer).
    pub fn udp_writer(sn: Sn) -> (r: Step)
        ensures
            r@ == Udp::at(sn, State::WriterFree { dest: None }),
    {
        Step::Ask(Udp { sn, state: State::WriterFree { dest: None } })
    }

    /// Creates a UDP writer as [`Udp::udp_writer`] does, for data that goes
    /// to the address `addr`: the destination is set when the scope is left,
    /// before the data is sent.
    pub fn udp_writer_to(sn: Sn, addr: SocketAddrV4) -> (r: Step)
        ensures
            r@ == Udp::at(sn, State::WriterFree { dest: Some(addr) }),
    {
        Step::Ask(Udp { sn, state: State::WriterFree { dest: Some(addr) } })
    }

    /// Leaves the scope of a UDP reader.
    ///
    /// Where the reader was not marked as unread, the chip is told that all
    /// of the scope was read, however much of it the reader went through:
    /// the read pointer moves to the end of the scope. Where it was marked,
    /// no register is touched: the datagram stays, and the next reader sees
    /// the same header and payload. The operation ends in [`Outcome::Left`].
    ///
    /// The conversation is written out in
    /// [`lemma_udp_reader_exit_commits`](crate::laws::lemma_udp_reader_exit_commits).
    pub fn udp_reader_exit(reader: UdpReader) -> (r: Step)
        ensures
            r@ == Udp::reader_exit(reader@),
    {
        if reader.is_unread() {
            Step::Done(Outcome::Left)
        } else {
            Step::Ask(
                Udp {
                    sn: reader.sn(),
                    state: State::RxAdvance { next: reader.tail_ptr(), done: Outcome::Left },
                },
            )
        }
    }

    /// Leaves the scope of a UDP writer.
    ///
    /// Where the writer was not aborted, what it wrote is sent: the
    /// destination is set if the writer was given one, the write pointer
    /// moves to where the writer stands, and the chip is told to send. Where
    /// it was aborted, no register is touched and nothing is sent; what was
    /// copied to the transmit buffer is written over by the next writer. The
    /// operation ends in [`Outcome::Left`].
    ///
    /// The conversation is written out in
    /// [`lemma_udp_writer_exit`](crate::laws::lemma_udp_writer_exit).
    pub fn udp_writer_exit(writer: Writer) -> (r: Step)
        ensures
            r@ == Udp::writer_exit(writer@),
    {
        if writer.is_aborted() {
            Step::Done(Outcome::Left)
        } else {
            let sn: Sn = writer.sn();
            let next: u16 = writer.ptr();
            match writer.dest() {
                Some(addr) => Step::Ask(Udp { sn, state: State::ExitDestination { addr, next } }),
                None => Step::Ask(
                    Udp { sn, state: State::TxAdvance { next, done: Outcome::Left } },
                ),
            }
        }
    }
}

/// Whether a socket with the status `status` and the source port `bound`
/// holds the port `port`: it has that port and is neither closed nor about
/// to be.
pub open spec fn holds_port(status: Result<SocketStatus, u8>, bound: u16, port: u16) -> bool {
    &&& bound == port
    &&& status != Ok::<SocketStatus, u8>(SocketStatus::Closed)
    &&& status != Ok::<SocketStatus, u8>(SocketStatus::CloseWait)
    &&& status != Ok::<SocketStatus, u8>(SocketStatus::Closing)
}

/// Whether a socket may be bound to `port`: none of the other sockets of the
/// chip holds it. `others` has the status and the source port of each of
/// them.
pub fn port_is_unique(others: &[(Result<SocketStatus, u8>, u16)], port: u16) -> (unique: bool)
    ensures
        unique <==> forall|i: int|
            0 <= i < others@.len() ==> !holds_port(
                (#[trigger] others@[i]).0,
                others@[i].1,
                port,
            ),
{
    let mut i: usize = 0;
    while i < others.len()
        invariant
            i <= others@.len(),
            forall|j: int| 0 <= j < i ==> !holds_port((#[trigger] others@[j]).0, others@[j].1, port),
        decreases others@.len() - i,
    {
        let closed: bool = match others[i].0 {
            Ok(SocketStatus::Closed) | Ok(SocketStatus::CloseWait) | Ok(SocketStatus::Closing) => true,
            _ => false,
        };
        if !closed && others[i].1 == port {
            return false;
        }
        i += 1;
    }
    true
}

/// What leaving a scope hands to the caller. `body` is what the body of the
/// scope returned, and `exit` what came of the register accesses on leaving
/// it. The exit is gone through whether the body failed or not; a failed
/// body is what the caller gets then, else a failed exit.
pub open spec fn left<T, E>(body: Result<T, Error<E>>, exit: Result<(), E>) -> Result<T, Error<E>> {
    match (body, exit) {
        (Ok(_), Err(e)) => Err(Error::Other(e)),
        _ => body,
    }
}

/// What leaving a scope hands to the caller: what the body of the scope
/// returned, or, where the body did not fail but a register access on
/// leaving the scope did, that failure.
pub fn leave<T, E>(body: Result<T, Error<E>>, exit: Result<(), E>) -> (r: Result<T, Error<E>>)
    ensures
        r == left(body, exit),
{
    match exit {
        Err(e) if body.is_ok() => Err(Error::Other(e)),
        _ => body,
    }
}

} // verus!
