//! The register accesses that the driver asks of the transport, and what the
//! chip answers.

use crate::net::SocketAddrV4;
use vstd::prelude::*;
use w5500_ll::{Protocol, SocketMode};

verus! {

/// The socket number type of `w5500_ll`, carried through to the transport.
#[verifier::external_type_specification]
#[verifier::external_body]
pub struct ExSn(w5500_ll::Sn);

/// Socket status, as the status register reports it.
#[derive(Debug, Clone, Copy, PartialEq, Eq, Structural)]
pub enum SocketStatus {
    /// Socket closed, the reset state of all sockets.
    Closed,
    /// TCP: opened, not yet listening or connecting.
    Init,
    /// TCP: waiting for a peer to connect.
    Listen,
    /// TCP: connection request sent.
    SynSent,
    /// TCP: connection request received.
    SynRecv,
    /// TCP: connection established.
    Established,
    /// TCP: closing.
    FinWait,
    /// TCP: closing.
    Closing,
    /// TCP: closing.
    TimeWait,
    /// TCP: the peer asked to disconnect.
    CloseWait,
    /// TCP: waiting for the last acknowledgement.
    LastAck,
    /// Open as a UDP socket.
    Udp,
    /// Open as a MACRAW socket.
    Macraw,
}

/// The socket commands that the driver issues.
#[derive(Debug, Clone, Copy, PartialEq, Eq, Structural)]
pub enum SocketCommand {
    /// Open the socket with the protocol of its mode register.
    Open,
    /// Close the socket.
    Close,
    /// Transmit what lies between the transmit read and write pointers.
    Send,
    /// Take note of a moved receive read pointer.
    Recv,
}

/// One access to the registers or buffers of a socket.
#[derive(Debug, Clone, Copy, PartialEq, Eq)]
pub enum Request {
    /// Write the command register.
    Command(SocketCommand),
    /// Read the status register; answered by [`Reply::Status`].
    Status,
    /// Write the source port register.
    SetPort(u16),
    /// Write the mode register.
    SetMode(u8),
    /// Write the destination address and port registers.
    SetDestination(SocketAddrV4),
    /// Read the received size register; answered by [`Reply::Word`].
    RxReceivedSize,
    /// Read the receive read pointer; answered by [`Reply::Word`].
    RxReadPointer,
    /// Read the eight bytes at `ptr` of the receive buffer; answered by
    /// [`Reply::Header`].
    RxHeader {
        /// Offset of the first byte.
        ptr: u16,
    },
    /// Copy `len` bytes at `ptr` of the receive buffer to the front of the
    /// caller's buffer.
    RxData {
        /// Offset of the first byte.
        ptr: u16,
        /// Number of bytes.
        len: u16,
    },
    /// Write the receive read pointer.
    SetRxReadPointer(u16),
    /// Read the transmit free size register; answered by [`Reply::Word`].
    TxFreeSize,
    /// Read the transmit write pointer; answered by [`Reply::Word`].
    TxWritePointer,
    /// Copy the first `len` bytes of the caller's data to `ptr` of the
    /// transmit buffer.
    TxData {
        /// Offset of the first byte.
        ptr: u16,
        /// Number of bytes.
        len: u16,
    },
    /// Write the transmit write pointer.
    SetTxWritePointer(u16),
}

/// What came of a [`Request`].
#[derive(Debug, Clone, Copy, PartialEq, Eq)]
pub enum Reply {
    /// A write or a copy was carried out.
    Done,
    /// The 16-bit register that was read.
    Word(u16),
    /// The status register that was read; `Err` holds a value that is no
    /// known status.
    Status(Result<SocketStatus, u8>),
    /// The eight bytes that were read.
    Header([u8; 8]),
}

impl Request {
    /// Whether the access changes a register or a buffer of the chip.
    pub open spec fn writes(self) -> bool {
        match self {
            Request::Status
            | Request::RxReceivedSize
            | Request::RxReadPointer
            | Request::RxHeader { .. }
            | Request::RxData { .. }
            | Request::TxFreeSize
            | Request::TxWritePointer => false,
            _ => true,
        }
    }
}

impl Reply {
    /// Whether this is the kind of reply that `request` is answered by.
    pub open spec fn spec_answers(&self, request: &Request) -> bool {
        match *request {
            Request::Status => *self is Status,
            Request::RxHeader { .. } => *self is Header,
            Request::RxReceivedSize
            | Request::RxReadPointer
            | Request::TxFreeSize
            | Request::TxWritePointer => *self is Word,
            _ => *self is Done,
        }
    }

    /// Whether this is the kind of reply that `request` is answered by: a
    /// word for a 16-bit register that is read, the status for the status
    /// register, eight bytes for a header, and no value for a write, a
    /// command or a copy.
    #[verifier::when_used_as_spec(spec_answers)]
    pub fn answers(&self, request: &Request) -> (yes: bool)
        ensures
            yes == self.spec_answers(request),
    {
        match request {
            Request::Status => matches!(self, Reply::Status(_)),
            Request::RxHeader { .. } => matches!(self, Reply::Header(_)),
            Request::RxReceivedSize
            | Request::RxReadPointer
            | Request::TxFreeSize
            | Request::TxWritePointer => matches!(self, Reply::Word(_)),
            _ => matches!(self, Reply::Done),
        }
    }
}

/// The mode register of a socket that is to be opened for UDP, with every
/// option off.
pub const UDP_MODE: u8 = 0x02;

/// The mode register of a UDP socket:
/// `w5500_ll::SocketMode::DEFAULT.set_protocol(Protocol::Udp)` as a byte.
/// `DEFAULT` is zero, and `set_protocol` replaces the low four bits with the
/// protocol's number, which is `0b0010` for UDP.
#[verifier::external_body]
pub(crate) fn udp_mode() -> (mode: u8)
    ensures
        mode == UDP_MODE,
{
    u8::from(SocketMode::DEFAULT.set_protocol(Protocol::Udp))
}

} // verus!
