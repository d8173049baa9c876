//! Socket layer for the W5500 internet offload chip: the decisions of a UDP
//! driver, kept apart from the register transport that carries them out.
//!
//! The chip does TCP/IP in hardware. It keeps the receive and the transmit
//! memory of each socket as a ring buffer, and lets the host reach it only
//! through registers: a pointer, a size, and a window into the buffer. This
//! crate turns that into sockets: bind, send, receive and peek, and reader
//! and writer scopes that stream a datagram piece by piece.
//!
//! Nothing here touches the chip. Every operation is a conversation with the
//! registers of one socket, and the library holds up its end of it:
//!
//! * [`Udp::udp_bind`], [`Udp::udp_recv_from`] and the others begin an
//!   operation and hand back a [`Step`];
//! * while the step is [`Step::Ask`], the operation waits for one register
//!   access, its [`Udp::request`]: the caller carries that [`Request`] out on
//!   the chip and hands what the chip answered to [`Udp::step`] as a
//!   [`Reply`];
//! * any other step is the end of the operation.
//!
//! A caller that drives the chip through `w5500_ll::Registers` needs a loop
//! of a few lines for this, and stops it at the first access that the
//! transport fails.
//!
//! A reader or a writer scope ([`UdpReader`], [`Writer`]) is a cursor over a
//! snapshot of the socket buffer. It moves only itself, and tells the caller
//! which bytes of the buffer to copy. The chip learns of it when the scope
//! is left, all at once: [`Udp::udp_reader_exit`] and
//! [`Udp::udp_writer_exit`] commit the scope unless it was marked
//! [`UdpReader::unread`] or [`Writer::abort`]ed.

pub mod cursor;
pub mod datagram;
pub mod error;
pub mod laws;
pub mod net;
pub mod registers;
pub mod stream;
pub mod udp;

pub use cursor::{BufferCursor, CursorView, SeekFrom};
pub use datagram::{UdpHeader, UdpReader, UdpReaderView};
pub use error::Error;
pub use net::{Ipv4Addr, SocketAddrV4};
pub use registers::{Reply, Request, SocketCommand, SocketStatus, UDP_MODE};
pub use stream::{ReaderView, TcpReader, Writer, WriterView};
pub use udp::{leave, port_is_unique, Access, Outcome, State, Step, StepView, Udp};
