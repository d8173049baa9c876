use w5500_hl::{Ipv4Addr, SocketAddrV4, UdpHeader, UdpReader};
use w5500_ll::Sn;

#[test]
fn deser_reads_origin_and_length() {
    let header = UdpHeader::deser([203, 0, 113, 1, 0x23, 0x28, 0x00, 0x10]);
    assert_eq!(header.origin, SocketAddrV4::new(Ipv4Addr::new(203, 0, 113, 1), 9000));
    assert_eq!(header.len, 16);
}

#[test]
fn deser_reads_numbers_big_endian() {
    let header = UdpHeader::deser([0, 1, 2, 3, 0x12, 0x34, 0xAB, 0xCD]);
    assert_eq!(header.origin.ip, Ipv4Addr(0, 1, 2, 3));
    assert_eq!(header.origin.port, 0x1234);
    assert_eq!(header.len, 0xABCD);
    let header = UdpHeader::deser([0xFF; 8]);
    assert_eq!(header.origin, SocketAddrV4 { ip: Ipv4Addr(255, 255, 255, 255), port: 0xFFFF });
    assert_eq!(header.len, 0xFFFF);
    let header = UdpHeader::deser([0; 8]);
    assert_eq!(header, UdpHeader { origin: SocketAddrV4::new(Ipv4Addr::new(0, 0, 0, 0), 0), len: 0 });
}

#[test]
fn header_is_eight_bytes_long() {
    assert_eq!(UdpHeader::LEN, 8);
}

#[test]
fn address_octets_are_in_network_order() {
    assert_eq!(Ipv4Addr::new(203, 0, 113, 1).octets(), [203, 0, 113, 1]);
}

#[test]
fn headers_are_ordered_by_origin_then_length() {
    let a = UdpHeader { origin: SocketAddrV4::new(Ipv4Addr::new(10, 0, 0, 1), 9000), len: 5 };
    let b = UdpHeader { origin: SocketAddrV4::new(Ipv4Addr::new(10, 0, 0, 1), 9001), len: 0 };
    let c = UdpHeader { origin: SocketAddrV4::new(Ipv4Addr::new(10, 0, 0, 2), 1), len: 0 };
    assert!(a < b);
    assert!(b < c);
    assert!(a < UdpHeader { len: 6, ..a });
}

#[test]
fn reader_keeps_the_header_it_was_made_with() {
    let header = UdpHeader::deser([203, 0, 113, 1, 0x23, 0x28, 0x00, 0x10]);
    let mut reader = UdpReader::new(Sn::Sn7, 0x0008, 16, header);
    assert_eq!(reader.sn(), Sn::Sn7);
    assert_eq!(*reader.header(), header);
    assert_eq!(reader.stream_len(), 16);
    assert_eq!(reader.stream_position(), 0);
    assert_eq!(reader.remain(), 16);
    assert_eq!(reader.tail_ptr(), 0x0018);
    assert!(!reader.is_unread());
    reader.read(16);
    reader.unread();
    assert_eq!(*reader.header(), header);
    assert_eq!(reader.stream_len(), 16);
}

#[test]
fn reader_retract_keeps_the_header_and_the_flag() {
    let header = UdpHeader::deser([203, 0, 113, 1, 0x23, 0x28, 0x00, 0x10]);
    let mut reader = UdpReader::new(Sn::Sn7, 0x0008, 16, header);
    let (n, _) = reader.read(12);
    reader.unread();
    reader.retract(n);
    assert_eq!(reader.stream_position(), 0);
    assert!(reader.is_unread());
    assert_eq!(*reader.header(), header);
}
