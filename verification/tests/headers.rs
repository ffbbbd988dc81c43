//! Header-level tests: checksum and length validation, round-trip
//! decoding of every family/transport combination, and error cases.

use pnet_packet::ethernet::{EtherTypes, EthernetPacket};
use pnet_packet::ipv4::Ipv4Packet;
use pnet_packet::ipv6::Ipv6Packet;
use pnet_packet::tcp::TcpPacket;
use pnet_packet::udp::UdpPacket;
use pnet_packet::Packet;

use synthcap::packet::{CaptureError, Endpoint, IpAddress, PacketDirection, PacketInfo, PacketProtocol};
use synthcap::session::{Session, MAX_PAYLOAD_LEN};

fn info_v4(protocol: PacketProtocol) -> PacketInfo {
    PacketInfo {
        direction: PacketDirection::Send,
        protocol,
        remote_address: Endpoint { ip: IpAddress::V4(vec![192, 168, 1, 7]), port: 2456 },
        local_address: Endpoint { ip: IpAddress::V4(vec![10, 20, 30, 40]), port: 60000 },
    }
}

fn info_v6(protocol: PacketProtocol) -> PacketInfo {
    let local = vec![0x20, 0x01, 0x0d, 0xb8, 0, 0, 0, 0, 0, 0, 0, 0, 0, 0, 0, 0x05];
    let remote = vec![0x20, 0x01, 0x0d, 0xb8, 0, 0, 0, 0, 0, 0, 0, 0, 0, 0, 0, 0x01];
    PacketInfo {
        direction: PacketDirection::Send,
        protocol,
        remote_address: Endpoint { ip: IpAddress::V6(remote), port: 2456 },
        local_address: Endpoint { ip: IpAddress::V6(local), port: 60000 },
    }
}

#[test]
fn ipv4_total_length_and_checksum_validate() {
    let info = info_v4(PacketProtocol::UDP);
    let mut session = Session::new();
    let recs = session.write_records(&info, &[1, 2, 3, 4, 5]).unwrap();
    assert_eq!(recs.len(), 1);
    let eth = EthernetPacket::new(&recs[0].data).unwrap();
    let ip = Ipv4Packet::new(eth.payload()).unwrap();
    // 20 header bytes + 4 option bytes + transport payload.
    assert_eq!(ip.get_total_length(), 24 + 8 + 5);
    assert_eq!(ip.get_header_length(), 6);
    assert_eq!(ip.get_version(), 4);
    assert_eq!(ip.get_ttl(), 64);
    // Recomputing the checksum over the emitted header reproduces the
    // stored checksum, i.e. the header validates.
    assert_eq!(pnet_packet::ipv4::checksum(&ip), ip.get_checksum());
    assert_ne!(ip.get_checksum(), 0);
}

#[test]
fn ipv4_option_carries_stream_id() {
    let info = info_v4(PacketProtocol::UDP);
    let mut session = Session::new();
    session.connect_records(&info);
    let recs = session.write_records(&info, &[0]).unwrap();
    let frame = &recs[0].data;
    // Option bytes sit right after the fixed 20 header bytes.
    assert_eq!(&frame[34..38], &[0x88, 0x04, 0x00, 0x01]);
}

#[test]
fn round_trip_ipv4_tcp() {
    let info = info_v4(PacketProtocol::TCP);
    let mut session = Session::new();
    let recs = session.write_records(&info, &[7, 8, 9]).unwrap();
    let eth = EthernetPacket::new(&recs[3].data).unwrap();
    assert_eq!(eth.get_ethertype(), EtherTypes::Ipv4);
    let ip = Ipv4Packet::new(eth.payload()).unwrap();
    assert_eq!(ip.get_source().octets(), [10, 20, 30, 40]);
    assert_eq!(ip.get_destination().octets(), [192, 168, 1, 7]);
    assert_eq!(ip.get_next_level_protocol().0, 6);
    let tcp = TcpPacket::new(ip.payload()).unwrap();
    assert_eq!(tcp.get_source(), 60000);
    assert_eq!(tcp.get_destination(), 2456);
    assert_eq!(tcp.get_data_offset(), 5);
    assert_eq!(tcp.get_window(), 43440);
    assert_eq!(tcp.payload(), &[7, 8, 9]);
}

#[test]
fn round_trip_ipv4_udp() {
    let info = info_v4(PacketProtocol::UDP);
    let mut session = Session::new();
    let recs = session.write_records(&info, &[42; 10]).unwrap();
    assert_eq!(recs.len(), 1);
    let eth = EthernetPacket::new(&recs[0].data).unwrap();
    let ip = Ipv4Packet::new(eth.payload()).unwrap();
    assert_eq!(ip.get_next_level_protocol().0, 17);
    let udp = UdpPacket::new(ip.payload()).unwrap();
    assert_eq!(udp.get_source(), 60000);
    assert_eq!(udp.get_destination(), 2456);
    // The length field counts the payload plus a 4-byte allowance.
    assert_eq!(udp.get_length(), 10 + 4);
    assert_eq!(udp.payload(), &[42; 10]);
}

#[test]
fn round_trip_ipv6_tcp() {
    let info = info_v6(PacketProtocol::TCP);
    let mut session = Session::new();
    let recs = session.write_records(&info, &[5, 6]).unwrap();
    assert_eq!(recs.len(), 5);
    let eth = EthernetPacket::new(&recs[3].data).unwrap();
    assert_eq!(eth.get_ethertype(), EtherTypes::Ipv6);
    let ip = Ipv6Packet::new(eth.payload()).unwrap();
    assert_eq!(ip.get_version(), 6);
    assert_eq!(ip.get_hop_limit(), 64);
    assert_eq!(ip.get_next_header().0, 6);
    assert_eq!(
        ip.get_source().octets(),
        [0x20, 0x01, 0x0d, 0xb8, 0, 0, 0, 0, 0, 0, 0, 0, 0, 0, 0, 0x05]
    );
    assert_eq!(
        ip.get_destination().octets(),
        [0x20, 0x01, 0x0d, 0xb8, 0, 0, 0, 0, 0, 0, 0, 0, 0, 0, 0, 0x01]
    );
    assert_eq!(ip.get_payload_length(), 20 + 2);
    let tcp = TcpPacket::new(ip.payload()).unwrap();
    assert_eq!(tcp.get_source(), 60000);
    assert_eq!(tcp.get_destination(), 2456);
    assert_eq!(tcp.get_sequence(), 501);
    assert_eq!(tcp.payload(), &[5, 6]);
}

#[test]
fn round_trip_ipv6_udp() {
    let info = info_v6(PacketProtocol::UDP);
    let mut session = Session::new();
    session.connect_records(&info);
    let recs = session.write_records(&info, &[1, 1, 2, 3]).unwrap();
    assert_eq!(recs.len(), 1);
    let eth = EthernetPacket::new(&recs[0].data).unwrap();
    let ip = Ipv6Packet::new(eth.payload()).unwrap();
    assert_eq!(ip.get_next_header().0, 17);
    // The stream counter lands in the flow label.
    assert_eq!(ip.get_flow_label(), 1);
    let udp = UdpPacket::new(ip.payload()).unwrap();
    assert_eq!(udp.get_length(), 4 + 4);
    assert_eq!(udp.payload(), &[1, 1, 2, 3]);
}

#[test]
fn oversized_payload_is_refused() {
    let info = info_v4(PacketProtocol::TCP);
    let mut session = Session::new();
    let payload = vec![0u8; MAX_PAYLOAD_LEN + 1];
    assert!(matches!(
        session.write_records(&info, &payload),
        Err(CaptureError::PayloadTooLarge)
    ));
    // Nothing changed: the next write still emits the handshake.
    assert_eq!(session.handshake_sent, false);
    let payload = vec![0u8; MAX_PAYLOAD_LEN];
    let recs = session.write_records(&info, &payload).unwrap();
    assert_eq!(recs.len(), 5);
}

#[test]
fn stream_id_truncates_into_option_and_flow_label() {
    // The IPv4 option carries only the low 16 bits of the stream
    // counter; the IPv6 flow label carries the low 20 bits.
    let info = info_v4(PacketProtocol::UDP);
    let mut session = Session::new();
    session.stream_count = 0x0012_3456;
    let recs = session.write_records(&info, &[0]).unwrap();
    assert_eq!(&recs[0].data[34..38], &[0x88, 0x04, 0x34, 0x56]);

    let info = info_v6(PacketProtocol::UDP);
    let mut session = Session::new();
    session.stream_count = 0x0012_3456;
    let recs = session.write_records(&info, &[0]).unwrap();
    let eth = EthernetPacket::new(&recs[0].data).unwrap();
    let ip = Ipv6Packet::new(eth.payload()).unwrap();
    assert_eq!(ip.get_flow_label(), 0x0002_3456);
}
