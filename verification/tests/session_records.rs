//! Scenario tests for the record synthesizer, decoding the emitted
//! frames with a standard protocol parser.

use pnet_packet::ethernet::{EtherTypes, EthernetPacket};
use pnet_packet::ipv4::Ipv4Packet;
use pnet_packet::tcp::{TcpFlags, TcpPacket};
use pnet_packet::Packet;

use synthcap::packet::{Endpoint, IpAddress, PacketDirection, PacketInfo, PacketProtocol};
use synthcap::session::{CommentTag, Session};

fn tcp_info_v4() -> PacketInfo {
    PacketInfo {
        direction: PacketDirection::Send,
        protocol: PacketProtocol::TCP,
        remote_address: Endpoint { ip: IpAddress::V4(vec![10, 0, 0, 1]), port: 27015 },
        local_address: Endpoint { ip: IpAddress::V4(vec![10, 0, 0, 5]), port: 51000 },
    }
}

fn parse_tcp_v4(frame: &[u8]) -> (u16, u16, u32, u32, u8, Vec<u8>) {
    let eth = EthernetPacket::new(frame).unwrap();
    assert_eq!(eth.get_ethertype(), EtherTypes::Ipv4);
    let ip = Ipv4Packet::new(eth.payload()).unwrap();
    let tcp = TcpPacket::new(ip.payload()).unwrap();
    (
        tcp.get_source(),
        tcp.get_destination(),
        tcp.get_sequence(),
        tcp.get_acknowledgement(),
        tcp.get_flags(),
        tcp.payload().to_vec(),
    )
}

#[test]
fn first_tcp_write_emits_five_records() {
    let info = tcp_info_v4();
    let mut session = Session::new();
    let recs = session.write_records(&info, &[0x00, 0x01]).unwrap();
    assert_eq!(recs.len(), 5);
    assert_eq!(recs[0].comment, CommentTag::Handshake);
    assert_eq!(recs[1].comment, CommentTag::Handshake);
    assert_eq!(recs[2].comment, CommentTag::Handshake);
    assert_eq!(recs[3].comment, CommentTag::NoComment);
    assert_eq!(recs[4].comment, CommentTag::Ack);
}

#[test]
fn tcp_scenario_sequence_numbers() {
    let info = tcp_info_v4();
    let mut session = Session::new();
    let recs = session.write_records(&info, &[0x00, 0x01]).unwrap();

    // SYN
    let (sp, dp, seq, _ack, flags, payload) = parse_tcp_v4(&recs[0].data);
    assert_eq!((sp, dp), (51000, 27015));
    assert_eq!(seq, 500);
    assert_eq!(flags, TcpFlags::SYN);
    assert!(payload.is_empty());

    // SYN-ACK
    let (sp, dp, seq, ack, flags, _) = parse_tcp_v4(&recs[1].data);
    assert_eq!((sp, dp), (27015, 51000));
    assert_eq!(seq, 1000);
    assert_eq!(ack, 501);
    assert_eq!(flags, TcpFlags::SYN | TcpFlags::ACK);

    // ACK
    let (sp, dp, seq, ack, flags, _) = parse_tcp_v4(&recs[2].data);
    assert_eq!((sp, dp), (51000, 27015));
    assert_eq!(seq, 501);
    assert_eq!(ack, 1001);
    assert_eq!(flags, TcpFlags::ACK);

    // DATA
    let (sp, dp, seq, ack, flags, payload) = parse_tcp_v4(&recs[3].data);
    assert_eq!((sp, dp), (51000, 27015));
    assert_eq!(seq, 501);
    assert_eq!(ack, 1001);
    assert_eq!(flags, TcpFlags::PSH | TcpFlags::ACK);
    assert_eq!(payload, vec![0x00, 0x01]);

    // Synthesized peer ACK
    let (sp, dp, seq, ack, flags, payload) = parse_tcp_v4(&recs[4].data);
    assert_eq!((sp, dp), (27015, 51000));
    assert_eq!(seq, 1001);
    assert_eq!(ack, 503);
    assert_eq!(flags, TcpFlags::ACK);
    assert!(payload.is_empty());

    assert_eq!(session.send_seq, 503);
    assert_eq!(session.recv_seq, 1001);
}

#[test]
fn send_runs_advance_send_seq_only() {
    let info = tcp_info_v4();
    let mut session = Session::new();
    session.write_records(&info, &[0x00, 0x01]).unwrap();
    session.write_records(&info, &[1, 2, 3]).unwrap();
    let recs = session.write_records(&info, &[4, 5, 6, 7]).unwrap();
    // Handshake done: later writes emit only data + ack.
    assert_eq!(recs.len(), 2);
    assert_eq!(session.send_seq, 501 + 2 + 3 + 4);
    assert_eq!(session.recv_seq, 1001);
}

#[test]
fn receive_write_advances_recv_seq() {
    let mut info = tcp_info_v4();
    info.direction = PacketDirection::Receive;
    let mut session = Session::new();
    let recs = session.write_records(&info, &[9, 9, 9]).unwrap();
    assert_eq!(recs.len(), 5);
    // Data comes from the remote side.
    let (sp, dp, seq, ack, _flags, payload) = parse_tcp_v4(&recs[3].data);
    assert_eq!((sp, dp), (27015, 51000));
    assert_eq!(seq, 1001);
    assert_eq!(ack, 501);
    assert_eq!(payload, vec![9, 9, 9]);
    // The synthesized ack flows back out.
    let (sp, dp, seq, ack, _flags, _) = parse_tcp_v4(&recs[4].data);
    assert_eq!((sp, dp), (51000, 27015));
    assert_eq!(seq, 501);
    assert_eq!(ack, 1004);
    assert_eq!(session.send_seq, 501);
    assert_eq!(session.recv_seq, 1004);
}

#[test]
fn udp_connect_increments_stream_and_emits_nothing() {
    let mut info = tcp_info_v4();
    info.protocol = PacketProtocol::UDP;
    let mut first = Session::new();
    let mut second = Session::new();
    assert!(first.connect_records(&info).is_empty());
    assert!(second.connect_records(&info).is_empty());
    assert_eq!(first.stream_count, 1);
    assert_eq!(second.stream_count, 1);
    assert!(first.connect_records(&info).is_empty());
    assert_eq!(first.stream_count, 2);
    assert_eq!(first.send_seq, 0);
    assert_eq!(first.handshake_sent, false);
}

#[test]
fn tcp_connect_emits_handshake_once() {
    let info = tcp_info_v4();
    let mut session = Session::new();
    let recs = session.connect_records(&info);
    assert_eq!(recs.len(), 3);
    assert_eq!(session.stream_count, 1);
    assert_eq!(session.send_seq, 501);
    assert_eq!(session.recv_seq, 1001);
    // A second connect is idempotent for the handshake.
    let recs = session.connect_records(&info);
    assert!(recs.is_empty());
    assert_eq!(session.stream_count, 2);
    // The first write after an explicit connect emits only data + ack.
    let recs = session.write_records(&info, &[1]).unwrap();
    assert_eq!(recs.len(), 2);
    assert_eq!(session.send_seq, 502);
}
