//! End-to-end tests: events written through the capture writers come
//! back out of the pcapng stream as the expected records, readable by a
//! standard pcapng reader.

use pcap_file::pcapng::blocks::enhanced_packet::EnhancedPacketOption;
use pcap_file::pcapng::blocks::Block;
use pcap_file::pcapng::PcapNgReader;
use pcap_file::DataLink;

use synthcap::packet::{CaptureError, Endpoint, IpAddress, PacketDirection, PacketInfo, PacketProtocol};
use synthcap::sink::{CaptureWriter, NullWriter, PcapWriter};

fn tcp_info() -> PacketInfo {
    PacketInfo {
        direction: PacketDirection::Send,
        protocol: PacketProtocol::TCP,
        remote_address: Endpoint { ip: IpAddress::V4(vec![10, 0, 0, 1]), port: 27015 },
        local_address: Endpoint { ip: IpAddress::V4(vec![10, 0, 0, 5]), port: 51000 },
    }
}

fn read_blocks(bytes: &[u8]) -> (Vec<(Vec<u8>, Option<String>)>, usize) {
    let mut reader = PcapNgReader::new(bytes).unwrap();
    let mut packets: Vec<(Vec<u8>, Option<String>)> = Vec::new();
    let mut interfaces: usize = 0;
    while let Some(block) = reader.next_block() {
        match block.unwrap() {
            Block::InterfaceDescription(idb) => {
                assert_eq!(idb.linktype, DataLink::ETHERNET);
                assert_eq!(idb.snaplen, 0xFFFF);
                interfaces += 1;
            }
            Block::EnhancedPacket(epb) => {
                assert_eq!(epb.original_len as usize, epb.data.len());
                assert_eq!(epb.interface_id, 0);
                let comment = epb.options.iter().find_map(|o| match o {
                    EnhancedPacketOption::Comment(c) => Some(c.to_string()),
                    _ => None,
                });
                packets.push((epb.data.to_vec(), comment));
            }
            Block::SectionHeader(_) => {}
            _ => panic!("unexpected block kind"),
        }
    }
    (packets, interfaces)
}

#[test]
fn tcp_write_lands_in_pcapng_stream() {
    let mut writer = PcapWriter::new().unwrap();
    let info = tcp_info();
    writer.write(&info, &[0x00, 0x01]).unwrap();
    let bytes = writer.take_bytes();
    let (packets, interfaces) = read_blocks(&bytes);
    assert_eq!(interfaces, 1);
    assert_eq!(packets.len(), 5);
    for i in 0..3 {
        assert_eq!(packets[i].1.as_deref(), Some("Generated TCP handshake"));
    }
    assert_eq!(packets[3].1, None);
    assert_eq!(packets[4].1.as_deref(), Some("Generated TCP ack"));
    // The data frame ends with the payload that was written.
    assert!(packets[3].0.ends_with(&[0x00, 0x01]));
    assert_eq!(writer.session_state().send_seq, 503);
    assert_eq!(writer.session_state().recv_seq, 1001);
}

#[test]
fn take_bytes_drains_incrementally() {
    let mut writer = PcapWriter::new().unwrap();
    let info = tcp_info();
    writer.write(&info, &[1]).unwrap();
    let first = writer.take_bytes();
    assert!(writer.take_bytes().is_empty());
    writer.write(&info, &[2]).unwrap();
    let second = writer.take_bytes();
    assert!(!second.is_empty());
    let mut whole = first;
    whole.extend_from_slice(&second);
    let (packets, interfaces) = read_blocks(&whole);
    assert_eq!(interfaces, 1);
    // 5 records for the first write, 2 for the second.
    assert_eq!(packets.len(), 7);
}

#[test]
fn udp_write_emits_one_uncommented_record() {
    let mut writer = PcapWriter::new().unwrap();
    let mut info = tcp_info();
    info.protocol = PacketProtocol::UDP;
    writer.new_connect(&info).unwrap();
    writer.write(&info, &[9, 8, 7]).unwrap();
    let bytes = writer.take_bytes();
    let (packets, _) = read_blocks(&bytes);
    assert_eq!(packets.len(), 1);
    assert_eq!(packets[0].1, None);
    assert!(packets[0].0.ends_with(&[9, 8, 7]));
    assert_eq!(writer.session_state().stream_count, 1);
}

#[test]
fn mixed_families_are_refused() {
    let mut writer = PcapWriter::new().unwrap();
    let mut info = tcp_info();
    info.remote_address.ip = IpAddress::V6(vec![0; 16]);
    assert!(matches!(writer.write(&info, &[0]), Err(CaptureError::InvalidEndpoints)));
    assert!(matches!(writer.new_connect(&info), Err(CaptureError::InvalidEndpoints)));
}

#[test]
fn null_writer_accepts_everything() {
    let mut writer = NullWriter;
    let info = tcp_info();
    assert!(writer.write(&info, &[1, 2, 3]).is_ok());
    assert!(writer.new_connect(&info).is_ok());
}
