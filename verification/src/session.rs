//! Session state and transport synthesis: turns one logical send/receive
//! event into the exact sequence of fully layered capture records.
//!
//! Everything here is pure: the records come back as byte buffers plus a
//! comment tag, and the contracts pin both down completely. Appending the
//! records to a capture container is the sink's business.

use vstd::arithmetic::div_mod::{lemma_mod_multiples_vanish, lemma_small_mod};
use vstd::prelude::*;

use crate::encode::{
    encode_tcp_segment, encode_udp_datagram, encode_ethernet_frame,
    encode_ipv4_packet, encode_ipv6_packet, ethernet_frame, ipv4_header, ipv6_header,
    tcp_segment, udp_datagram, ETHERTYPE_IPV4, ETHERTYPE_IPV6, FLAG_ACK, FLAG_PSH_ACK,
    FLAG_SYN, FLAG_SYN_ACK, IP_PROTO_TCP, IP_PROTO_UDP,
};
use crate::packet::{CaptureError, IpAddress, PacketDirection, PacketInfo, PacketProtocol};

verus! {

/// Largest payload one event may carry: the fixed frame budget minus the
/// worst-case Ethernet + IP + TCP header sizes.
pub const MAX_PAYLOAD_LEN: usize = 5012 - 14 - 40 - 20;

/// Largest frame the synthesizer ever produces.
pub const MAX_FRAME_LEN: usize = 5012;

/// Sequence number carried by the synthesized SYN.
pub const SEND_SEQ_BASE: u32 = 500;

/// Sequence number carried by the synthesized SYN-ACK.
pub const RECV_SEQ_BASE: u32 = 1000;

/// Send counter right after the handshake (`SEND_SEQ_BASE + 1`).
pub const SEND_SEQ_START: u32 = 501;

/// Receive counter right after the handshake (`RECV_SEQ_BASE + 1`).
pub const RECV_SEQ_START: u32 = 1001;

/// Why a record was synthesized; the sink turns this into a capture
/// comment so a reader can tell synthesized records from data.
#[derive(Clone, Copy, Debug, PartialEq, Eq, Structural)]
pub enum CommentTag {
    NoComment,
    Handshake,
    Ack,
}

/// One fully layered packet, ready to become a capture record.
#[derive(Clone, Debug)]
pub struct CaptureRecord {
    pub data: Vec<u8>,
    pub comment: CommentTag,
}

impl CaptureRecord {
    pub open spec fn model(self) -> (Seq<u8>, CommentTag) {
        (self.data@, self.comment)
    }
}

/// The models of a whole record list.
pub open spec fn recs_model(rs: Seq<CaptureRecord>) -> Seq<(Seq<u8>, CommentTag)> {
    rs.map_values(|r: CaptureRecord| r.model())
}

/// The comment text a capture reader sees for each tag.
pub open spec fn sink_comment(t: CommentTag) -> Option<Seq<char>> {
    match t {
        CommentTag::NoComment => Option::None,
        CommentTag::Handshake => Option::Some("Generated TCP handshake"@),
        CommentTag::Ack => Option::Some("Generated TCP ack"@),
    }
}

/// Unsigned 32-bit wraparound, TCP sequence-number arithmetic.
pub open spec fn wrap32(x: int) -> u32 {
    (x % 0x100000000) as u32
}

/// Mutable per-connection state: the two sequence counters, whether the
/// synthetic handshake was already emitted, and the stream counter that
/// tags packets of one logical flow.
#[derive(Clone, Copy, Debug, PartialEq, Eq, Structural)]
pub struct Session {
    pub send_seq: u32,
    pub recv_seq: u32,
    pub handshake_sent: bool,
    pub stream_count: u32,
}

/// The IP protocol number of a transport protocol.
pub open spec fn proto_number(p: PacketProtocol) -> u8 {
    match p {
        PacketProtocol::TCP => IP_PROTO_TCP,
        PacketProtocol::UDP => IP_PROTO_UDP,
    }
}

/// The full Ethernet frame around a transport segment travelling in
/// direction `dir`: source and destination are chosen by direction, the
/// stream counter lands in the IPv4 option or the IPv6 flow label.
pub open spec fn frame_bytes(
    info: PacketInfo,
    dir: PacketDirection,
    stream: u32,
    proto: PacketProtocol,
    transport: Seq<u8>,
) -> Seq<u8> {
    let src = info.src(dir).ip.bytes();
    let dst = info.dst(dir).ip.bytes();
    if info.is_v4() {
        ethernet_frame(
            ETHERTYPE_IPV4,
            ipv4_header(proto_number(proto), transport.len() as int, src, dst, (stream % 0x10000) as u16)
                + transport,
        )
    } else {
        ethernet_frame(
            ETHERTYPE_IPV6,
            ipv6_header(proto_number(proto), transport.len() as int, src, dst, stream) + transport,
        )
    }
}

/// Model of one synthesized TCP record.
pub open spec fn tcp_rec_model(
    info: PacketInfo,
    dir: PacketDirection,
    stream: u32,
    seq: u32,
    ack: u32,
    flags: u8,
    payload: Seq<u8>,
    tag: CommentTag,
) -> (Seq<u8>, CommentTag) {
    (
        frame_bytes(
            info,
            dir,
            stream,
            PacketProtocol::TCP,
            tcp_segment(info.src(dir).port, info.dst(dir).port, seq, ack, flags, payload),
        ),
        tag,
    )
}

/// Model of one synthesized UDP record.
pub open spec fn udp_rec_model(info: PacketInfo, stream: u32, payload: Seq<u8>) -> (Seq<u8>, CommentTag) {
    (
        frame_bytes(
            info,
            info.direction,
            stream,
            PacketProtocol::UDP,
            udp_datagram(info.src(info.direction).port, info.dst(info.direction).port, payload),
        ),
        CommentTag::NoComment,
    )
}

/// The three-way handshake synthesized once per TCP session: SYN from the
/// local side at the send base, SYN-ACK from the peer at the receive
/// base, and the final ACK.
pub open spec fn handshake_models(info: PacketInfo, stream: u32) -> Seq<(Seq<u8>, CommentTag)> {
    seq![
        tcp_rec_model(info, PacketDirection::Send, stream, SEND_SEQ_BASE, 0u32, FLAG_SYN, Seq::empty(), CommentTag::Handshake),
        tcp_rec_model(info, PacketDirection::Receive, stream, RECV_SEQ_BASE, SEND_SEQ_START, FLAG_SYN_ACK, Seq::empty(), CommentTag::Handshake),
        tcp_rec_model(info, PacketDirection::Send, stream, SEND_SEQ_START, RECV_SEQ_START, FLAG_ACK, Seq::empty(), CommentTag::Handshake),
    ]
}

/// The data record and its synthesized acknowledgement, given the two
/// counters as they stand when the data record is built.
pub open spec fn data_ack_models(
    info: PacketInfo,
    stream: u32,
    send0: u32,
    recv0: u32,
    payload: Seq<u8>,
) -> Seq<(Seq<u8>, CommentTag)> {
    match info.direction {
        PacketDirection::Send => seq![
            tcp_rec_model(info, info.direction, stream, send0, recv0, FLAG_PSH_ACK, payload, CommentTag::NoComment),
            tcp_rec_model(info, info.direction.flip(), stream, recv0, wrap32(send0 + payload.len()), FLAG_ACK, Seq::empty(), CommentTag::Ack),
        ],
        PacketDirection::Receive => seq![
            tcp_rec_model(info, info.direction, stream, recv0, send0, FLAG_PSH_ACK, payload, CommentTag::NoComment),
            tcp_rec_model(info, info.direction.flip(), stream, send0, wrap32(recv0 + payload.len()), FLAG_ACK, Seq::empty(), CommentTag::Ack),
        ],
    }
}

/// Every record one `write` call emits, in order.
pub open spec fn write_models(s: Session, info: PacketInfo, payload: Seq<u8>) -> Seq<(Seq<u8>, CommentTag)> {
    match info.protocol {
        PacketProtocol::UDP => seq![udp_rec_model(info, s.stream_count, payload)],
        PacketProtocol::TCP => {
            if s.handshake_sent {
                data_ack_models(info, s.stream_count, s.send_seq, s.recv_seq, payload)
            } else {
                handshake_models(info, s.stream_count)
                    + data_ack_models(info, s.stream_count, SEND_SEQ_START, RECV_SEQ_START, payload)
            }
        },
    }
}

/// The session state after one `write` call.
pub open spec fn write_post(s: Session, info: PacketInfo, payload: Seq<u8>) -> Session {
    match info.protocol {
        PacketProtocol::UDP => s,
        PacketProtocol::TCP => {
            let send0 = if s.handshake_sent { s.send_seq } else { SEND_SEQ_START };
            let recv0 = if s.handshake_sent { s.recv_seq } else { RECV_SEQ_START };
            match info.direction {
                PacketDirection::Send => Session {
                    send_seq: wrap32(send0 + payload.len()),
                    recv_seq: recv0,
                    handshake_sent: true,
                    stream_count: s.stream_count,
                },
                PacketDirection::Receive => Session {
                    send_seq: send0,
                    recv_seq: wrap32(recv0 + payload.len()),
                    handshake_sent: true,
                    stream_count: s.stream_count,
                },
            }
        },
    }
}

/// Every record one `new_connect` call emits: the handshake for a fresh
/// TCP session, nothing otherwise.
pub open spec fn connect_models(s: Session, info: PacketInfo) -> Seq<(Seq<u8>, CommentTag)> {
    match info.protocol {
        PacketProtocol::TCP => {
            if s.handshake_sent {
                Seq::empty()
            } else {
                handshake_models(info, s.stream_count)
            }
        },
        PacketProtocol::UDP => Seq::empty(),
    }
}

/// The session state after one `new_connect` call: the stream counter
/// always advances; a fresh TCP session also lands at the post-handshake
/// bases.
pub open spec fn connect_post(s: Session, info: PacketInfo) -> Session {
    let fresh_tcp = info.protocol == PacketProtocol::TCP && !s.handshake_sent;
    Session {
        send_seq: if fresh_tcp { SEND_SEQ_START } else { s.send_seq },
        recv_seq: if fresh_tcp { RECV_SEQ_START } else { s.recv_seq },
        handshake_sent: s.handshake_sent || info.protocol == PacketProtocol::TCP,
        stream_count: wrap32(s.stream_count + 1),
    }
}

/// Wrapping 32-bit addition, proved equal to `wrap32`.
pub fn wrap_add_u32(x: u32, n: u32) -> (r: u32)
    ensures
        r == wrap32(x + n),
{
    if n <= u32::MAX - x {
        proof {
            lemma_small_mod((x + n) as nat, 0x100000000nat);
        }
        x + n
    } else {
        let r = x - (u32::MAX - n) - 1;
        proof {
            lemma_mod_multiples_vanish(1, x + n - 0x100000000, 0x100000000);
            lemma_small_mod((x + n - 0x100000000) as nat, 0x100000000nat);
        }
        r
    }
}

/// The opposite direction.
pub fn flip_direction(d: PacketDirection) -> (r: PacketDirection)
    ensures
        r == d.flip(),
{
    match d {
        PacketDirection::Send => PacketDirection::Receive,
        PacketDirection::Receive => PacketDirection::Send,
    }
}

/// Layer a transport segment under IP and Ethernet for direction `dir`.
fn build_frame(
    info: &PacketInfo,
    dir: PacketDirection,
    stream: u32,
    proto: PacketProtocol,
    transport: &Vec<u8>,
) -> (v: Vec<u8>)
    requires
        info.wf(),
        transport@.len() + 24 <= 0xFFFF,
    ensures
        v@ == frame_bytes(*info, dir, stream, proto, transport@),
        v@.len() <= 54 + transport@.len(),
{
    let proto_n: u8 = match proto {
        PacketProtocol::TCP => IP_PROTO_TCP,
        PacketProtocol::UDP => IP_PROTO_UDP,
    };
    let (src_ep, dst_ep) = match dir {
        PacketDirection::Send => (&info.local_address, &info.remote_address),
        PacketDirection::Receive => (&info.remote_address, &info.local_address),
    };
    match (&src_ep.ip, &dst_ep.ip) {
        (IpAddress::V4(s), IpAddress::V4(d)) => {
            let ip = encode_ipv4_packet(proto_n, s, d, (stream % 0x10000) as u16, transport);
            encode_ethernet_frame(ETHERTYPE_IPV4, ip.as_slice())
        },
        (IpAddress::V6(s), IpAddress::V6(d)) => {
            let ip = encode_ipv6_packet(proto_n, s, d, stream, transport);
            encode_ethernet_frame(ETHERTYPE_IPV6, ip.as_slice())
        },
        (IpAddress::V4(_), IpAddress::V6(_)) => {
            proof {
                assert(false);
            }
            vstd::pervasive::unreached()
        },
        (IpAddress::V6(_), IpAddress::V4(_)) => {
            proof {
                assert(false);
            }
            vstd::pervasive::unreached()
        },
    }
}

/// Build one TCP record with the given counters and flags.
fn tcp_record(
    info: &PacketInfo,
    dir: PacketDirection,
    stream: u32,
    seq: u32,
    ack: u32,
    flags: u8,
    payload: &[u8],
    tag: CommentTag,
) -> (rec: CaptureRecord)
    requires
        info.wf(),
        payload@.len() + 44 <= 0xFFFF,
    ensures
        rec.model() == tcp_rec_model(*info, dir, stream, seq, ack, flags, payload@, tag),
        rec.data@.len() <= 74 + payload@.len(),
{
    let (sp, dp) = match dir {
        PacketDirection::Send => (info.local_address.port, info.remote_address.port),
        PacketDirection::Receive => (info.remote_address.port, info.local_address.port),
    };
    let seg = encode_tcp_segment(sp, dp, seq, ack, flags, payload);
    let data = build_frame(info, dir, stream, PacketProtocol::TCP, &seg);
    CaptureRecord { data, comment: tag }
}

/// Build the three handshake records for a fresh TCP session.
fn handshake_records(info: &PacketInfo, stream: u32) -> (recs: Vec<CaptureRecord>)
    requires
        info.wf(),
    ensures
        recs_model(recs@) == handshake_models(*info, stream),
        forall|i: int| 0 <= i < recs@.len() ==> recs@[i].data@.len() <= MAX_FRAME_LEN,
{
    let empty_payload: Vec<u8> = Vec::new();
    let mut recs: Vec<CaptureRecord> = Vec::new();
    let syn = tcp_record(
        info,
        PacketDirection::Send,
        stream,
        SEND_SEQ_BASE,
        0,
        FLAG_SYN,
        empty_payload.as_slice(),
        CommentTag::Handshake,
    );
    recs.push(syn);
    let syn_ack = tcp_record(
        info,
        PacketDirection::Receive,
        stream,
        RECV_SEQ_BASE,
        SEND_SEQ_START,
        FLAG_SYN_ACK,
        empty_payload.as_slice(),
        CommentTag::Handshake,
    );
    recs.push(syn_ack);
    let ack = tcp_record(
        info,
        PacketDirection::Send,
        stream,
        SEND_SEQ_START,
        RECV_SEQ_START,
        FLAG_ACK,
        empty_payload.as_slice(),
        CommentTag::Handshake,
    );
    recs.push(ack);
    proof {
        assert(recs_model(recs@) =~= handshake_models(*info, stream));
    }
    recs
}

impl Session {
    /// A fresh session: zero counters, no handshake yet.
    pub fn new() -> (s: Session)
        ensures
            s == (Session { send_seq: 0, recv_seq: 0, handshake_sent: false, stream_count: 0 }),
    {
        Session { send_seq: 0, recv_seq: 0, handshake_sent: false, stream_count: 0 }
    }

    /// Synthesize the records for one send/receive event.
    ///
    /// For TCP this lazily emits the three-way handshake first, then the
    /// data segment and its synthesized peer acknowledgement, advancing
    /// the sender's counter by the payload length (mod 2^32). For UDP it
    /// emits exactly one datagram and touches no state.
    pub fn write_records(&mut self, info: &PacketInfo, payload: &[u8]) -> (r: Result<
        Vec<CaptureRecord>,
        CaptureError,
    >)
        requires
            info.wf(),
        ensures
            payload@.len() > MAX_PAYLOAD_LEN ==> r == Err::<Vec<CaptureRecord>, CaptureError>(
                CaptureError::PayloadTooLarge,
            ) && *final(self) == *old(self),
            payload@.len() <= MAX_PAYLOAD_LEN ==> ({
                &&& r matches Ok(recs)
                &&& recs@.len() == write_models(*old(self), *info, payload@).len()
                &&& recs_model(recs@) == write_models(*old(self), *info, payload@)
                &&& *final(self) == write_post(*old(self), *info, payload@)
                &&& forall|i: int| 0 <= i < recs@.len() ==> recs@[i].data@.len() <= MAX_FRAME_LEN
            }),
    {
        if payload.len() > MAX_PAYLOAD_LEN {
            return Err(CaptureError::PayloadTooLarge);
        }
        match info.protocol {
            PacketProtocol::UDP => {
                let (sp, dp) = match info.direction {
                    PacketDirection::Send => (info.local_address.port, info.remote_address.port),
                    PacketDirection::Receive => (info.remote_address.port, info.local_address.port),
                };
                let seg = encode_udp_datagram(sp, dp, payload);
                let frame = build_frame(info, info.direction, self.stream_count, PacketProtocol::UDP, &seg);
                let mut recs: Vec<CaptureRecord> = Vec::new();
                recs.push(CaptureRecord { data: frame, comment: CommentTag::NoComment });
                proof {
                    assert(recs_model(recs@) =~= write_models(*old(self), *info, payload@));
                }
                Ok(recs)
            },
            PacketProtocol::TCP => {
                let empty_payload: Vec<u8> = Vec::new();
                let mut recs: Vec<CaptureRecord>;
                if !self.handshake_sent {
                    recs = handshake_records(info, self.stream_count);
                    self.send_seq = SEND_SEQ_START;
                    self.recv_seq = RECV_SEQ_START;
                    self.handshake_sent = true;
                } else {
                    recs = Vec::new();
                }
                let (seq, ack) = match info.direction {
                    PacketDirection::Send => (self.send_seq, self.recv_seq),
                    PacketDirection::Receive => (self.recv_seq, self.send_seq),
                };
                let data_rec = tcp_record(
                    info,
                    info.direction,
                    self.stream_count,
                    seq,
                    ack,
                    FLAG_PSH_ACK,
                    payload,
                    CommentTag::NoComment,
                );
                recs.push(data_rec);
                let n: u32 = payload.len() as u32;
                match info.direction {
                    PacketDirection::Send => {
                        self.send_seq = wrap_add_u32(self.send_seq, n);
                    },
                    PacketDirection::Receive => {
                        self.recv_seq = wrap_add_u32(self.recv_seq, n);
                    },
                }
                let (ack_seq, ack_ack) = match info.direction {
                    PacketDirection::Send => (self.recv_seq, self.send_seq),
                    PacketDirection::Receive => (self.send_seq, self.recv_seq),
                };
                let ack_rec = tcp_record(
                    info,
                    flip_direction(info.direction),
                    self.stream_count,
                    ack_seq,
                    ack_ack,
                    FLAG_ACK,
                    empty_payload.as_slice(),
                    CommentTag::Ack,
                );
                recs.push(ack_rec);
                proof {
                    assert(recs_model(recs@) =~= write_models(*old(self), *info, payload@));
                }
                Ok(recs)
            },
        }
    }

    /// Mark the start of a new logical connection.
    ///
    /// A fresh TCP session gets its handshake synthesized here (a second
    /// call has no effect on the counters); UDP emits nothing. The stream
    /// counter always advances by one, wrapping.
    pub fn connect_records(&mut self, info: &PacketInfo) -> (recs: Vec<CaptureRecord>)
        requires
            info.wf(),
        ensures
            recs@.len() == connect_models(*old(self), *info).len(),
            recs_model(recs@) == connect_models(*old(self), *info),
            *final(self) == connect_post(*old(self), *info),
            forall|i: int| 0 <= i < recs@.len() ==> recs@[i].data@.len() <= MAX_FRAME_LEN,
    {
        let mut recs: Vec<CaptureRecord>;
        match info.protocol {
            PacketProtocol::TCP => {
                if !self.handshake_sent {
                    recs = handshake_records(info, self.stream_count);
                    self.send_seq = SEND_SEQ_START;
                    self.recv_seq = RECV_SEQ_START;
                    self.handshake_sent = true;
                } else {
                    recs = Vec::new();
                    proof {
                        assert(recs_model(recs@) =~= connect_models(*old(self), *info));
                    }
                }
            },
            PacketProtocol::UDP => {
                recs = Vec::new();
                proof {
                    assert(recs_model(recs@) =~= connect_models(*old(self), *info));
                }
            },
        }
        self.stream_count = wrap_add_u32(self.stream_count, 1);
        recs
    }
}

} // verus!
