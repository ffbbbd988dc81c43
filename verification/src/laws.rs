//! General properties of the synthesizer, each stated over the record
//! models and proved once and for all: record counts and shapes per
//! event, sequence-number bookkeeping across runs of writes, the
//! data/ack pairing, and that a standard decoder reading the emitted
//! bytes at the standard offsets recovers the fields they were built
//! from.

use vstd::arithmetic::div_mod::{lemma_add_mod_noop, lemma_add_mod_noop_right, lemma_small_mod};
use vstd::prelude::*;

use crate::encode::{
    be16, be32, ipv4_checksum_valid, ipv4_header, ipv6_header, lemma_be16_recompose,
    lemma_be32_recompose, lemma_ipv4_header_valid, tcp_segment, udp_datagram,
};
use crate::packet::{PacketDirection, PacketInfo, PacketProtocol};
use crate::session::{
    connect_models, connect_post, data_ack_models, frame_bytes, handshake_models, wrap32, write_models, write_post, CommentTag, Session, MAX_PAYLOAD_LEN, RECV_SEQ_START,
    SEND_SEQ_START,
};

verus! {

/// Where the transport header starts inside a frame: Ethernet plus the
/// IP header of the session's family.
pub open spec fn transport_offset(info: PacketInfo) -> int {
    if info.is_v4() {
        38
    } else {
        54
    }
}

/// A 16-bit big-endian field read at byte offset `i` of a frame.
pub open spec fn be16_at(f: Seq<u8>, i: int) -> int {
    f[i] * 0x100 + f[i + 1]
}

/// A 32-bit big-endian field read at byte offset `i` of a frame.
pub open spec fn be32_at(f: Seq<u8>, i: int) -> int {
    f[i] * 0x1000000 + f[i + 1] * 0x10000 + f[i + 2] * 0x100 + f[i + 3]
}

/// The sequence-number field of a frame's TCP header.
pub open spec fn tcp_seq_field(info: PacketInfo, f: Seq<u8>) -> int {
    be32_at(f, transport_offset(info) + 4)
}

/// The acknowledgement field of a frame's TCP header.
pub open spec fn tcp_ack_field(info: PacketInfo, f: Seq<u8>) -> int {
    be32_at(f, transport_offset(info) + 8)
}

/// The bytes after a frame's TCP header.
pub open spec fn tcp_payload_field(info: PacketInfo, f: Seq<u8>) -> Seq<u8> {
    f.subrange(transport_offset(info) + 20, f.len() as int)
}

/// The bytes after a frame's UDP header.
pub open spec fn udp_payload_field(info: PacketInfo, f: Seq<u8>) -> Seq<u8> {
    f.subrange(transport_offset(info) + 8, f.len() as int)
}

/// A standard decoder recovers, from a synthesized TCP frame, exactly
/// the ports, counters, flags and payload it was built from.
pub proof fn lemma_tcp_frame_fields(
    info: PacketInfo,
    dir: PacketDirection,
    stream: u32,
    seq: u32,
    ack: u32,
    flags: u8,
    payload: Seq<u8>,
)
    requires
        info.wf(),
        payload.len() + 44 <= 0xFFFF,
    ensures
        ({
            let f = frame_bytes(
                info,
                dir,
                stream,
                PacketProtocol::TCP,
                tcp_segment(info.src(dir).port, info.dst(dir).port, seq, ack, flags, payload),
            );
            let off = transport_offset(info);
            &&& f.len() == off + 20 + payload.len()
            &&& be16_at(f, off) == info.src(dir).port
            &&& be16_at(f, off + 2) == info.dst(dir).port
            &&& tcp_seq_field(info, f) == seq
            &&& tcp_ack_field(info, f) == ack
            &&& f[off + 13] == flags
            &&& tcp_payload_field(info, f) == payload
        }),
{
    let sp = info.src(dir).port;
    let dp = info.dst(dir).port;
    let seg = tcp_segment(sp, dp, seq, ack, flags, payload);
    let f = frame_bytes(info, dir, stream, PacketProtocol::TCP, seg);
    let off = transport_offset(info);
    assert(seg.len() == 20 + payload.len());
    lemma_be16_recompose(sp);
    lemma_be16_recompose(dp);
    lemma_be32_recompose(seq);
    lemma_be32_recompose(ack);
    assert forall|j: int| 0 <= j < seg.len() implies f[off + j] == seg[j] by {}
    assert(seg[4] == be32(seq)[0]);
    assert(seg[5] == be32(seq)[1]);
    assert(seg[6] == be32(seq)[2]);
    assert(seg[7] == be32(seq)[3]);
    assert(seg[8] == be32(ack)[0]);
    assert(seg[9] == be32(ack)[1]);
    assert(seg[10] == be32(ack)[2]);
    assert(seg[11] == be32(ack)[3]);
    assert(tcp_payload_field(info, f) =~= payload);
}

/// A standard decoder recovers, from a synthesized UDP frame, exactly
/// the ports, the length field and the payload it was built from.
pub proof fn lemma_udp_frame_fields(info: PacketInfo, stream: u32, payload: Seq<u8>)
    requires
        info.wf(),
        payload.len() + 24 <= 0xFFFF,
    ensures
        ({
            let f = frame_bytes(
                info,
                info.direction,
                stream,
                PacketProtocol::UDP,
                udp_datagram(
                    info.src(info.direction).port,
                    info.dst(info.direction).port,
                    payload,
                ),
            );
            let off = transport_offset(info);
            &&& f.len() == off + 8 + payload.len()
            &&& be16_at(f, off) == info.src(info.direction).port
            &&& be16_at(f, off + 2) == info.dst(info.direction).port
            &&& be16_at(f, off + 4) == payload.len() + 4
            &&& udp_payload_field(info, f) == payload
        }),
{
    let dir = info.direction;
    let sp = info.src(dir).port;
    let dp = info.dst(dir).port;
    let seg = udp_datagram(sp, dp, payload);
    let f = frame_bytes(info, dir, stream, PacketProtocol::UDP, seg);
    let off = transport_offset(info);
    assert(seg.len() == 8 + payload.len());
    lemma_be16_recompose(sp);
    lemma_be16_recompose(dp);
    lemma_be16_recompose((payload.len() + 4) as u16);
    assert forall|j: int| 0 <= j < seg.len() implies f[off + j] == seg[j] by {}
    assert(seg[4] == be16((payload.len() + 4) as u16)[0]);
    assert(seg[5] == be16((payload.len() + 4) as u16)[1]);
    assert(udp_payload_field(info, f) =~= payload);
}

/// A synthesized IPv4 frame carries a header whose checksum passes the
/// standard validation, whose total-length field is the option-bearing
/// header size plus the transport length, and whose address fields are
/// the session's addresses.
pub proof fn lemma_frame_ipv4_fields(
    info: PacketInfo,
    dir: PacketDirection,
    stream: u32,
    proto: PacketProtocol,
    transport: Seq<u8>,
)
    requires
        info.wf(),
        info.is_v4(),
        transport.len() + 24 <= 0xFFFF,
    ensures
        ({
            let f = frame_bytes(info, dir, stream, proto, transport);
            &&& ipv4_checksum_valid(f.subrange(14, 38))
            &&& be16_at(f, 16) == transport.len() + 24
            &&& f.subrange(26, 30) == info.src(dir).ip.bytes()
            &&& f.subrange(30, 34) == info.dst(dir).ip.bytes()
        }),
{
    let src = info.src(dir).ip.bytes();
    let dst = info.dst(dir).ip.bytes();
    let h = ipv4_header(
        crate::session::proto_number(proto),
        transport.len() as int,
        src,
        dst,
        (stream % 0x10000) as u16,
    );
    lemma_ipv4_header_valid(
        crate::session::proto_number(proto),
        transport.len() as int,
        src,
        dst,
        (stream % 0x10000) as u16,
    );
    let f = frame_bytes(info, dir, stream, proto, transport);
    assert(h.len() == 24);
    assert(f.subrange(14, 38) =~= h);
    assert(f.subrange(26, 30) =~= src);
    assert(f.subrange(30, 34) =~= dst);
}

/// A synthesized IPv6 frame carries the session's addresses at the
/// standard offsets, and its payload-length field is the transport
/// length.
pub proof fn lemma_frame_ipv6_fields(
    info: PacketInfo,
    dir: PacketDirection,
    stream: u32,
    proto: PacketProtocol,
    transport: Seq<u8>,
)
    requires
        info.wf(),
        !info.is_v4(),
        transport.len() + 24 <= 0xFFFF,
    ensures
        ({
            let f = frame_bytes(info, dir, stream, proto, transport);
            &&& be16_at(f, 18) == transport.len()
            &&& f.subrange(22, 38) == info.src(dir).ip.bytes()
            &&& f.subrange(38, 54) == info.dst(dir).ip.bytes()
        }),
{
    let src = info.src(dir).ip.bytes();
    let dst = info.dst(dir).ip.bytes();
    let h = ipv6_header(
        crate::session::proto_number(proto),
        transport.len() as int,
        src,
        dst,
        stream,
    );
    let f = frame_bytes(info, dir, stream, proto, transport);
    assert(h.len() == 40);
    lemma_be16_recompose(transport.len() as u16);
    assert(h[4] == be16(transport.len() as u16)[0]);
    assert(h[5] == be16(transport.len() as u16)[1]);
    assert(f[18] == h[4]);
    assert(f[19] == h[5]);
    assert(f.subrange(22, 38) =~= src);
    assert(f.subrange(38, 54) =~= dst);
}

/// The first `write` on a fresh TCP session emits exactly five records:
/// the three handshake records, then the data record, then its
/// synthesized acknowledgement.
pub proof fn lemma_first_tcp_write_emits_five(s: Session, info: PacketInfo, payload: Seq<u8>)
    requires
        info.protocol == PacketProtocol::TCP,
        !s.handshake_sent,
    ensures
        ({
            let ms = write_models(s, info, payload);
            &&& ms.len() == 5
            &&& ms.take(3) == handshake_models(info, s.stream_count)
            &&& ms[0].1 == CommentTag::Handshake
            &&& ms[1].1 == CommentTag::Handshake
            &&& ms[2].1 == CommentTag::Handshake
            &&& ms[3].1 == CommentTag::NoComment
            &&& ms[4].1 == CommentTag::Ack
        }),
{
    let ms = write_models(s, info, payload);
    assert(ms.take(3) =~= handshake_models(info, s.stream_count));
}

/// Right after the synthesized handshake the counters stand at the
/// fixed bases: send 501, receive 1001.
pub proof fn lemma_handshake_bases(s: Session, info: PacketInfo)
    requires
        info.protocol == PacketProtocol::TCP,
        !s.handshake_sent,
    ensures
        connect_post(s, info).send_seq == SEND_SEQ_START,
        connect_post(s, info).recv_seq == RECV_SEQ_START,
        connect_post(s, info).handshake_sent,
{
}

/// Total length of a run of payloads.
pub open spec fn payload_total(ps: Seq<Seq<u8>>) -> int
    decreases ps.len(),
{
    if ps.len() == 0 {
        0
    } else {
        payload_total(ps.drop_last()) + ps.last().len()
    }
}

/// The session state after a run of `write` calls, all with the same
/// event metadata.
pub open spec fn state_after_writes(s: Session, info: PacketInfo, ps: Seq<Seq<u8>>) -> Session
    decreases ps.len(),
{
    if ps.len() == 0 {
        s
    } else {
        write_post(state_after_writes(s, info, ps.drop_last()), info, ps.last())
    }
}

/// After any run of TCP writes in the `Send` direction on a session
/// whose handshake is done, the send counter has advanced by the total
/// payload length modulo 2^32, and the receive counter is unchanged.
pub proof fn lemma_send_run_advances_send_seq(s: Session, info: PacketInfo, ps: Seq<Seq<u8>>)
    requires
        info.protocol == PacketProtocol::TCP,
        info.direction == PacketDirection::Send,
        s.handshake_sent,
    ensures
        ({
            let t = state_after_writes(s, info, ps);
            &&& t.send_seq == wrap32(s.send_seq + payload_total(ps))
            &&& t.recv_seq == s.recv_seq
            &&& t.handshake_sent
            &&& t.stream_count == s.stream_count
        }),
    decreases ps.len(),
{
    let m = 0x100000000int;
    if ps.len() == 0 {
        lemma_small_mod(s.send_seq as nat, 0x100000000nat);
    } else {
        lemma_send_run_advances_send_seq(s, info, ps.drop_last());
        let prev = state_after_writes(s, info, ps.drop_last());
        let a = s.send_seq + payload_total(ps.drop_last());
        let b = ps.last().len() as int;
        assert(prev.send_seq == (a % m) as u32);
        lemma_add_mod_noop(a, b, m);
        lemma_add_mod_noop_right(a % m, b, m);
        assert((a % m + b) % m == (a + b) % m);
        assert(payload_total(ps) == a - s.send_seq + b);
    }
}

/// Every TCP data record is immediately followed by its synthesized
/// acknowledgement: the ack's acknowledgement number is the data
/// record's sequence number plus its payload length (mod 2^32), and the
/// ack's sequence number is the data record's acknowledgement number.
pub proof fn lemma_data_ack_pairing(s: Session, info: PacketInfo, payload: Seq<u8>)
    requires
        info.wf(),
        info.protocol == PacketProtocol::TCP,
        payload.len() <= MAX_PAYLOAD_LEN,
    ensures
        ({
            let ms = write_models(s, info, payload);
            let data = ms[ms.len() - 2].0;
            let ack = ms[ms.len() - 1].0;
            &&& ms.len() >= 2
            &&& ms[ms.len() - 2].1 == CommentTag::NoComment
            &&& ms[ms.len() - 1].1 == CommentTag::Ack
            &&& tcp_ack_field(info, ack) == (tcp_seq_field(info, data) + payload.len()) % 0x100000000
            &&& tcp_seq_field(info, ack) == tcp_ack_field(info, data)
            &&& tcp_payload_field(info, data) == payload
            &&& tcp_payload_field(info, ack) == Seq::<u8>::empty()
        }),
{
    let send0 = if s.handshake_sent {
        s.send_seq
    } else {
        SEND_SEQ_START
    };
    let recv0 = if s.handshake_sent {
        s.recv_seq
    } else {
        RECV_SEQ_START
    };
    let ms = write_models(s, info, payload);
    let pair = data_ack_models(info, s.stream_count, send0, recv0, payload);
    assert(ms[ms.len() - 2] == pair[0]);
    assert(ms[ms.len() - 1] == pair[1]);
    match info.direction {
        PacketDirection::Send => {
            lemma_tcp_frame_fields(
                info,
                info.direction,
                s.stream_count,
                send0,
                recv0,
                crate::encode::FLAG_PSH_ACK,
                payload,
            );
            lemma_tcp_frame_fields(
                info,
                info.direction.flip(),
                s.stream_count,
                recv0,
                wrap32(send0 + payload.len()),
                crate::encode::FLAG_ACK,
                Seq::empty(),
            );
        },
        PacketDirection::Receive => {
            lemma_tcp_frame_fields(
                info,
                info.direction,
                s.stream_count,
                recv0,
                send0,
                crate::encode::FLAG_PSH_ACK,
                payload,
            );
            lemma_tcp_frame_fields(
                info,
                info.direction.flip(),
                s.stream_count,
                send0,
                wrap32(recv0 + payload.len()),
                crate::encode::FLAG_ACK,
                Seq::empty(),
            );
        },
    }
}

/// A UDP `write` emits exactly one record, with no comment, whose UDP
/// payload is the input payload; the session state is untouched.
pub proof fn lemma_udp_write_single_record(s: Session, info: PacketInfo, payload: Seq<u8>)
    requires
        info.wf(),
        info.protocol == PacketProtocol::UDP,
        payload.len() <= MAX_PAYLOAD_LEN,
    ensures
        ({
            let ms = write_models(s, info, payload);
            &&& ms.len() == 1
            &&& ms[0].1 == CommentTag::NoComment
            &&& udp_payload_field(info, ms[0].0) == payload
            &&& write_post(s, info, payload) == s
        }),
{
    lemma_udp_frame_fields(info, s.stream_count, payload);
}

/// `new_connect` always advances the stream counter by exactly one
/// (wrapping); for UDP it emits no records and leaves the rest of the
/// session untouched.
pub proof fn lemma_connect_advances_stream(s: Session, info: PacketInfo)
    ensures
        connect_post(s, info).stream_count == wrap32(s.stream_count + 1),
        info.protocol == PacketProtocol::UDP ==> connect_models(s, info)
            == Seq::<(Seq<u8>, CommentTag)>::empty() && connect_post(s, info).send_seq == s.send_seq
            && connect_post(s, info).recv_seq == s.recv_seq && connect_post(s, info).handshake_sent
            == s.handshake_sent,
{
}

} // verus!

