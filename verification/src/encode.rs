//! Header encoders: pure functions that lay a payload under Ethernet,
//! IPv4/IPv6 and TCP/UDP headers, byte for byte.
//!
//! Each encoder's contract gives the exact byte sequence it produces, so
//! that the synthesizer's records are pinned down completely.

use vstd::prelude::*;
use vstd::arithmetic::div_mod::{
    lemma_div_denominator, lemma_fundamental_div_mod, lemma_mod_multiples_vanish,
    lemma_sub_mod_noop,
};

verus! {

/// Fixed TCP window advertised on every synthesized segment.
pub const TCP_WINDOW: u16 = 43440;

/// TCP flag bytes used by the synthesizer.
pub const FLAG_SYN: u8 = 0x02;
pub const FLAG_ACK: u8 = 0x10;
pub const FLAG_SYN_ACK: u8 = 0x12;
pub const FLAG_PSH_ACK: u8 = 0x18;

/// IP protocol numbers.
pub const IP_PROTO_TCP: u8 = 6;
pub const IP_PROTO_UDP: u8 = 17;

/// EtherType values.
pub const ETHERTYPE_IPV4: u16 = 0x0800;
pub const ETHERTYPE_IPV6: u16 = 0x86DD;

/// Big-endian bytes of a 16-bit value.
pub open spec fn be16(x: u16) -> Seq<u8> {
    seq![(x / 0x100) as u8, (x % 0x100) as u8]
}

/// Big-endian bytes of a 32-bit value.
pub open spec fn be32(x: u32) -> Seq<u8> {
    seq![
        (x / 0x1000000) as u8,
        ((x / 0x10000) % 0x100) as u8,
        ((x / 0x100) % 0x100) as u8,
        (x % 0x100) as u8,
    ]
}

/// The two big-endian bytes recompose to the encoded value.
pub proof fn lemma_be16_recompose(x: u16)
    ensures
        be16(x)[0] * 0x100 + be16(x)[1] == x,
{
    lemma_fundamental_div_mod(x as int, 0x100);
}

/// The four big-endian bytes recompose to the encoded value.
pub proof fn lemma_be32_recompose(x: u32)
    ensures
        be32(x)[0] * 0x1000000 + be32(x)[1] * 0x10000 + be32(x)[2] * 0x100 + be32(x)[3] == x,
{
    let i = x as int;
    lemma_fundamental_div_mod(i, 0x100);
    lemma_fundamental_div_mod(i / 0x100, 0x100);
    lemma_fundamental_div_mod(i / 0x10000, 0x100);
    lemma_fundamental_div_mod(i, 0x1000000);
    lemma_div_denominator(i, 0x100, 0x100);
    lemma_div_denominator(i, 0x10000, 0x100);
}

/// Append the big-endian bytes of `x`.
pub fn push_be16(out: &mut Vec<u8>, x: u16)
    ensures
        final(out)@ == old(out)@ + be16(x),
{
    out.push((x / 0x100) as u8);
    out.push((x % 0x100) as u8);
    proof {
        assert(out@ =~= old(out)@ + be16(x));
    }
}

/// Append the big-endian bytes of `x`.
pub fn push_be32(out: &mut Vec<u8>, x: u32)
    ensures
        final(out)@ == old(out)@ + be32(x),
{
    out.push((x / 0x1000000) as u8);
    out.push(((x / 0x10000) % 0x100) as u8);
    out.push(((x / 0x100) % 0x100) as u8);
    out.push((x % 0x100) as u8);
    proof {
        assert(out@ =~= old(out)@ + be32(x));
    }
}

/// Append a whole byte slice.
pub fn push_bytes(out: &mut Vec<u8>, data: &[u8])
    ensures
        final(out)@ == old(out)@ + data@,
{
    proof {
        assert(out@ =~= old(out)@ + data@.subrange(0, 0));
    }
    let mut i: usize = 0;
    while i < data.len()
        invariant
            i <= data@.len(),
            out@ == old(out)@ + data@.subrange(0, i as int),
        decreases data@.len() - i,
    {
        out.push(data[i]);
        i = i + 1;
        proof {
            assert(out@ =~= old(out)@ + data@.subrange(0, i as int));
        }
    }
    proof {
        assert(data@.subrange(0, data@.len() as int) =~= data@);
    }
}

/// A TCP segment: 20-byte header (no options, data offset 5, fixed
/// window) followed by the payload. The checksum and urgent fields are
/// left zero, as the reconstruction never computes transport checksums.
pub open spec fn tcp_segment(sp: u16, dp: u16, seq: u32, ack: u32, flags: u8, payload: Seq<u8>) -> Seq<u8> {
    be16(sp) + be16(dp) + be32(seq) + be32(ack) + seq![0x50u8, flags] + be16(TCP_WINDOW)
        + be16(0u16) + be16(0u16) + payload
}

/// Encode a TCP segment.
pub fn encode_tcp_segment(sp: u16, dp: u16, seq: u32, ack: u32, flags: u8, payload: &[u8]) -> (v: Vec<u8>)
    ensures
        v@ == tcp_segment(sp, dp, seq, ack, flags, payload@),
        v@.len() == 20 + payload@.len(),
{
    let mut v: Vec<u8> = Vec::new();
    push_be16(&mut v, sp);
    push_be16(&mut v, dp);
    push_be32(&mut v, seq);
    push_be32(&mut v, ack);
    v.push(0x50);
    v.push(flags);
    push_be16(&mut v, TCP_WINDOW);
    push_be16(&mut v, 0);
    push_be16(&mut v, 0);
    push_bytes(&mut v, payload);
    proof {
        assert(v@ =~= tcp_segment(sp, dp, seq, ack, flags, payload@));
    }
    v
}

/// A UDP datagram: 8-byte header followed by the payload. The length
/// field counts the payload plus a 4-byte header allowance; the checksum
/// is left zero.
pub open spec fn udp_datagram(sp: u16, dp: u16, payload: Seq<u8>) -> Seq<u8> {
    be16(sp) + be16(dp) + be16((payload.len() + 4) as u16) + be16(0u16) + payload
}

/// Encode a UDP datagram.
pub fn encode_udp_datagram(sp: u16, dp: u16, payload: &[u8]) -> (v: Vec<u8>)
    requires
        payload@.len() + 4 <= 0xFFFF,
    ensures
        v@ == udp_datagram(sp, dp, payload@),
        v@.len() == 8 + payload@.len(),
{
    let mut v: Vec<u8> = Vec::new();
    push_be16(&mut v, sp);
    push_be16(&mut v, dp);
    push_be16(&mut v, (payload.len() + 4) as u16);
    push_be16(&mut v, 0);
    push_bytes(&mut v, payload);
    proof {
        assert(v@ =~= udp_datagram(sp, dp, payload@));
    }
    v
}

/// An Ethernet frame: zeroed MAC addresses, an EtherType, the payload.
pub open spec fn ethernet_frame(ethertype: u16, payload: Seq<u8>) -> Seq<u8> {
    seq![0u8, 0u8, 0u8, 0u8, 0u8, 0u8, 0u8, 0u8, 0u8, 0u8, 0u8, 0u8] + be16(ethertype) + payload
}

/// Encode an Ethernet frame around an already-encoded IP packet.
pub fn encode_ethernet_frame(ethertype: u16, payload: &[u8]) -> (v: Vec<u8>)
    ensures
        v@ == ethernet_frame(ethertype, payload@),
        v@.len() == 14 + payload@.len(),
{
    let mut v: Vec<u8> = Vec::new();
    let mut i: usize = 0;
    while i < 12
        invariant
            i <= 12,
            v@.len() == i,
            forall|j: int| 0 <= j < i ==> v@[j] == 0u8,
        decreases 12 - i,
    {
        v.push(0);
        i = i + 1;
    }
    push_be16(&mut v, ethertype);
    push_bytes(&mut v, payload);
    proof {
        assert(v@ =~= ethernet_frame(ethertype, payload@));
    }
    v
}

/// The 16-bit word at index `i` of a header, read big-endian.
pub open spec fn word_at(h: Seq<u8>, i: int) -> int {
    h[2 * i] * 0x100 + h[2 * i + 1]
}

/// Plain sum of the first `n` 16-bit words of a header.
pub open spec fn sum_words(h: Seq<u8>, n: int) -> int
    decreases n,
{
    if n <= 0 {
        0
    } else {
        sum_words(h, n - 1) + word_at(h, n - 1)
    }
}

/// One end-around-carry folding step of the ones'-complement sum.
pub open spec fn fold16(x: int) -> int {
    x % 0x10000 + x / 0x10000
}

/// The checksum of a 24-byte IPv4 header whose checksum field is zero:
/// the ones' complement of the folded sum of its twelve 16-bit words.
pub open spec fn ipv4_checksum(h: Seq<u8>) -> u16 {
    (0xFFFF - fold16(fold16(sum_words(h, 12)))) as u16
}

/// The standard validation of a completed 24-byte IPv4 header: the folded
/// ones'-complement sum over all twelve words, checksum included, is
/// 0xFFFF (whose complement is zero).
pub open spec fn ipv4_checksum_valid(h: Seq<u8>) -> bool {
    fold16(fold16(sum_words(h, 12))) == 0xFFFF
}

/// A 24-byte IPv4 header (20 fixed bytes plus one 4-byte option) with the
/// checksum field still zero: version 4, header length 6 words, total
/// length `payload_len + 24`, don't-fragment, TTL 64, and a stream
/// identifier option (copied flag set, class 0, number 8, length 4).
pub open spec fn ipv4_header_zerock(proto: u8, payload_len: int, src: Seq<u8>, dst: Seq<u8>, sid: u16) -> Seq<u8> {
    seq![0x46u8, 0u8] + be16((payload_len + 24) as u16)
        + seq![0u8, 0u8, 0x40u8, 0u8, 64u8, proto, 0u8, 0u8] + src + dst + seq![0x88u8, 4u8]
        + be16(sid)
}

/// The completed IPv4 header, checksum filled in at bytes 10 and 11.
pub open spec fn ipv4_header(proto: u8, payload_len: int, src: Seq<u8>, dst: Seq<u8>, sid: u16) -> Seq<u8> {
    let h0 = ipv4_header_zerock(proto, payload_len, src, dst, sid);
    let c = ipv4_checksum(h0);
    h0.update(10, (c / 0x100) as u8).update(11, (c % 0x100) as u8)
}

/// Compute the header checksum over a zero-checksum 24-byte header.
fn compute_ipv4_checksum(h: &Vec<u8>) -> (c: u16)
    requires
        h@.len() == 24,
    ensures
        c == ipv4_checksum(h@),
{
    let mut sum: u32 = 0;
    let mut i: usize = 0;
    while i < 12
        invariant
            h@.len() == 24,
            i <= 12,
            sum == sum_words(h@, i as int),
            sum <= i * 0xFFFF,
        decreases 12 - i,
    {
        let w: u32 = (h[2 * i] as u32) * 0x100 + (h[2 * i + 1] as u32);
        sum = sum + w;
        i = i + 1;
    }
    let f1: u32 = sum % 0x10000 + sum / 0x10000;
    let f2: u32 = f1 % 0x10000 + f1 / 0x10000;
    proof {
        lemma_fundamental_div_mod(sum as int, 0x10000);
        lemma_fundamental_div_mod(f1 as int, 0x10000);
        assert(f2 <= 0xFFFF);
    }
    (0xFFFF - f2) as u16
}

/// Encode an IPv4 packet: completed header plus the transport bytes.
pub fn encode_ipv4_packet(proto: u8, src: &Vec<u8>, dst: &Vec<u8>, sid: u16, transport: &Vec<u8>) -> (v: Vec<u8>)
    requires
        src@.len() == 4,
        dst@.len() == 4,
        transport@.len() + 24 <= 0xFFFF,
    ensures
        v@ == ipv4_header(proto, transport@.len() as int, src@, dst@, sid) + transport@,
        v@.len() == 24 + transport@.len(),
{
    let mut h: Vec<u8> = Vec::new();
    h.push(0x46);
    h.push(0);
    push_be16(&mut h, (transport.len() + 24) as u16);
    h.push(0);
    h.push(0);
    h.push(0x40);
    h.push(0);
    h.push(64);
    h.push(proto);
    h.push(0);
    h.push(0);
    push_bytes(&mut h, src.as_slice());
    push_bytes(&mut h, dst.as_slice());
    h.push(0x88);
    h.push(4);
    push_be16(&mut h, sid);
    proof {
        assert(h@ =~= ipv4_header_zerock(proto, transport@.len() as int, src@, dst@, sid));
    }
    let c = compute_ipv4_checksum(&h);
    h.set(10, (c / 0x100) as u8);
    h.set(11, (c % 0x100) as u8);
    proof {
        assert(h@ == ipv4_header(proto, transport@.len() as int, src@, dst@, sid));
    }
    push_bytes(&mut h, transport.as_slice());
    h
}

/// Folding one carry step preserves the value modulo 0xFFFF.
proof fn lemma_fold16_mod(x: int)
    requires
        0 <= x,
    ensures
        fold16(x) % 0xFFFF == x % 0xFFFF,
        0 <= fold16(x),
{
    let q = x / 0x10000;
    let r = x % 0x10000;
    lemma_fundamental_div_mod(x, 0x10000);
    lemma_mod_multiples_vanish(q, q + r, 0xFFFF);
}

/// Two headers with equal words have equal word sums.
proof fn lemma_sum_words_eq(h0: Seq<u8>, h: Seq<u8>, n: int)
    requires
        forall|i: int| 0 <= i < n ==> word_at(h, i) == word_at(h0, i),
    ensures
        sum_words(h, n) == sum_words(h0, n),
    decreases n,
{
    if n > 0 {
        lemma_sum_words_eq(h0, h, n - 1);
    }
}

/// Changing one word changes the word sum by that word's difference.
proof fn lemma_sum_words_except(h0: Seq<u8>, h: Seq<u8>, k: int, n: int)
    requires
        forall|i: int| 0 <= i < n && i != k ==> word_at(h, i) == word_at(h0, i),
        0 <= k < n,
    ensures
        sum_words(h, n) == sum_words(h0, n) + word_at(h, k) - word_at(h0, k),
    decreases n,
{
    if k == n - 1 {
        lemma_sum_words_eq(h0, h, n - 1);
    } else {
        lemma_sum_words_except(h0, h, k, n - 1);
    }
}

/// The word sum of a header is bounded by the number of words.
proof fn lemma_sum_words_bounds(h: Seq<u8>, n: int)
    requires
        0 <= n,
    ensures
        0 <= sum_words(h, n) <= n * 0xFFFF,
    decreases n,
{
    if n > 0 {
        lemma_sum_words_bounds(h, n - 1);
        assert(word_at(h, n - 1) <= 0xFFFF);
        assert((n - 1) * 0xFFFF + 0xFFFF == n * 0xFFFF) by (nonlinear_arith);
    }
}

/// The emitted IPv4 header passes the standard checksum validation, and
/// its total-length field reads back as `payload_len + 24`.
pub proof fn lemma_ipv4_header_valid(proto: u8, payload_len: int, src: Seq<u8>, dst: Seq<u8>, sid: u16)
    requires
        src.len() == 4,
        dst.len() == 4,
        0 <= payload_len,
        payload_len + 24 <= 0xFFFF,
    ensures
        ipv4_checksum_valid(ipv4_header(proto, payload_len, src, dst, sid)),
        word_at(ipv4_header(proto, payload_len, src, dst, sid), 1) == payload_len + 24,
{
    let h0 = ipv4_header_zerock(proto, payload_len, src, dst, sid);
    let c = ipv4_checksum(h0);
    let chi = (c / 0x100) as u8;
    let clo = (c % 0x100) as u8;
    let h = h0.update(10, chi).update(11, clo);
    assert(h0.len() == 24);
    assert(h0[10] == 0u8);
    assert(h0[11] == 0u8);

    let s = sum_words(h0, 12);
    lemma_sum_words_bounds(h0, 12);
    let f1 = fold16(s);
    let f2 = fold16(f1);
    lemma_fold16_mod(s);
    lemma_fold16_mod(f1);
    lemma_fundamental_div_mod(s, 0x10000);
    lemma_fundamental_div_mod(f1, 0x10000);
    assert(0 <= f2 <= 0xFFFF);
    assert(c == 0xFFFF - f2);

    assert forall|i: int| 0 <= i < 12 && i != 5 implies word_at(h, i) == word_at(h0, i) by {
        assert(h[2 * i] == h0[2 * i]);
        assert(h[2 * i + 1] == h0[2 * i + 1]);
    }
    lemma_sum_words_except(h0, h, 5, 12);
    lemma_fundamental_div_mod(c as int, 0x100);
    assert(word_at(h, 5) == c);
    assert(word_at(h0, 5) == 0);
    let t = sum_words(h, 12);
    assert(t == s + c);

    lemma_mod_multiples_vanish(1, s, 0xFFFF);
    lemma_sub_mod_noop(s + 0xFFFF, f2, 0xFFFF);
    assert(t % 0xFFFF == 0);
    assert(t > 0);

    let g1 = fold16(t);
    lemma_fold16_mod(t);
    lemma_fundamental_div_mod(t, 0x10000);
    assert(0 < g1 <= 0xFFFF + 12);
    lemma_fundamental_div_mod(g1, 0xFFFF);
    assert(g1 == 0xFFFF);
    assert(fold16(g1) == 0xFFFF);
    assert(ipv4_checksum_valid(h));

    let tl = (payload_len + 24) as u16;
    lemma_be16_recompose(tl);
    assert(h[2] == be16(tl)[0]);
    assert(h[3] == be16(tl)[1]);
    assert(word_at(h, 1) == payload_len + 24);
}

/// A 40-byte IPv6 header: version 6, zero traffic class, the low 20 bits
/// of the stream counter as flow label, payload length, next header, hop
/// limit 64. IPv6 carries no header checksum.
pub open spec fn ipv6_header(proto: u8, payload_len: int, src: Seq<u8>, dst: Seq<u8>, flow: u32) -> Seq<u8> {
    let f = flow % 0x100000;
    seq![
        0x60u8,
        (f / 0x10000) as u8,
        ((f / 0x100) % 0x100) as u8,
        (f % 0x100) as u8,
    ] + be16(payload_len as u16) + seq![proto, 64u8] + src + dst
}

/// Encode an IPv6 packet: header plus the transport bytes.
pub fn encode_ipv6_packet(proto: u8, src: &Vec<u8>, dst: &Vec<u8>, flow: u32, transport: &Vec<u8>) -> (v: Vec<u8>)
    requires
        src@.len() == 16,
        dst@.len() == 16,
        transport@.len() <= 0xFFFF,
    ensures
        v@ == ipv6_header(proto, transport@.len() as int, src@, dst@, flow) + transport@,
        v@.len() == 40 + transport@.len(),
{
    let f: u32 = flow % 0x100000;
    let mut v: Vec<u8> = Vec::new();
    v.push(0x60);
    v.push((f / 0x10000) as u8);
    v.push(((f / 0x100) % 0x100) as u8);
    v.push((f % 0x100) as u8);
    push_be16(&mut v, transport.len() as u16);
    v.push(proto);
    v.push(64);
    push_bytes(&mut v, src.as_slice());
    push_bytes(&mut v, dst.as_slice());
    push_bytes(&mut v, transport.as_slice());
    proof {
        assert(v@ =~= ipv6_header(proto, transport@.len() as int, src@, dst@, flow) + transport@);
    }
    v
}

} // verus!
