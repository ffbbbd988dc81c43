//! Capture sink: appends synthesized records to a pcapng stream held in
//! memory, and the writers the socket layer talks to.
//!
//! The pcapng container itself is the outside crate's work; it is reached
//! only through the trusted items below, whose contracts speak of the
//! abstract list of packet records appended so far.

use vstd::prelude::*;

use pcap_file::pcapng::blocks::enhanced_packet::{EnhancedPacketBlock, EnhancedPacketOption};
use pcap_file::pcapng::blocks::interface_description::InterfaceDescriptionBlock;
use pcap_file::pcapng::{PcapNgBlock, PcapNgWriter};
use pcap_file::DataLink;

use crate::packet::{packet_info_wf, CaptureError, PacketInfo};
use crate::session::{
    connect_models, connect_post, recs_model, sink_comment, write_models, write_post,
    CommentTag, Session, MAX_FRAME_LEN, MAX_PAYLOAD_LEN,
};

verus! {

/// Snap length declared by the capture's interface description.
pub const SNAP_LEN: u32 = 0xFFFF;

/// The pcapng stream, held behind an opaque struct because Verus cannot
/// declare the outside writer type itself (its generic parameter is
/// bound by an I/O trait). Trusted wrappers below are its only doors.
#[verifier::external_body]
pub struct CaptureStream {
    inner: PcapNgWriter<Vec<u8>>,
}

#[verifier::external_type_specification]
#[verifier::external_body]
pub struct ExInstant(std::time::Instant);

/// One packet record as the stream holds it: the frame bytes, the
/// original-length field, the interface it is attributed to, and the
/// optional comment text. The timestamp is not modelled: it comes from
/// the clock.
pub ghost struct SinkRecord {
    pub frame: Seq<u8>,
    pub original_len: u32,
    pub interface_id: u32,
    pub comment: Option<Seq<char>>,
}

/// The packet records appended to a pcapng stream since its creation.
pub uninterp spec fn sink_records(w: CaptureStream) -> Seq<SinkRecord>;

/// The view of an optional comment handed to the sink.
pub open spec fn opt_str_view(c: Option<&str>) -> Option<Seq<char>> {
    match c {
        Option::Some(s) => Option::Some(s@),
        Option::None => Option::None,
    }
}

/// Relies on `pcap_file::pcapng::PcapNgWriter::new`: opening a pcapng
/// stream over an in-memory buffer writes only the section header, so no
/// packet records exist yet; any failure comes back as the stream error.
#[verifier::external_body]
fn sink_new() -> (r: Result<CaptureStream, CaptureError>)
    ensures
        r matches Ok(w) ==> sink_records(w) == Seq::<SinkRecord>::empty(),
        r matches Err(e) ==> e == CaptureError::StreamWrite,
{
    match PcapNgWriter::new(Vec::new()) {
        Ok(w) => Ok(CaptureStream { inner: w }),
        Err(_) => Err(CaptureError::StreamWrite),
    }
}

/// Relies on `pcap_file::pcapng::PcapNgWriter::write_block` with an
/// interface description block: it declares an Ethernet interface and
/// appends no packet record.
#[verifier::external_body]
fn sink_add_ethernet_interface(w: &mut CaptureStream, snaplen: u32) -> (r: Result<
    (),
    CaptureError,
>)
    ensures
        r matches Ok(()) ==> sink_records(*final(w)) == sink_records(*old(w)),
        r matches Err(e) ==> e == CaptureError::StreamWrite,
{
    let block = InterfaceDescriptionBlock { linktype: DataLink::ETHERNET, snaplen, options: Vec::new() };
    match w.inner.write_block(&block.into_block()) {
        Ok(_) => Ok(()),
        Err(_) => Err(CaptureError::StreamWrite),
    }
}

/// Relies on `pcap_file::pcapng::PcapNgWriter::write_block` with an
/// enhanced packet block: on success exactly one record, carrying these
/// frame bytes, original length, interface number and comment, is
/// appended to the stream. The frame must fit the block's 32-bit
/// captured-length field. On failure nothing is appended: over an
/// in-memory buffer, whose writes are infallible, the only failing path
/// is the interface-number check, which returns before serializing.
#[verifier::external_body]
fn sink_append_packet(
    w: &mut CaptureStream,
    data: &Vec<u8>,
    original_len: u32,
    interface_id: u32,
    ts: core::time::Duration,
    comment: Option<&str>,
) -> (r: Result<(), CaptureError>)
    requires
        data@.len() <= 0xFFFFFFFF,
    ensures
        r matches Ok(()) ==> sink_records(*final(w)) == sink_records(*old(w)).push(
            (SinkRecord {
                frame: data@,
                original_len: original_len,
                interface_id: interface_id,
                comment: opt_str_view(comment),
            }),
        ),
        r matches Err(e) ==> e == CaptureError::StreamWrite && sink_records(*final(w))
            == sink_records(*old(w)),
{
    let options: Vec<EnhancedPacketOption<'_>> = match comment {
        Some(c) => vec![EnhancedPacketOption::Comment(c.into())],
        None => vec![],
    };
    let block = EnhancedPacketBlock {
        interface_id,
        timestamp: ts,
        original_len,
        data: std::borrow::Cow::Borrowed(data.as_slice()),
        options,
    };
    match w.inner.write_block(&block.into_block()) {
        Ok(_) => Ok(()),
        Err(_) => Err(CaptureError::StreamWrite),
    }
}

/// Relies on `pcap_file::pcapng::PcapNgWriter::get_mut` and
/// `std::mem::take`: hands out the bytes buffered so far and leaves an
/// empty buffer behind; the abstract record list is untouched.
#[verifier::external_body]
fn sink_take_bytes(w: &mut CaptureStream) -> (b: Vec<u8>)
    ensures
        sink_records(*final(w)) == sink_records(*old(w)),
{
    std::mem::take(w.inner.get_mut())
}

/// Relies on `std::time::Instant::now`: reads the monotonic clock;
/// nothing is promised of the value.
#[verifier::external_body]
fn instant_now() -> (t: std::time::Instant) {
    std::time::Instant::now()
}

/// Relies on `std::time::Instant::elapsed`: the time since `start`;
/// nothing is promised of the value.
#[verifier::external_body]
fn elapsed_since(start: &std::time::Instant) -> (d: core::time::Duration) {
    start.elapsed()
}

/// The records the sink is expected to append for a list of synthesized
/// record models: the frame bytes, their true length, interface zero,
/// and the comment text of the tag.
pub open spec fn sink_pairs(models: Seq<(Seq<u8>, CommentTag)>) -> Seq<SinkRecord> {
    models.map_values(
        |m: (Seq<u8>, CommentTag)|
            (SinkRecord {
                frame: m.0,
                original_len: m.0.len() as u32,
                interface_id: 0u32,
                comment: sink_comment(m.1),
            }),
    )
}

/// Trait for objects that can write packet captures.
pub trait CaptureWriter {
    fn write(&mut self, packet: &PacketInfo, data: &[u8]) -> Result<(), CaptureError>;

    fn new_connect(&mut self, packet: &PacketInfo) -> Result<(), CaptureError>;
}

/// A writer that does nothing.
pub struct NullWriter;

impl CaptureWriter for NullWriter {
    fn write(&mut self, _packet: &PacketInfo, _data: &[u8]) -> (r: Result<(), CaptureError>)
        ensures
            r matches Ok(()),
            *final(self) == *old(self),
    {
        Ok(())
    }

    fn new_connect(&mut self, _packet: &PacketInfo) -> (r: Result<(), CaptureError>)
        ensures
            r matches Ok(()),
            *final(self) == *old(self),
    {
        Ok(())
    }
}

/// Writer that appends synthesized records to an in-memory pcapng stream.
///
/// The stream's bytes are fetched with `take_bytes`, so a caller can spill
/// them to a file after each event.
pub struct PcapWriter {
    pub sink: CaptureStream,
    pub start: std::time::Instant,
    pub session: Session,
}

/// The comment string attached to a synthesized record.
fn comment_str(t: CommentTag) -> (c: Option<&'static str>)
    ensures
        opt_str_view(c) == sink_comment(t),
{
    match t {
        CommentTag::NoComment => None,
        CommentTag::Handshake => Some("Generated TCP handshake"),
        CommentTag::Ack => Some("Generated TCP ack"),
    }
}

impl PcapWriter {
    /// The session state, exposed for callers and contracts.
    pub fn session_state(&self) -> (s: Session)
        ensures
            s == self.state(),
    {
        self.session
    }

    /// The session-state view of this writer.
    pub open spec fn state(self) -> Session {
        self.session
    }

    /// The records appended to the underlying stream so far.
    pub open spec fn records(self) -> Seq<SinkRecord> {
        sink_records(self.sink)
    }

    /// Open a fresh in-memory capture: a pcapng stream with one Ethernet
    /// interface description and a fresh session.
    pub fn new() -> (r: Result<PcapWriter, CaptureError>)
        ensures
            r matches Ok(w) ==> w.records() == Seq::<SinkRecord>::empty() && w.state() == (Session {
                send_seq: 0,
                recv_seq: 0,
                handshake_sent: false,
                stream_count: 0,
            }),
            r matches Err(e) ==> e == CaptureError::StreamWrite,
    {
        let mut sink = match sink_new() {
            Ok(s) => s,
            Err(e) => {
                return Err(e);
            },
        };
        match sink_add_ethernet_interface(&mut sink, SNAP_LEN) {
            Ok(()) => {},
            Err(e) => {
                return Err(e);
            },
        }
        Ok(PcapWriter { sink, start: instant_now(), session: Session::new() })
    }

    /// Mirror one send/receive event into the capture: synthesize the
    /// records for this event and append each to the stream, stamped with
    /// the time elapsed since the capture began. On a stream failure the
    /// session state is already advanced and a prefix of the records is
    /// in the stream.
    pub fn write_packet(&mut self, info: &PacketInfo, payload: &[u8]) -> (r: Result<
        (),
        CaptureError,
    >)
        requires
            info.wf(),
        ensures
            (payload@.len() > MAX_PAYLOAD_LEN) <==> (r == Err::<(), CaptureError>(
                CaptureError::PayloadTooLarge,
            )),
            payload@.len() > MAX_PAYLOAD_LEN ==> *final(self) == *old(self),
            payload@.len() <= MAX_PAYLOAD_LEN ==> final(self).state() == write_post(
                old(self).state(),
                *info,
                payload@,
            ),
            final(self).start == old(self).start,
            r matches Ok(()) ==> final(self).records() == old(self).records() + sink_pairs(
                write_models(old(self).state(), *info, payload@),
            ),
            r == Err::<(), CaptureError>(CaptureError::StreamWrite) ==> exists|k: int|
                0 <= k <= sink_pairs(write_models(old(self).state(), *info, payload@)).len()
                    && final(self).records() == old(self).records() + sink_pairs(
                    write_models(old(self).state(), *info, payload@),
                ).take(k),
            r matches Err(e) ==> (e == CaptureError::PayloadTooLarge || e
                == CaptureError::StreamWrite),
    {
        let recs = match self.session.write_records(info, payload) {
            Ok(r) => r,
            Err(e) => {
                return Err(e);
            },
        };
        let ghost expected = sink_pairs(write_models(old(self).state(), *info, payload@));
        proof {
            assert(expected.len() == recs@.len());
        }
        let mut i: usize = 0;
        while i < recs.len()
            invariant
                i <= recs@.len(),
                payload@.len() <= MAX_PAYLOAD_LEN,
                expected.len() == recs@.len(),
                recs_model(recs@) == write_models(old(self).state(), *info, payload@),
                expected == sink_pairs(recs_model(recs@)),
                forall|j: int| 0 <= j < recs@.len() ==> recs@[j].data@.len() <= MAX_FRAME_LEN,
                sink_records(self.sink) == sink_records(old(self).sink) + expected.take(i as int),
                self.session == write_post(old(self).state(), *info, payload@),
                self.start == old(self).start,
            decreases recs@.len() - i,
        {
            let rec = &recs[i];
            let comment: Option<&str> = comment_str(rec.comment);
            let ts = elapsed_since(&self.start);
            let len32: u32 = rec.data.len() as u32;
            match sink_append_packet(&mut self.sink, &rec.data, len32, 0, ts, comment) {
                Ok(()) => {},
                Err(e) => {
                    proof {
                        assert(sink_records(self.sink) == sink_records(old(self).sink)
                            + sink_pairs(write_models(old(self).state(), *info, payload@)).take(
                            i as int,
                        ));
                    }
                    return Err(e);
                },
            }
            i = i + 1;
            proof {
                assert(recs_model(recs@)[i - 1] == recs@[i - 1].model());
                assert(expected[i - 1] == (SinkRecord {
                    frame: rec.data@,
                    original_len: len32,
                    interface_id: 0u32,
                    comment: opt_str_view(comment),
                }));
                assert(sink_records(self.sink) =~= sink_records(old(self).sink) + expected.take(
                    i as int,
                ));
            }
        }
        proof {
            assert(expected.take(expected.len() as int) =~= expected);
        }
        Ok(())
    }

    /// Mark the start of a new logical connection: synthesize the
    /// handshake for a fresh TCP session (nothing for UDP) and advance
    /// the stream counter. When there is nothing to append — UDP, or a
    /// TCP session whose handshake is already out — success is owed.
    pub fn connect(&mut self, info: &PacketInfo) -> (r: Result<(), CaptureError>)
        requires
            info.wf(),
        ensures
            final(self).state() == connect_post(old(self).state(), *info),
            final(self).start == old(self).start,
            r matches Ok(()) ==> final(self).records() == old(self).records() + sink_pairs(
                connect_models(old(self).state(), *info),
            ),
            connect_models(old(self).state(), *info).len() == 0 ==> r matches Ok(()),
            r == Err::<(), CaptureError>(CaptureError::StreamWrite) ==> exists|k: int|
                0 <= k <= sink_pairs(connect_models(old(self).state(), *info)).len()
                    && final(self).records() == old(self).records() + sink_pairs(
                    connect_models(old(self).state(), *info),
                ).take(k),
            r matches Err(e) ==> e == CaptureError::StreamWrite,
    {
        let recs = self.session.connect_records(info);
        let ghost expected = sink_pairs(connect_models(old(self).state(), *info));
        proof {
            assert(expected.len() == recs@.len());
        }
        let mut i: usize = 0;
        while i < recs.len()
            invariant
                i <= recs@.len(),
                expected.len() == recs@.len(),
                recs_model(recs@) == connect_models(old(self).state(), *info),
                expected == sink_pairs(recs_model(recs@)),
                forall|j: int| 0 <= j < recs@.len() ==> recs@[j].data@.len() <= MAX_FRAME_LEN,
                sink_records(self.sink) == sink_records(old(self).sink) + expected.take(i as int),
                self.session == connect_post(old(self).state(), *info),
                self.start == old(self).start,
            decreases recs@.len() - i,
        {
            let rec = &recs[i];
            let comment: Option<&str> = comment_str(rec.comment);
            let ts = elapsed_since(&self.start);
            let len32: u32 = rec.data.len() as u32;
            match sink_append_packet(&mut self.sink, &rec.data, len32, 0, ts, comment) {
                Ok(()) => {},
                Err(e) => {
                    proof {
                        assert(sink_records(self.sink) == sink_records(old(self).sink)
                            + sink_pairs(connect_models(old(self).state(), *info)).take(i as int));
                    }
                    return Err(e);
                },
            }
            i = i + 1;
            proof {
                assert(recs_model(recs@)[i - 1] == recs@[i - 1].model());
                assert(expected[i - 1] == (SinkRecord {
                    frame: rec.data@,
                    original_len: len32,
                    interface_id: 0u32,
                    comment: opt_str_view(comment),
                }));
                assert(sink_records(self.sink) =~= sink_records(old(self).sink) + expected.take(
                    i as int,
                ));
            }
        }
        proof {
            assert(expected.take(expected.len() as int) =~= expected);
        }
        Ok(())
    }

    /// Hand out the capture bytes buffered since the last call, leaving
    /// the stream open for more records.
    pub fn take_bytes(&mut self) -> (b: Vec<u8>)
        ensures
            final(self).state() == old(self).state(),
            final(self).records() == old(self).records(),
    {
        sink_take_bytes(&mut self.sink)
    }
}

impl CaptureWriter for PcapWriter {
    fn write(&mut self, packet: &PacketInfo, data: &[u8]) -> (r: Result<(), CaptureError>)
        ensures
            (!packet.wf()) <==> (r == Err::<(), CaptureError>(CaptureError::InvalidEndpoints)),
            !packet.wf() ==> *final(self) == *old(self),
            packet.wf() ==> ((data@.len() > MAX_PAYLOAD_LEN) <==> (r == Err::<(), CaptureError>(
                CaptureError::PayloadTooLarge,
            ))),
            packet.wf() && data@.len() > MAX_PAYLOAD_LEN ==> *final(self) == *old(self),
            packet.wf() && data@.len() <= MAX_PAYLOAD_LEN ==> final(self).state() == write_post(
                old(self).state(),
                *packet,
                data@,
            ),
            final(self).start == old(self).start,
            r matches Ok(()) ==> packet.wf() && final(self).records() == old(self).records()
                + sink_pairs(write_models(old(self).state(), *packet, data@)),
            r == Err::<(), CaptureError>(CaptureError::StreamWrite) ==> exists|k: int|
                0 <= k <= sink_pairs(write_models(old(self).state(), *packet, data@)).len()
                    && final(self).records() == old(self).records() + sink_pairs(
                    write_models(old(self).state(), *packet, data@),
                ).take(k),
            r matches Err(e) ==> (e == CaptureError::InvalidEndpoints || e
                == CaptureError::PayloadTooLarge || e == CaptureError::StreamWrite),
    {
        if packet_info_wf(packet) {
            self.write_packet(packet, data)
        } else {
            Err(CaptureError::InvalidEndpoints)
        }
    }

    fn new_connect(&mut self, packet: &PacketInfo) -> (r: Result<(), CaptureError>)
        ensures
            (!packet.wf()) <==> (r == Err::<(), CaptureError>(CaptureError::InvalidEndpoints)),
            !packet.wf() ==> *final(self) == *old(self),
            packet.wf() ==> final(self).state() == connect_post(old(self).state(), *packet),
            final(self).start == old(self).start,
            r matches Ok(()) ==> packet.wf() && final(self).records() == old(self).records()
                + sink_pairs(connect_models(old(self).state(), *packet)),
            packet.wf() && connect_models(old(self).state(), *packet).len() == 0 ==> r matches Ok(
                (),
            ),
            r == Err::<(), CaptureError>(CaptureError::StreamWrite) ==> exists|k: int|
                0 <= k <= sink_pairs(connect_models(old(self).state(), *packet)).len()
                    && final(self).records() == old(self).records() + sink_pairs(
                    connect_models(old(self).state(), *packet),
                ).take(k),
            r matches Err(e) ==> (e == CaptureError::InvalidEndpoints || e
                == CaptureError::StreamWrite),
    {
        if packet_info_wf(packet) {
            self.connect(packet)
        } else {
            Err(CaptureError::InvalidEndpoints)
        }
    }
}

} // verus!
