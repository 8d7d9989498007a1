//! Key images that the host sends as multi-packet output reports (report id
//! 0x02), their reassembly per key, and the store of completed images.
//!
//! Mini (Module 6) packets have a 16-byte header: report id, command 0x01,
//! page number, reserved, last-packet flag, 1-based key, padding; the payload
//! is the rest of the packet. MK.2/XL (Module 15/32) packets have an 8-byte
//! header: report id, command 0x07 (or 0x08), 0-based key, last-packet flag,
//! chunk size (u16 LE) and chunk index (u16 LE); the payload is the next
//! chunk-size bytes.

use vstd::prelude::*;
use vstd::std_specs::convert::FromSpecImpl;
use std::collections::HashMap;
use std::sync::mpsc::{Receiver, RecvError, RecvTimeoutError, Sender, TryRecvError};
use std::time::{Duration, Instant};

verus! {

broadcast use vstd::std_specs::hash::group_hash_axioms;

#[verifier::external_type_specification]
#[verifier::external_body]
pub struct ExInstant(Instant);

#[verifier::external_type_specification]
#[verifier::external_body]
#[verifier::reject_recursive_types(T)]
pub struct ExSender<T>(Sender<T>);

#[verifier::external_type_specification]
#[verifier::external_body]
#[verifier::reject_recursive_types(T)]
pub struct ExReceiver<T>(Receiver<T>);

#[verifier::external_type_specification]
#[verifier::external_body]
pub struct ExRecvError(RecvError);

#[verifier::external_type_specification]
#[verifier::external_body]
pub struct ExTryRecvError(TryRecvError);

#[verifier::external_type_specification]
#[verifier::external_body]
pub struct ExRecvTimeoutError(RecvTimeoutError);

/// Reads the clock with `std::time::Instant::now`; nothing is claimed of the
/// instant returned.
#[verifier::external_body]
fn now() -> Instant {
    Instant::now()
}

/// The channel that a sending end belongs to.
pub uninterp spec fn sender_channel(tx: Sender<ImageEvent>) -> nat;

/// The channel that a receiving end belongs to.
pub uninterp spec fn receiver_channel(rx: Receiver<ImageEvent>) -> nat;

/// The events handed to the channel through this sending end so far, oldest
/// first, each as its key and image.
pub uninterp spec fn sent_events(tx: Sender<ImageEvent>) -> Seq<(u8, ImageView)>;

/// Whether the receiving end of this sending end's channel has been found
/// dropped.
pub uninterp spec fn receiver_gone(tx: Sender<ImageEvent>) -> bool;

/// Opens a channel with `std::sync::mpsc::channel`: the two ends belong to the
/// same channel, and nothing has been sent through it yet.
#[verifier::external_body]
fn open_channel() -> (r: (Sender<ImageEvent>, Receiver<ImageEvent>))
    ensures
        sender_channel(r.0) == receiver_channel(r.1),
        sent_events(r.0) == Seq::<(u8, ImageView)>::empty(),
{
    std::sync::mpsc::channel()
}

/// Sends an event with `std::sync::mpsc::Sender::send`. When it returns true
/// the event was handed to the channel, after those sent before; when false
/// nothing was sent, and the receiving end has been dropped (the only case in
/// which `send` fails). The sending end stays on its channel. Whether the
/// receiving end still exists depends on other threads, so which of the two
/// happens is not claimed.
#[verifier::external_body]
fn deliver(tx: &mut Sender<ImageEvent>, event: ImageEvent) -> (r: bool)
    ensures
        sender_channel(*final(tx)) == sender_channel(*old(tx)),
        sent_events(*final(tx)) == (if r { sent_events(*old(tx)).push(event_entry(event)) } else { sent_events(*old(tx)) }),
        !r ==> receiver_gone(*final(tx)),
{
    tx.send(event).is_ok()
}

/// Image command byte of an output report.
#[derive(Debug, Clone, Copy, PartialEq, Eq, Structural)]
pub enum ImageCommand {
    /// Write image data to a key (Mini, 0x01).
    WriteImage,
    /// Update key image (MK.2/XL, 0x07).
    UpdateKeyImage,
    /// Update full screen (MK.2/XL, 0x08).
    UpdateFullScreen,
    /// Any other command byte.
    Unknown(u8),
}

impl ImageCommand {
    /// Command for a command byte.
    pub open spec fn of_byte(value: u8) -> ImageCommand {
        if value == 0x01 {
            ImageCommand::WriteImage
        } else if value == 0x07 {
            ImageCommand::UpdateKeyImage
        } else if value == 0x08 {
            ImageCommand::UpdateFullScreen
        } else {
            ImageCommand::Unknown(value)
        }
    }

    /// Command byte of a command.
    pub open spec fn byte_of(self) -> u8 {
        match self {
            ImageCommand::WriteImage => 0x01,
            ImageCommand::UpdateKeyImage => 0x07,
            ImageCommand::UpdateFullScreen => 0x08,
            ImageCommand::Unknown(v) => v,
        }
    }

    /// Returns the command byte.
    pub fn as_u8(&self) -> (r: u8)
        ensures
            r == self.byte_of(),
    {
        match self {
            ImageCommand::WriteImage => 0x01,
            ImageCommand::UpdateKeyImage => 0x07,
            ImageCommand::UpdateFullScreen => 0x08,
            ImageCommand::Unknown(v) => *v,
        }
    }
}

impl From<u8> for ImageCommand {
    fn from(value: u8) -> (r: Self) {
        match value {
            0x01 => ImageCommand::WriteImage,
            0x07 => ImageCommand::UpdateKeyImage,
            0x08 => ImageCommand::UpdateFullScreen,
            other => ImageCommand::Unknown(other),
        }
    }
}

impl FromSpecImpl<u8> for ImageCommand {
    open spec fn obeys_from_spec() -> bool {
        true
    }

    open spec fn from_spec(value: u8) -> ImageCommand {
        ImageCommand::of_byte(value)
    }
}

/// Protocol family of an image packet.
#[derive(Debug, Clone, Copy, PartialEq, Eq, Structural)]
pub enum ImageProtocol {
    /// Module 6 (Mini): 16-byte header.
    Module6,
    /// Module 15/32 (MK.2/XL): 8-byte header.
    Module15_32,
}

/// Parsed header of an image packet.
#[derive(Debug, Clone, Copy)]
pub struct ImagePacketHeader {
    /// Report id (0x02 for images).
    pub report_id: u8,
    /// Command.
    pub command: ImageCommand,
    /// Packet sequence number (0-based).
    pub page_number: u16,
    /// Whether this is the last packet of the image.
    pub is_last: bool,
    /// Key index (0-based).
    pub key_index: u8,
    /// Size of the payload carried by this packet.
    pub chunk_size: u16,
    /// Protocol detected from the command.
    pub protocol: ImageProtocol,
    /// Header size of that protocol.
    pub header_size: usize,
}

/// Header size of Mini packets.
pub const SIZE_MINI: usize = 16;
/// Header size of MK.2/XL packets.
pub const SIZE_MK2_XL: usize = 8;

/// Little-endian u16 from two bytes.
pub open spec fn le_u16(low: u8, high: u8) -> u16 {
    (low + 256 * high) as u16
}

/// The header that a packet's bytes encode, if any: the protocol is chosen by
/// the command byte, and a packet too short for its header has none.
pub open spec fn header_spec(data: Seq<u8>) -> Option<ImagePacketHeader> {
    if data.len() < SIZE_MK2_XL {
        None
    } else {
        match ImageCommand::of_byte(data[1]) {
            ImageCommand::WriteImage => if data.len() < SIZE_MINI {
                None
            } else {
                Some(ImagePacketHeader {
                    report_id: data[0],
                    command: ImageCommand::WriteImage,
                    page_number: data[2] as u16,
                    is_last: data[4] != 0,
                    key_index: if data[5] > 0 { (data[5] - 1) as u8 } else { 0 },
                    chunk_size: ((data.len() - SIZE_MINI) % 65536) as u16,
                    protocol: ImageProtocol::Module6,
                    header_size: SIZE_MINI,
                })
            },
            ImageCommand::Unknown(_) => None,
            cmd => Some(ImagePacketHeader {
                report_id: data[0],
                command: cmd,
                page_number: le_u16(data[6], data[7]),
                is_last: data[3] != 0,
                key_index: data[2],
                chunk_size: le_u16(data[4], data[5]),
                protocol: ImageProtocol::Module15_32,
                header_size: SIZE_MK2_XL,
            }),
        }
    }
}

/// The payload of a packet with header `h`: everything after a Mini header,
/// or the next chunk-size bytes (as far as the packet goes) after an MK.2/XL header.
pub open spec fn payload_spec(data: Seq<u8>, h: ImagePacketHeader) -> Seq<u8> {
    if data.len() > h.header_size {
        let end = match h.protocol {
            ImageProtocol::Module6 => data.len() as int,
            ImageProtocol::Module15_32 => if h.header_size + h.chunk_size < data.len() {
                h.header_size + h.chunk_size
            } else {
                data.len() as int
            },
        };
        data.subrange(h.header_size as int, end)
    } else {
        Seq::empty()
    }
}

impl ImagePacketHeader {
    /// Header size for Mini (Module 6) packets.
    pub const SIZE_MINI: usize = 16;
    /// Header size for MK.2/XL (Module 15/32) packets.
    pub const SIZE_MK2_XL: usize = 8;

    /// Parses a header, choosing the protocol by the command byte.
    pub fn parse(data: &[u8]) -> (r: Option<Self>)
        ensures
            r == header_spec(data@),
    {
        if data.len() < SIZE_MK2_XL {
            return None;
        }
        let report_id = data[0];
        let command = ImageCommand::from(data[1]);
        match command {
            ImageCommand::WriteImage => {
                if data.len() < SIZE_MINI {
                    return None;
                }
                let key: u8 = if data[5] > 0 { data[5] - 1 } else { 0 };
                let extra: usize = data.len() - SIZE_MINI;
                let chunk: u16 = #[verifier::truncate] (extra as u16);
                assert(#[verifier::truncate] (extra as u16) == (extra % 65536) as u16) by (bit_vector);
                Some(ImagePacketHeader {
                    report_id,
                    command,
                    page_number: data[2] as u16,
                    is_last: data[4] != 0,
                    key_index: key,
                    chunk_size: chunk,
                    protocol: ImageProtocol::Module6,
                    header_size: SIZE_MINI,
                })
            },
            ImageCommand::UpdateKeyImage | ImageCommand::UpdateFullScreen => {
                let key_index = data[2];
                let is_last = data[3] != 0;
                let chunk_size: u16 = data[4] as u16 + 256 * (data[5] as u16);
                let page_number: u16 = data[6] as u16 + 256 * (data[7] as u16);
                Some(ImagePacketHeader {
                    report_id,
                    command,
                    page_number,
                    is_last,
                    key_index,
                    chunk_size,
                    protocol: ImageProtocol::Module15_32,
                    header_size: SIZE_MK2_XL,
                })
            },
            ImageCommand::Unknown(_) => None,
        }
    }
}

/// An image packet: parsed header and payload.
#[derive(Debug, Clone)]
pub struct ImagePacket {
    /// Parsed header.
    pub header: ImagePacketHeader,
    /// Image bytes carried by the packet.
    pub payload: Vec<u8>,
}

impl ImagePacket {
    /// Parses a whole output report into header and payload.
    pub fn parse(data: &[u8]) -> (r: Option<Self>)
        ensures
            match r {
                Some(p) => header_spec(data@) == Some(p.header) && p.payload@ == payload_spec(data@, p.header),
                None => header_spec(data@) is None,
            },
    {
        let header = match ImagePacketHeader::parse(data) {
            Some(h) => h,
            None => return None,
        };
        let payload = if data.len() > header.header_size {
            let payload_start = header.header_size;
            let payload_end = match header.protocol {
                ImageProtocol::Module6 => data.len(),
                ImageProtocol::Module15_32 => {
                    let end = payload_start + header.chunk_size as usize;
                    if end < data.len() { end } else { data.len() }
                },
            };
            vstd::slice::slice_to_vec(vstd::slice::slice_subrange(data, payload_start, payload_end))
        } else {
            Vec::new()
        };
        assert(payload@ =~= payload_spec(data@, header));
        Some(ImagePacket { header, payload })
    }
}

/// Errors of image packet handling.
#[derive(Debug, Clone, Copy, PartialEq, Eq, Structural)]
#[allow(inconsistent_fields)]
pub enum ImageError {
    /// Packet too short to parse.
    PacketTooShort { len: usize },
    /// Report id other than 0x02.
    InvalidReportId { expected: u8, got: u8 },
    /// Packet for another key than the image being assembled.
    KeyMismatch { expected: u8, got: u8 },
    /// Packet out of sequence.
    PageSequenceError { expected: u16, got: u16 },
}

/// Abstract image: key and bytes.
pub struct ImageView {
    pub key_index: u8,
    pub data: Seq<u8>,
}

/// A completed key image.
#[derive(Debug)]
pub struct ButtonImage {
    /// Key index (0-based).
    pub key_index: u8,
    /// Image bytes (BMP for the Mini, JPEG for the others).
    pub data: Vec<u8>,
    /// When the image was completed.
    pub received_at: Instant,
}

impl View for ButtonImage {
    type V = ImageView;

    open spec fn view(&self) -> ImageView {
        ImageView { key_index: self.key_index, data: self.data@ }
    }
}

/// Copies a byte vector.
fn copy_bytes(v: &Vec<u8>) -> (r: Vec<u8>)
    ensures
        r@ == v@,
{
    vstd::slice::slice_to_vec(v.as_slice())
}

impl Clone for ButtonImage {
    /// Copies the image, its timestamp included.
    fn clone(&self) -> (r: Self)
        ensures
            r@ == self@,
            r.received_at == self.received_at,
    {
        ButtonImage { key_index: self.key_index, data: copy_bytes(&self.data), received_at: self.received_at }
    }
}

impl ButtonImage {
    /// The image bytes.
    pub fn as_bytes(&self) -> (r: &[u8])
        ensures
            r@ == self.data@,
    {
        self.data.as_slice()
    }

    /// Number of image bytes.
    pub fn len(&self) -> (r: usize)
        ensures
            r == self.data@.len(),
    {
        self.data.len()
    }

    /// Whether the image has no bytes.
    pub fn is_empty(&self) -> (r: bool)
        ensures
            r == (self.data@.len() == 0),
    {
        self.data.len() == 0
    }
}

/// Event emitted when an image is updated.
#[derive(Debug)]
pub enum ImageEvent {
    /// An image was completed for a key.
    Updated {
        /// Key index (0-based).
        key_index: u8,
        /// The completed image.
        image: ButtonImage,
    },
}

impl Clone for ImageEvent {
    fn clone(&self) -> (r: Self)
        ensures
            match (r, *self) {
                (ImageEvent::Updated { key_index: k1, image: i1 }, ImageEvent::Updated { key_index: k2, image: i2 }) =>
                    k1 == k2 && i1@ == i2@ && i1.received_at == i2.received_at,
            },
    {
        match self {
            ImageEvent::Updated { key_index, image } => ImageEvent::Updated { key_index: *key_index, image: image.clone() },
        }
    }
}

/// Receiving end of the image events of an [`ImageStore`].
pub struct ImageEventReceiver {
    rx: Receiver<ImageEvent>,
}

impl ImageEventReceiver {
    /// The subscription this receiver belongs to (see
    /// [`ImageStore::subscriptions`]).
    pub closed spec fn id(&self) -> nat {
        receiver_channel(self.rx)
    }

    /// Blocks until the next event (`std::sync::mpsc::Receiver::recv`); what
    /// arrives depends on other threads.
    #[verifier::external_body]
    pub fn recv(&self) -> Result<ImageEvent, RecvError> {
        self.rx.recv()
    }

    /// Takes the next event without blocking (`std::sync::mpsc::Receiver::try_recv`);
    /// what arrives depends on other threads.
    #[verifier::external_body]
    pub fn try_recv(&self) -> Result<ImageEvent, TryRecvError> {
        self.rx.try_recv()
    }

    /// Waits at most `timeout` for the next event
    /// (`std::sync::mpsc::Receiver::recv_timeout`); what arrives depends on
    /// other threads and on time.
    #[verifier::external_body]
    pub fn recv_timeout(&self, timeout: Duration) -> Result<ImageEvent, RecvTimeoutError> {
        self.rx.recv_timeout(timeout)
    }
}

/// Statistics of image reception.
#[derive(Debug, Clone, Copy)]
pub struct ImageStats {
    /// Packets accepted for assembly.
    pub packets_received: u64,
    /// Images completed.
    pub images_completed: u64,
    /// Bytes of the accepted packets.
    pub bytes_received: u64,
    /// Packets rejected by the assembly.
    pub errors: u64,
}

/// All statistics at zero.
pub open spec fn zero_stats() -> ImageStats {
    ImageStats { packets_received: 0, images_completed: 0, bytes_received: 0, errors: 0 }
}

impl Default for ImageStats {
    fn default() -> (r: Self)
        ensures
            r == zero_stats(),
    {
        ImageStats { packets_received: 0, images_completed: 0, bytes_received: 0, errors: 0 }
    }
}

/// `a + b` wrapped into u64.
pub open spec fn wrap_u64(v: int) -> u64 {
    (v % 0x1_0000_0000_0000_0000) as u64
}

/// Abstract state of an image under assembly.
pub struct BuilderView {
    pub key_index: u8,
    pub data: Seq<u8>,
    pub next_page: u16,
}

/// A fresh builder for a key.
pub open spec fn new_builder(key: u8) -> BuilderView {
    BuilderView { key_index: key, data: Seq::empty(), next_page: 0 }
}

/// A builder restarted for a new image of the same key.
pub open spec fn reset_builder(b: BuilderView) -> BuilderView {
    BuilderView { key_index: b.key_index, data: Seq::empty(), next_page: 0 }
}

/// Adds a packet to a builder: it must be for the builder's key and carry the
/// expected page; then its payload is appended and the page count advances
/// (wrapping at 2^16). The image is complete exactly when the packet is the
/// last one.
pub open spec fn add_packet_spec(b: BuilderView, h: ImagePacketHeader, payload: Seq<u8>) -> Result<(BuilderView, bool), ImageError> {
    if h.key_index != b.key_index {
        Err(ImageError::KeyMismatch { expected: b.key_index, got: h.key_index })
    } else if h.page_number != b.next_page {
        Err(ImageError::PageSequenceError { expected: b.next_page, got: h.page_number })
    } else {
        Ok((BuilderView {
            key_index: b.key_index,
            data: b.data + payload,
            next_page: ((b.next_page + 1) % 65536) as u16,
        }, h.is_last))
    }
}

/// Builder that accumulates the packets of one key's image.
#[derive(Debug)]
struct ImageBuilder {
    key_index: u8,
    data: Vec<u8>,
    next_page: u16,
}

impl View for ImageBuilder {
    type V = BuilderView;

    closed spec fn view(&self) -> BuilderView {
        BuilderView { key_index: self.key_index, data: self.data@, next_page: self.next_page }
    }
}

/// Appends `src` to `dst`.
fn append_bytes(dst: &mut Vec<u8>, src: &[u8])
    ensures
        final(dst)@ == old(dst)@ + src@,
{
    let mut i: usize = 0;
    while i < src.len()
        invariant
            i <= src@.len(),
            dst@ == old(dst)@ + src@.take(i as int),
        decreases src@.len() - i,
    {
        dst.push(src[i]);
        i = i + 1;
        assert(dst@ =~= old(dst)@ + src@.take(i as int));
    }
    assert(src@.take(src@.len() as int) =~= src@);
}

impl ImageBuilder {
    fn new(key_index: u8) -> (r: Self)
        ensures
            r@ == new_builder(key_index),
    {
        ImageBuilder { key_index, data: Vec::with_capacity(96 * 96 * 3), next_page: 0 }
    }

    fn add_packet(&mut self, packet: &ImagePacket) -> (r: Result<bool, ImageError>)
        ensures
            match add_packet_spec(old(self)@, packet.header, packet.payload@) {
                Ok((b, c)) => r == Ok::<bool, ImageError>(c) && final(self)@ == b,
                Err(e) => r == Err::<bool, ImageError>(e) && final(self)@ == old(self)@,
            },
    {
        if packet.header.key_index != self.key_index {
            return Err(ImageError::KeyMismatch { expected: self.key_index, got: packet.header.key_index });
        }
        if packet.header.page_number != self.next_page {
            return Err(ImageError::PageSequenceError { expected: self.next_page, got: packet.header.page_number });
        }
        append_bytes(&mut self.data, packet.payload.as_slice());
        self.next_page = self.next_page.wrapping_add(1);
        Ok(packet.header.is_last)
    }

    fn reset(&mut self)
        ensures
            final(self)@ == reset_builder(old(self)@),
    {
        self.data.clear();
        self.next_page = 0;
    }
}

/// Abstract state of an image store: completed images and builders by key,
/// and the statistics.
pub struct ImageStoreView {
    pub images: Map<u8, ImageView>,
    pub builders: Map<u8, BuilderView>,
    pub stats: ImageStats,
}

/// The store after one output report, and the answer: the key whose image it
/// completed, `None` if more packets are needed, or the error.
pub open spec fn process_spec(s: ImageStoreView, data: Seq<u8>) -> (ImageStoreView, Result<Option<u8>, ImageError>) {
    if data.len() < SIZE_MK2_XL {
        (s, Err(ImageError::PacketTooShort { len: data.len() as usize }))
    } else if data[0] != 0x02 {
        (s, Err(ImageError::InvalidReportId { expected: 0x02, got: data[0] }))
    } else {
        match header_spec(data) {
            None => (s, Err(ImageError::PacketTooShort { len: data.len() as usize })),
            Some(h) => {
                let payload = payload_spec(data, h);
                let k = h.key_index;
                let stats = ImageStats {
                    packets_received: wrap_u64(s.stats.packets_received + 1),
                    bytes_received: wrap_u64(s.stats.bytes_received + data.len()),
                    ..s.stats
                };
                let b0 = if s.builders.contains_key(k) { s.builders[k] } else { new_builder(k) };
                let b1 = if h.page_number == 0 { reset_builder(b0) } else { b0 };
                match add_packet_spec(b1, h, payload) {
                    Err(e) => (ImageStoreView {
                        images: s.images,
                        builders: s.builders.insert(k, reset_builder(b1)),
                        stats: ImageStats { errors: wrap_u64(stats.errors + 1), ..stats },
                    }, Err(e)),
                    Ok((b2, true)) => (ImageStoreView {
                        images: s.images.insert(k, ImageView { key_index: k, data: b2.data }),
                        builders: s.builders.insert(k, BuilderView { data: Seq::empty(), ..b2 }),
                        stats: ImageStats { images_completed: wrap_u64(stats.images_completed + 1), ..stats },
                    }, Ok(Some(k))),
                    Ok((b2, false)) => (ImageStoreView {
                        images: s.images,
                        builders: s.builders.insert(k, b2),
                        stats,
                    }, Ok(None)),
                }
            },
        }
    }
}

/// What a subscriber is sent of an image event: the key and the image.
pub open spec fn event_entry(e: ImageEvent) -> (u8, ImageView) {
    match e {
        ImageEvent::Updated { key_index, image } => (key_index, image@),
    }
}

/// A subscription: its channel and the image events sent through it, oldest
/// first.
pub type Subscription = (nat, Seq<(u8, ImageView)>);

/// The subscriptions after `e` is sent through every one of them.
pub open spec fn offer_all(subs: Seq<Subscription>, e: (u8, ImageView)) -> Seq<Subscription> {
    subs.map_values(|s: Subscription| (s.0, s.1.push(e)))
}

/// Some sending end of channel `c` found its receiving end dropped.
pub open spec fn channel_closed(c: nat) -> bool {
    exists|g: Sender<ImageEvent>| #[trigger] receiver_gone(g) && sender_channel(g) == c
}

/// Every subscription of `before` has had `e` sent through it and is still in
/// `after`, unless its receiving end was found dropped.
pub open spec fn offered_unless_closed(after: Seq<Subscription>, before: Seq<Subscription>, e: (u8, ImageView)) -> bool {
    forall|i: int| 0 <= i < before.len() ==>
        after.contains((before[i].0, #[trigger] before[i].1.push(e))) || channel_closed(before[i].0)
}

/// `a` is `b` with some elements left out, the others in their order.
pub open spec fn sub_of<A>(a: Seq<A>, b: Seq<A>) -> bool
    decreases b.len(),
{
    if a.len() == 0 {
        true
    } else if b.len() == 0 {
        false
    } else {
        (a.last() == b.last() && sub_of(a.drop_last(), b.drop_last())) || sub_of(a, b.drop_last())
    }
}

/// Appending the same element to both sides keeps `sub_of`, and so does
/// appending to the larger side alone.
proof fn lemma_sub_of_push<A>(a: Seq<A>, b: Seq<A>, x: A)
    requires
        sub_of(a, b),
    ensures
        sub_of(a.push(x), b.push(x)),
        sub_of(a, b.push(x)),
{
    assert(a.push(x).drop_last() =~= a);
    assert(b.push(x).drop_last() =~= b);
}

/// What is left of a sequence after leaving elements out is no longer, and
/// each of its elements comes from the sequence.
proof fn lemma_sub_of_elements<A>(a: Seq<A>, b: Seq<A>)
    requires
        sub_of(a, b),
    ensures
        a.len() <= b.len(),
        forall|i: int| 0 <= i < a.len() ==> exists|j: int| 0 <= j < b.len() && #[trigger] a[i] == b[j],
    decreases b.len(),
{
    if a.len() > 0 {
        if a.last() == b.last() && sub_of(a.drop_last(), b.drop_last()) {
            lemma_sub_of_elements(a.drop_last(), b.drop_last());
            assert forall|i: int| 0 <= i < a.len() implies exists|j: int| 0 <= j < b.len() && #[trigger] a[i] == b[j] by {
                if i < a.len() - 1 {
                    assert(a[i] == a.drop_last()[i]);
                    let j = choose|j: int| 0 <= j < b.drop_last().len() && a.drop_last()[i] == b.drop_last()[j];
                    assert(b.drop_last()[j] == b[j]);
                } else {
                    assert(a[i] == b[b.len() - 1]);
                }
            }
        } else {
            lemma_sub_of_elements(a, b.drop_last());
            assert forall|i: int| 0 <= i < a.len() implies exists|j: int| 0 <= j < b.len() && #[trigger] a[i] == b[j] by {
                let j = choose|j: int| 0 <= j < b.drop_last().len() && a[i] == b.drop_last()[j];
                assert(b.drop_last()[j] == b[j]);
            }
        }
    }
}

/// After an event is sent, every subscription left is one that was there
/// before, on the same channel, whose sent events are the ones it had plus
/// the new event at the end; none is added.
pub proof fn law_offer_reaches_survivors(after: Seq<Subscription>, before: Seq<Subscription>, e: (u8, ImageView))
    requires
        sub_of(after, offer_all(before, e)),
    ensures
        after.len() <= before.len(),
        forall|i: int| 0 <= i < after.len() ==> exists|j: int| 0 <= j < before.len()
            && #[trigger] after[i].0 == before[j].0 && after[i].1 == before[j].1.push(e),
{
    lemma_sub_of_elements(after, offer_all(before, e));
    assert forall|i: int| 0 <= i < after.len() implies exists|j: int| 0 <= j < before.len()
        && #[trigger] after[i].0 == before[j].0 && after[i].1 == before[j].1.push(e) by {
        let j = choose|j: int| 0 <= j < offer_all(before, e).len() && after[i] == offer_all(before, e)[j];
        assert(offer_all(before, e)[j] == (before[j].0, before[j].1.push(e)));
    }
}

/// The sending end of one subscriber's channel.
struct Subscriber {
    tx: Sender<ImageEvent>,
}

/// The subscriptions of a list of subscribers: each one's channel and what
/// was sent through it.
spec fn subscriptions_of(subs: Seq<Subscriber>) -> Seq<Subscription> {
    subs.map_values(|s: Subscriber| (sender_channel(s.tx), sent_events(s.tx)))
}

/// Store of key images: it assembles image packets into images, keeps the
/// latest completed image of each key, and notifies subscribers.
pub struct ImageStore {
    images: HashMap<u8, ButtonImage>,
    builders: HashMap<u8, ImageBuilder>,
    stats: ImageStats,
    subscribers: Vec<Subscriber>,
}

impl View for ImageStore {
    type V = ImageStoreView;

    closed spec fn view(&self) -> ImageStoreView {
        ImageStoreView {
            images: self.images@.map_values(|i: ButtonImage| i@),
            builders: self.builders@.map_values(|b: ImageBuilder| b@),
            stats: self.stats,
        }
    }
}

impl Default for ImageStore {
    fn default() -> (r: Self)
        ensures
            r@.images == Map::<u8, ImageView>::empty(),
            r@.builders == Map::<u8, BuilderView>::empty(),
            r@.stats == zero_stats(),
            r.subscriptions() == Seq::<Subscription>::empty(),
    {
        Self::new()
    }
}

impl ImageStore {
    /// The live subscriptions, in the order they were made: each one's channel and
    /// the image events sent through its channel since it was made.
    pub closed spec fn subscriptions(&self) -> Seq<Subscription> {
        subscriptions_of(self.subscribers@)
    }

    /// When the completed image of a key was stored.
    pub closed spec fn received_at(&self, key_index: u8) -> Instant {
        self.images@[key_index].received_at
    }

    /// Creates an empty store.
    pub fn new() -> (r: Self)
        ensures
            r@.images == Map::<u8, ImageView>::empty(),
            r@.builders == Map::<u8, BuilderView>::empty(),
            r@.stats == zero_stats(),
            r.subscriptions() == Seq::<Subscription>::empty(),
    {
        let r = ImageStore {
            images: HashMap::new(),
            builders: HashMap::new(),
            stats: ImageStats { packets_received: 0, images_completed: 0, bytes_received: 0, errors: 0 },
            subscribers: Vec::new(),
        };
        assert(r@.images =~= Map::<u8, ImageView>::empty());
        assert(r@.builders =~= Map::<u8, BuilderView>::empty());
        assert(r.subscriptions() =~= Seq::<Subscription>::empty());
        r
    }

    /// Subscribes to image events: every image completed from now on is sent
    /// to the returned receiver, for as long as it exists. The new
    /// subscription comes last; it is the channel of the returned receiver,
    /// and nothing has been sent through it yet.
    pub fn subscribe(&mut self) -> (r: ImageEventReceiver)
        ensures
            final(self)@ == old(self)@,
            final(self).subscriptions() == old(self).subscriptions().push((r.id(), Seq::<(u8, ImageView)>::empty())),
    {
        let (tx, rx) = open_channel();
        let ghost sub = (sender_channel(tx), sent_events(tx));
        self.subscribers.push(Subscriber { tx });
        assert(self.subscriptions() =~= old(self).subscriptions().push(sub));
        ImageEventReceiver { rx }
    }

    /// Sends an event to every subscriber and drops those whose receiver is
    /// gone; each one kept has had the event sent through its channel.
    fn notify(&mut self, event: &ImageEvent)
        ensures
            final(self)@ == old(self)@,
            final(self).images == old(self).images,
            sub_of(final(self).subscriptions(), offer_all(old(self).subscriptions(), event_entry(*event))),
            offered_unless_closed(final(self).subscriptions(), old(self).subscriptions(), event_entry(*event)),
    {
        let ghost e = event_entry(*event);
        let ghost old_subs = subscriptions_of(self.subscribers@);
        let mut pending: Vec<Subscriber> = Vec::new();
        std::mem::swap(&mut pending, &mut self.subscribers);
        let ghost total = pending@.len();
        let ghost original = pending@;
        assert(subscriptions_of(self.subscribers@) =~= Seq::<Subscription>::empty());
        assert(offer_all(old_subs, e).take(0) =~= Seq::<Subscription>::empty());
        while pending.len() > 0
            invariant
                self@ == old(self)@,
                self.images == old(self).images,
                e == event_entry(*event),
                original.len() == total,
                old_subs == subscriptions_of(original),
                pending@.len() <= total,
                pending@ == original.skip(total - pending@.len()),
                sub_of(subscriptions_of(self.subscribers@), offer_all(old_subs, e).take(total - pending@.len())),
                offered_unless_closed(subscriptions_of(self.subscribers@), old_subs.take(total - pending@.len()), e),
            decreases pending@.len(),
        {
            let ghost done = total - pending@.len();
            let mut sub = pending.remove(0);
            assert(sub == original[done]);
            assert(pending@ =~= original.skip(total - pending@.len()));
            let ghost before = subscriptions_of(self.subscribers@);
            let ghost target = offer_all(old_subs, e);
            let ghost entry = (sender_channel(sub.tx), sent_events(sub.tx).push(e));
            assert(target.take(done + 1) =~= target.take(done).push(entry));
            proof { lemma_sub_of_push(before, target.take(done), entry); }
            let ghost tx0 = sub.tx;
            if deliver(&mut sub.tx, event.clone()) {
                self.subscribers.push(sub);
                assert(subscriptions_of(self.subscribers@) =~= before.push(entry));
                assert(subscriptions_of(self.subscribers@)[before.len() as int] == entry);
            } else {
                assert(receiver_gone(sub.tx) && sender_channel(sub.tx) == sender_channel(tx0));
            }
            let ghost now_subs = subscriptions_of(self.subscribers@);
            assert(old_subs[done] == (sender_channel(tx0), sent_events(tx0)));
            assert forall|i: int| 0 <= i < old_subs.take(done + 1).len() implies
                now_subs.contains((old_subs.take(done + 1)[i].0, #[trigger] old_subs.take(done + 1)[i].1.push(e)))
                || channel_closed(old_subs.take(done + 1)[i].0) by {
                if i < done {
                    assert(old_subs.take(done + 1)[i] == old_subs.take(done)[i]);
                    if before.contains((old_subs.take(done)[i].0, old_subs.take(done)[i].1.push(e))) {
                        let j = choose|j: int| 0 <= j < before.len() && before[j] == (old_subs.take(done)[i].0, old_subs.take(done)[i].1.push(e));
                        assert(now_subs[j] == before[j]);
                    }
                }
            }
        }
        assert(offer_all(old_subs, e).take(total as int) =~= offer_all(old_subs, e));
        assert(old_subs.take(total as int) =~= old_subs);
    }

    /// Processes one output report.
    ///
    /// Returns `Ok(Some(key))` when the report completed the image of `key`
    /// (0-based), `Ok(None)` when more packets are needed, and an error when
    /// the report is too short, is not an image report, or is out of sequence;
    /// after a sequence error the key's assembly starts over.
    pub fn process_packet(&mut self, data: &[u8]) -> (r: Result<Option<u8>, ImageError>)
        ensures
            (final(self)@, r) == process_spec(old(self)@, data@),
            match r {
                Ok(Some(k)) => sub_of(final(self).subscriptions(), offer_all(old(self).subscriptions(), (k, final(self)@.images[k])))
                    && offered_unless_closed(final(self).subscriptions(), old(self).subscriptions(), (k, final(self)@.images[k])),
                _ => final(self).subscriptions() == old(self).subscriptions(),
            },
    {
        if data.len() < SIZE_MK2_XL {
            return Err(ImageError::PacketTooShort { len: data.len() });
        }
        if data[0] != 0x02 {
            return Err(ImageError::InvalidReportId { expected: 0x02, got: data[0] });
        }
        let packet = match ImagePacket::parse(data) {
            Some(p) => p,
            None => return Err(ImageError::PacketTooShort { len: data.len() }),
        };
        let ghost s = old(self)@;
        self.stats.packets_received = self.stats.packets_received.wrapping_add(1);
        self.stats.bytes_received = self.stats.bytes_received.wrapping_add(data.len() as u64);
        let key_index = packet.header.key_index;
        let mut builder = match self.builders.remove(&key_index) {
            Some(b) => b,
            None => ImageBuilder::new(key_index),
        };
        if packet.header.page_number == 0 {
            builder.reset();
        }
        let ghost b1 = builder@;
        let add_result = builder.add_packet(&packet);
        match add_result {
            Ok(complete) => {
                if complete {
                    let mut image_data: Vec<u8> = Vec::new();
                    std::mem::swap(&mut image_data, &mut builder.data);
                    self.builders.insert(key_index, builder);
                    let image = ButtonImage { key_index, data: image_data, received_at: now() };
                    let event = ImageEvent::Updated { key_index, image: image.clone() };
                    self.notify(&event);
                    self.images.insert(key_index, image);
                    self.stats.images_completed = self.stats.images_completed.wrapping_add(1);
                    assert(self@.images =~= process_spec(s, data@).0.images);
                    assert(self@.builders =~= process_spec(s, data@).0.builders);
                    Ok(Some(key_index))
                } else {
                    self.builders.insert(key_index, builder);
                    assert(self@.images =~= process_spec(s, data@).0.images);
                    assert(self@.builders =~= process_spec(s, data@).0.builders);
                    Ok(None)
                }
            },
            Err(e) => {
                self.stats.errors = self.stats.errors.wrapping_add(1);
                builder.reset();
                self.builders.insert(key_index, builder);
                assert(self@.images =~= process_spec(s, data@).0.images);
                assert(self@.builders =~= process_spec(s, data@).0.builders);
                Err(e)
            },
        }
    }

    /// Returns a copy of the completed image of a key (0-based), if any.
    pub fn get_image(&self, key_index: u8) -> (r: Option<ButtonImage>)
        ensures
            match r {
                Some(img) => self@.images.contains_key(key_index) && img@ == self@.images[key_index]
                    && img.received_at == self.received_at(key_index),
                None => !self@.images.contains_key(key_index),
            },
    {
        match self.images.get(&key_index) {
            Some(img) => Some(img.clone()),
            None => None,
        }
    }

    /// Returns a copy of all completed images.
    pub fn get_all_images(&self) -> (r: HashMap<u8, ButtonImage>)
        ensures
            r@.map_values(|i: ButtonImage| i@) == self@.images,
    {
        self.images.clone()
    }

    /// Returns the statistics.
    pub fn stats(&self) -> (r: ImageStats)
        ensures
            r == self@.stats,
    {
        self.stats
    }

    /// Drops all completed images and all images under assembly.
    pub fn clear(&mut self)
        ensures
            final(self)@.images == Map::<u8, ImageView>::empty(),
            final(self)@.builders == Map::<u8, BuilderView>::empty(),
            final(self)@.stats == old(self)@.stats,
            final(self).subscriptions() == old(self).subscriptions(),
    {
        self.images.clear();
        self.builders.clear();
        assert(self@.images =~= Map::<u8, ImageView>::empty());
        assert(self@.builders =~= Map::<u8, BuilderView>::empty());
    }
}

} // verus!
