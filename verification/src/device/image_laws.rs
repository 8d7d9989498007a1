//! Laws of image reassembly: what the store gives back of the packets it was sent.

use vstd::prelude::*;
use crate::bytes::{hi, lo, zeros};
use crate::device::image::{
    header_spec, le_u16, payload_spec, process_spec, BuilderView, ImageCommand, ImageError, ImagePacketHeader,
    ImageProtocol, ImageStoreView, ImageView, SIZE_MINI, SIZE_MK2_XL,
};

verus! {

/// The bytes of all parts, one after the other.
pub open spec fn concat(parts: Seq<Seq<u8>>) -> Seq<u8>
    decreases parts.len(),
{
    if parts.len() == 0 {
        Seq::empty()
    } else {
        concat(parts.drop_last()) + parts.last()
    }
}

/// The store and the answers after processing `packets` in order.
pub open spec fn feed(s: ImageStoreView, packets: Seq<Seq<u8>>) -> (ImageStoreView, Seq<Result<Option<u8>, ImageError>>)
    decreases packets.len(),
{
    if packets.len() == 0 {
        (s, Seq::empty())
    } else {
        let (s1, rs) = feed(s, packets.drop_last());
        let (s2, r) = process_spec(s1, packets.last());
        (s2, rs.push(r))
    }
}

/// Every image under assembly is stored under its own key.
pub open spec fn builders_keyed(s: ImageStoreView) -> bool {
    forall|k: u8| #[trigger] s.builders.contains_key(k) ==> s.builders[k].key_index == k
}

/// An MK.2/XL image packet (command 0x07) for `key`, page `page`, with `payload`.
pub open spec fn mk2_packet(key: u8, page: u16, last: bool, payload: Seq<u8>) -> Seq<u8> {
    seq![0x02u8, 0x07, key, if last { 1u8 } else { 0u8 }, lo(payload.len() as u16), hi(payload.len() as u16), lo(page), hi(page)]
        + payload
}

/// A Mini image packet (command 0x01) for the 1-based key `key1`, page `page`, with `payload`.
pub open spec fn mini_packet(key1: u8, page: u8, last: bool, payload: Seq<u8>) -> Seq<u8> {
    seq![0x02u8, 0x01, page, 0x00, if last { 1u8 } else { 0u8 }, key1] + zeros(10) + payload
}

/// The MK.2/XL packets that carry an image in `payloads.len()` parts.
pub open spec fn mk2_image(key: u8, payloads: Seq<Seq<u8>>) -> Seq<Seq<u8>> {
    Seq::new(payloads.len(), |i: int| mk2_packet(key, i as u16, i == payloads.len() - 1, payloads[i]))
}

/// The Mini packets that carry an image in `payloads.len()` parts.
pub open spec fn mini_image(key1: u8, payloads: Seq<Seq<u8>>) -> Seq<Seq<u8>> {
    Seq::new(payloads.len(), |i: int| mini_packet(key1, i as u8, i == payloads.len() - 1, payloads[i]))
}

/// `packets` carry one image of `key` in order: packet i is an image report
/// with page i, the last-packet flag only on the final one, and `payloads[i]`.
pub open spec fn is_image_transfer(packets: Seq<Seq<u8>>, key: u8, payloads: Seq<Seq<u8>>) -> bool {
    &&& packets.len() == payloads.len()
    &&& forall|i: int| 0 <= i < packets.len() ==> {
        let p = #[trigger] packets[i];
        &&& p.len() >= SIZE_MK2_XL
        &&& p[0] == 0x02
        &&& header_spec(p) matches Some(h) && h.key_index == key && h.page_number == i
            && h.is_last == (i == packets.len() - 1) && payload_spec(p, h) == payloads[i]
    }
}

proof fn lemma_lo_hi(v: u16)
    ensures
        le_u16(lo(v), hi(v)) == v,
{
}

/// An MK.2/XL packet parses back into the key, page, last flag and payload it
/// was built from.
pub proof fn law_mk2_packet_parses(key: u8, page: u16, last: bool, payload: Seq<u8>)
    requires
        payload.len() < 65536,
    ensures
        header_spec(mk2_packet(key, page, last, payload)) == Some(ImagePacketHeader {
            report_id: 0x02,
            command: ImageCommand::UpdateKeyImage,
            page_number: page,
            is_last: last,
            key_index: key,
            chunk_size: payload.len() as u16,
            protocol: ImageProtocol::Module15_32,
            header_size: SIZE_MK2_XL,
        }),
        payload_spec(mk2_packet(key, page, last, payload), header_spec(mk2_packet(key, page, last, payload))->0) == payload,
{
    let p = mk2_packet(key, page, last, payload);
    lemma_lo_hi(page);
    lemma_lo_hi(payload.len() as u16);
    assert(p[1] == 0x07);
    let h = header_spec(p)->0;
    assert(h.chunk_size == payload.len());
    assert(p.subrange(8, p.len() as int) =~= payload);
}

/// A Mini packet parses back into the 0-based key, page, last flag and payload
/// it was built from.
pub proof fn law_mini_packet_parses(key1: u8, page: u8, last: bool, payload: Seq<u8>)
    requires
        key1 >= 1,
    ensures
        header_spec(mini_packet(key1, page, last, payload)) matches Some(h) && h.report_id == 0x02
            && h.command == ImageCommand::WriteImage && h.page_number == page as u16 && h.is_last == last
            && h.key_index == key1 - 1 && h.protocol == ImageProtocol::Module6 && h.header_size == SIZE_MINI
            && payload_spec(mini_packet(key1, page, last, payload), h) == payload,
{
    let p = mini_packet(key1, page, last, payload);
    assert(p[1] == 0x01);
    assert(p.subrange(16, p.len() as int) =~= payload);
}

/// Processing keeps every image under assembly stored under its own key, so a
/// key mismatch never happens in a store built by these operations.
pub proof fn law_processing_keeps_builders_keyed(s: ImageStoreView, data: Seq<u8>)
    requires
        builders_keyed(s),
    ensures
        builders_keyed(process_spec(s, data).0),
        !(process_spec(s, data).1 matches Err(ImageError::KeyMismatch { .. })),
{
    let s2 = process_spec(s, data).0;
    assert forall|k: u8| #[trigger] s2.builders.contains_key(k) implies s2.builders[k].key_index == k by {
        if s.builders.contains_key(k) {
        }
    }
}

/// Packets never touch the images of keys other than their own.
pub proof fn law_other_keys_untouched(s: ImageStoreView, data: Seq<u8>, other: u8)
    requires
        header_spec(data) matches Some(h) && h.key_index != other,
    ensures
        process_spec(s, data).0.images.contains_key(other) == s.images.contains_key(other),
        process_spec(s, data).0.images[other] == s.images[other],
{
}

/// After a sequence error, the key's assembly starts over: the next image
/// must begin with page 0.
pub proof fn law_sequence_error_restarts(s: ImageStoreView, data: Seq<u8>)
    requires
        process_spec(s, data).1 matches Err(ImageError::PageSequenceError { .. }),
    ensures
        header_spec(data) matches Some(h) && ({
            let b = process_spec(s, data).0.builders[h.key_index];
            b.next_page == 0 && b.data.len() == 0
        }),
{
}

/// An image report is reported complete only when it carries the last-packet
/// flag: a packet without it answers `None` or an error, in any store.
pub proof fn law_only_last_packet_completes(s: ImageStoreView, data: Seq<u8>)
    ensures
        process_spec(s, data).1 matches Ok(Some(k)) ==> (header_spec(data) matches Some(h) && h.is_last
            && h.key_index == k),
{
}

proof fn lemma_feed_prefix(s: ImageStoreView, packets: Seq<Seq<u8>>, key: u8, payloads: Seq<Seq<u8>>, m: nat)
    requires
        builders_keyed(s),
        is_image_transfer(packets, key, payloads),
        1 <= m < packets.len(),
        packets.len() <= 65536,
    ensures
        ({
            let (s2, rs) = feed(s, packets.take(m as int));
            &&& s2.images == s.images
            &&& builders_keyed(s2)
            &&& s2.builders.contains_key(key)
            &&& s2.builders[key] == (BuilderView {
                key_index: key,
                data: concat(payloads.take(m as int)),
                next_page: m as u16,
            })
            &&& rs.len() == m
            &&& forall|i: int| 0 <= i < m ==> rs[i] == Ok::<Option<u8>, ImageError>(None)
        }),
    decreases m,
{
    let pm = packets.take(m as int);
    assert(pm.drop_last() =~= packets.take(m - 1));
    assert(pm.last() == packets[m - 1]);
    assert(payloads.take(m as int).drop_last() =~= payloads.take(m - 1));
    let p = packets[m - 1];
    let h = header_spec(p)->0;
    if m == 1 {
        assert(packets.take(0) =~= Seq::<Seq<u8>>::empty());
        assert(payloads.take(0) =~= Seq::<Seq<u8>>::empty());
        assert(concat(payloads.take(1)) =~= payloads[0]);
        let (s2, rs) = feed(s, pm);
        assert(builders_keyed(s2)) by {
            law_processing_keeps_builders_keyed(s, p);
        }
        assert(rs =~= seq![Ok::<Option<u8>, ImageError>(None)]);
    } else {
        lemma_feed_prefix(s, packets, key, payloads, (m - 1) as nat);
        let (s1, rs1) = feed(s, packets.take(m - 1));
        law_processing_keeps_builders_keyed(s1, p);
        let (s2, rs) = feed(s, pm);
        assert(concat(payloads.take(m as int)) == concat(payloads.take(m - 1)) + payloads[m - 1]);
        assert forall|i: int| 0 <= i < m implies rs[i] == Ok::<Option<u8>, ImageError>(None) by {
            if i < m - 1 {
                assert(rs[i] == rs1[i]);
            }
        }
    }
}

/// Sending an image as a sequence of packets for one key, pages 0, 1, 2, ...
/// with the last-packet flag only on the final one, stores exactly the
/// concatenated payloads as that key's image: every packet but the last
/// answers `None`, the last answers `Some(key)`, and no other key's image
/// changes.
pub proof fn law_image_reassembly(s: ImageStoreView, packets: Seq<Seq<u8>>, key: u8, payloads: Seq<Seq<u8>>)
    requires
        builders_keyed(s),
        is_image_transfer(packets, key, payloads),
        1 <= packets.len() <= 65536,
    ensures
        ({
            let (s2, rs) = feed(s, packets);
            &&& s2.images == s.images.insert(key, ImageView { key_index: key, data: concat(payloads) })
            &&& builders_keyed(s2)
            &&& rs.len() == packets.len()
            &&& rs.last() == Ok::<Option<u8>, ImageError>(Some(key))
            &&& forall|i: int| 0 <= i < packets.len() - 1 ==> rs[i] == Ok::<Option<u8>, ImageError>(None)
        }),
{
    let n = packets.len();
    let p = packets[n - 1];
    assert(packets.drop_last() =~= packets.take(n - 1));
    assert(payloads.drop_last() =~= payloads.take(n - 1));
    if n == 1 {
        assert(packets.take(0) =~= Seq::<Seq<u8>>::empty());
        assert(payloads.take(0) =~= Seq::<Seq<u8>>::empty());
        assert(concat(payloads) =~= payloads[0]);
        law_processing_keeps_builders_keyed(s, p);
    } else {
        lemma_feed_prefix(s, packets, key, payloads, (n - 1) as nat);
        let (s1, rs1) = feed(s, packets.take(n - 1));
        law_processing_keeps_builders_keyed(s1, p);
        let (s2, rs) = feed(s, packets);
        assert(concat(payloads) == concat(payloads.take(n - 1)) + payloads[n - 1]);
        assert forall|i: int| 0 <= i < n - 1 implies rs[i] == Ok::<Option<u8>, ImageError>(None) by {
            assert(rs[i] == rs1[i]);
        }
    }
}

/// `p` is an image report for `key`: long enough, report id 0x02, and a
/// header for that key.
pub open spec fn touches(p: Seq<u8>, key: u8) -> bool {
    &&& p.len() >= SIZE_MK2_XL
    &&& p[0] == 0x02
    &&& header_spec(p) matches Some(h) && h.key_index == key
}

/// The image reports for `key` among `packets`, in their order.
pub open spec fn key_packets(packets: Seq<Seq<u8>>, key: u8) -> Seq<Seq<u8>>
    decreases packets.len(),
{
    if packets.len() == 0 {
        Seq::empty()
    } else {
        let rest = key_packets(packets.drop_last(), key);
        if touches(packets.last(), key) { rest.push(packets.last()) } else { rest }
    }
}

/// `packets` are the first packets of an image of `key` sent in
/// `payloads.len()` parts: packet i has page i, `payloads[i]`, and the
/// last-packet flag exactly when it is part `payloads.len() - 1`.
pub open spec fn is_transfer_prefix(packets: Seq<Seq<u8>>, key: u8, payloads: Seq<Seq<u8>>) -> bool {
    &&& packets.len() <= payloads.len()
    &&& forall|i: int| 0 <= i < packets.len() ==> {
        let p = #[trigger] packets[i];
        &&& p.len() >= SIZE_MK2_XL
        &&& p[0] == 0x02
        &&& header_spec(p) matches Some(h) && h.key_index == key && h.page_number == i
            && h.is_last == (i == payloads.len() - 1) && payload_spec(p, h) == payloads[i]
    }
}

/// A packet that is no image report for `key` leaves that key alone: its
/// image, and its image under assembly, stay as they were.
pub proof fn law_other_packets_leave_key(s: ImageStoreView, data: Seq<u8>, key: u8)
    requires
        !touches(data, key),
    ensures
        process_spec(s, data).0.images.contains_key(key) == s.images.contains_key(key),
        process_spec(s, data).0.images[key] == s.images[key],
        process_spec(s, data).0.builders.contains_key(key) == s.builders.contains_key(key),
        process_spec(s, data).0.builders[key] == s.builders[key],
{
}

/// Reassembly with other traffic in between: when the image reports for
/// `key` among `packets` are the first parts of an image of `key`, the
/// reports for other keys, and the packets that are no image reports, change
/// nothing of it. While parts are missing the key's image under assembly
/// holds the parts so far; once all have come the key's image is their
/// concatenation. A report for `key` is answered `Some(key)` when it is the
/// final part and `None` before.
pub proof fn law_interleaved_reassembly(s: ImageStoreView, packets: Seq<Seq<u8>>, key: u8, payloads: Seq<Seq<u8>>)
    requires
        builders_keyed(s),
        is_transfer_prefix(key_packets(packets, key), key, payloads),
        1 <= payloads.len() <= 65536,
    ensures
        ({
            let m = key_packets(packets, key).len();
            let (s2, rs) = feed(s, packets);
            &&& builders_keyed(s2)
            &&& 1 <= m < payloads.len() ==> s2.builders.contains_key(key) && s2.builders[key] == (BuilderView {
                key_index: key,
                data: concat(payloads.take(m as int)),
                next_page: m as u16,
            })
            &&& m == payloads.len() ==> s2.images.contains_key(key)
                && s2.images[key] == (ImageView { key_index: key, data: concat(payloads) })
            &&& packets.len() > 0 && touches(packets.last(), key) ==> rs.last() == (if m == payloads.len() {
                Ok::<Option<u8>, ImageError>(Some(key))
            } else {
                Ok::<Option<u8>, ImageError>(None)
            })
        }),
    decreases packets.len(),
{
    if packets.len() > 0 {
        let ps = packets.drop_last();
        let p = packets.last();
        let f1 = key_packets(ps, key);
        let f = key_packets(packets, key);
        assert(is_transfer_prefix(f1, key, payloads)) by {
            if touches(p, key) {
                assert forall|i: int| 0 <= i < f1.len() implies #[trigger] f1[i] == f[i] by {
                    assert(f == f1.push(p));
                }
            }
        }
        law_interleaved_reassembly(s, ps, key, payloads);
        let (s1, rs1) = feed(s, ps);
        law_processing_keeps_builders_keyed(s1, p);
        if touches(p, key) {
            let m = f.len();
            assert(f == f1.push(p));
            assert(f[m - 1] == p);
            let h = header_spec(p)->0;
            assert(h.page_number == m - 1);
            assert(payload_spec(p, h) == payloads[m - 1]);
            assert(payloads.take(m as int).drop_last() =~= payloads.take(m - 1));
            assert(concat(payloads.take(m as int)) == concat(payloads.take(m - 1)) + payloads[m - 1]);
            if m == 1 {
                assert(payloads.take(0) =~= Seq::<Seq<u8>>::empty());
                assert(concat(payloads.take(1)) =~= payloads[0]);
            }
            if m == payloads.len() {
                assert(payloads.take(m as int) =~= payloads);
            }
        } else {
            law_other_packets_leave_key(s1, p, key);
        }
    }
}

/// The MK.2/XL packets of an image are an image transfer for their key.
pub proof fn law_mk2_image_is_transfer(key: u8, payloads: Seq<Seq<u8>>)
    requires
        payloads.len() <= 65536,
        forall|i: int| 0 <= i < payloads.len() ==> (#[trigger] payloads[i]).len() < 65536,
    ensures
        is_image_transfer(mk2_image(key, payloads), key, payloads),
{
    let packets = mk2_image(key, payloads);
    assert forall|i: int| 0 <= i < packets.len() implies {
        let p = #[trigger] packets[i];
        &&& p.len() >= SIZE_MK2_XL
        &&& p[0] == 0x02
        &&& header_spec(p) matches Some(h) && h.key_index == key && h.page_number == i
            && h.is_last == (i == packets.len() - 1) && payload_spec(p, h) == payloads[i]
    } by {
        law_mk2_packet_parses(key, i as u16, i == payloads.len() - 1, payloads[i]);
    }
}

/// The Mini packets of an image are an image transfer for the 0-based key.
pub proof fn law_mini_image_is_transfer(key1: u8, payloads: Seq<Seq<u8>>)
    requires
        key1 >= 1,
        payloads.len() <= 256,
    ensures
        is_image_transfer(mini_image(key1, payloads), (key1 - 1) as u8, payloads),
{
    let packets = mini_image(key1, payloads);
    assert forall|i: int| 0 <= i < packets.len() implies {
        let p = #[trigger] packets[i];
        &&& p.len() >= SIZE_MK2_XL
        &&& p[0] == 0x02
        &&& header_spec(p) matches Some(h) && h.key_index == (key1 - 1) as u8 && h.page_number == i
            && h.is_last == (i == packets.len() - 1) && payload_spec(p, h) == payloads[i]
    } by {
        law_mini_packet_parses(key1, i as u8, i == payloads.len() - 1, payloads[i]);
    }
}

/// A new store, and a cleared one, keep their images under assembly keyed.
pub proof fn law_empty_store_keyed(s: ImageStoreView)
    requires
        s.builders == Map::<u8, BuilderView>::empty(),
    ensures
        builders_keyed(s),
{
}

} // verus!
