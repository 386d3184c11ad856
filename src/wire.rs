//! The MAVLink wire protocol, as the codec uses it: decoding one frame from
//! a byte sequence and serializing one frame.
use crate::entry::{FrameHeader, MavlinkVersion};
use mavlink::ardupilotmega::MavMessage;
use vstd::prelude::*;

verus! {

/// What `mavlink::read_versioned_msg` makes of `input` with the given major
/// version: the header of the frame it decoded, or `None` when it failed, and
/// the number of bytes of `input` it consumed.
pub uninterp spec fn mavlink_read(input: Seq<u8>, version: u8) -> (Option<(u8, u8, u8)>, nat);

/// Relies on `mavlink::read_versioned_msg` (ardupilotmega dialect) reading
/// from a `PeekReader` over `input`. Beside the decoded frame it returns the
/// bytes the inner reader left unread and those the `PeekReader` buffered
/// but did not consume (`consume` returns how many it dropped): the rest of
/// `input` is what the call consumed. Its first step consumes one byte, so
/// a non-empty input always loses at least one.
#[verifier::external_body]
pub(crate) fn read_frame(input: &[u8], version: MavlinkVersion) -> (r: (
    Option<(FrameHeader, MavMessage)>,
    usize,
    usize,
))
    ensures
        r.1 + r.2 <= input@.len(),
        input@.len() > 0 ==> r.1 + r.2 < input@.len(),
        mavlink_read(input@, version.number()).1 == input@.len() - r.1 - r.2,
        mavlink_read(input@, version.number()).0 == (match r.0 {
            Some((h, _)) => Some((h.system_id, h.component_id, h.sequence)),
            None => None,
        }),
{
    let mut reader = mavlink::peek_reader::PeekReader::<&[u8]>::new(input);
    let wire = match version {
        MavlinkVersion::V1 => mavlink::MavlinkVersion::V1,
        MavlinkVersion::V2 => mavlink::MavlinkVersion::V2,
    };
    let decoded = mavlink::read_versioned_msg::<MavMessage, &[u8]>(&mut reader, wire);
    let buffered = reader.consume(usize::MAX);
    let unread = reader.reader_ref().len();
    let frame = decoded.ok().map(|(h, m)| (FrameHeader { system_id: h.system_id, component_id: h.component_id, sequence: h.sequence }, m));
    (frame, unread, buffered)
}

/// `bytes` is an unsigned frame of `version` carrying `header`: the
/// start-of-frame marker, the payload length in byte 1, the sender fields at
/// their place in the head (bytes 2..5 for V1, 4..7 for V2), and a length of
/// head, payload and 2-byte checksum. A V2 frame is also read back whole by
/// the MAVLink decoder, whatever follows it, with this header when it decodes.
pub open spec fn serialized_frame(bytes: Seq<u8>, header: FrameHeader, version: MavlinkVersion) -> bool {
    &&& 8 <= bytes.len() <= 280
    &&& bytes[0] == version.start_marker()
    &&& match version {
        MavlinkVersion::V1 => {
            &&& bytes.len() == 8 + bytes[1]
            &&& bytes[2] == header.sequence
            &&& bytes[3] == header.system_id
            &&& bytes[4] == header.component_id
        },
        MavlinkVersion::V2 => {
            &&& bytes.len() == 12 + bytes[1]
            &&& bytes[4] == header.sequence
            &&& bytes[5] == header.system_id
            &&& bytes[6] == header.component_id
            &&& forall|following: Seq<u8>|
                #[trigger] mavlink_read(bytes + following, 2).1 == bytes.len() && (mavlink_read(
                    bytes + following,
                    2,
                ).0 matches Some(t) ==> t == (header.system_id, header.component_id, header.sequence))
        },
    }
}

/// Relies on `MAVLinkV1MessageRaw` / `MAVLinkV2MessageRaw::serialize_message`
/// and `raw_bytes`: the marker, a head of payload length, (V2: two zero flag
/// bytes,) sequence, system id, component id and message id, at most 255
/// payload bytes and a checksum computed with the dialect's extra CRC. For V2,
/// `read_v2_raw_message` finds the marker at once, peeks exactly the frame,
/// finds the checksum valid (same dialect, same extra CRC) and consumes
/// exactly the frame; `read_v2_msg` then returns these sender fields.
#[verifier::external_body]
pub(crate) fn serialize_frame(header: FrameHeader, msg: &MavMessage, version: MavlinkVersion) -> (r: Vec<u8>)
    ensures
        serialized_frame(r@, header, version),
{
    let h = mavlink::MavHeader { system_id: header.system_id, component_id: header.component_id, sequence: header.sequence };
    match version {
        MavlinkVersion::V1 => {
            let mut raw = mavlink::MAVLinkV1MessageRaw::new();
            raw.serialize_message(h, msg);
            raw.raw_bytes().to_vec()
        },
        MavlinkVersion::V2 => {
            let mut raw = mavlink::MAVLinkV2MessageRaw::new();
            raw.serialize_message(h, msg);
            raw.raw_bytes().to_vec()
        },
    }
}

} // verus!
