//! What the decoder makes of the records the writer frames.
use crate::entry::{EntryType, FrameHeader, MavlinkVersion, RecordBody};
use crate::header::FormatFlags;
use crate::parser::{layout_of, next_step, ReadError, ResyncPolicy, Step};
use crate::wire::{mavlink_read, serialized_frame};
use crate::writer::{record_bytes, write_refusal};
use vstd::bytes::*;
use vstd::prelude::*;
use vstd::utf8::*;

verus! {

/// One record as given to the writer.
pub struct RecordSpec {
    pub entry_type: EntryType,
    pub timestamp: u64,
    pub data: Seq<u8>,
}

/// The writer accepts `r`, and its content reads back: text is valid UTF-8,
/// and a MAVLink frame starts with its marker and the MAVLink decoder takes
/// exactly its bytes from it and the bytes that follow.
pub open spec fn record_readable(flags: FormatFlags, version: MavlinkVersion, r: RecordSpec, following: Seq<u8>) -> bool {
    &&& write_refusal(flags, r.entry_type, r.data.len()) is None
    &&& r.entry_type == EntryType::Utf8Text ==> valid_utf8(r.data)
    &&& r.entry_type == EntryType::Mavlink ==> {
        &&& r.data.len() > 0
        &&& r.data[0] == version.start_marker()
        &&& mavlink_read(r.data + following, version.number()).1 == r.data.len()
    }
}

/// The MAVLink decoder accepts the message of a MAVLink record.
pub open spec fn frame_decodes(version: MavlinkVersion, r: RecordSpec, following: Seq<u8>) -> bool {
    r.entry_type == EntryType::Mavlink ==> mavlink_read(r.data + following, version.number()).0 is Some
}

/// The timestamp a record is read back with.
pub open spec fn stamp(flags: FormatFlags, timestamp: u64) -> Option<u64> {
    if flags.not_timestamped {
        None
    } else {
        Some(timestamp)
    }
}

/// The content a record is read back with.
pub open spec fn expected_body(version: MavlinkVersion, r: RecordSpec, following: Seq<u8>) -> RecordBody {
    match r.entry_type {
        EntryType::Raw => RecordBody::Raw(r.data),
        EntryType::Utf8Text => RecordBody::Text(decode_utf8(r.data)),
        EntryType::Mavlink => match mavlink_read(r.data + following, version.number()).0 {
            Some((s, c, q)) => RecordBody::Mavlink(FrameHeader { system_id: s, component_id: c, sequence: q }),
            None => RecordBody::Raw(r.data),
        },
    }
}

/// What reading a framed record gives: the record back, or, when the MAVLink
/// decoder refuses the message of a MAVLink record, that failure; either way
/// exactly the record's bytes are taken.
pub open spec fn record_outcome(
    flags: FormatFlags,
    version: MavlinkVersion,
    r: RecordSpec,
    following: Seq<u8>,
) -> Step {
    let used = record_bytes(flags, r.entry_type, r.timestamp, r.data).len();
    if frame_decodes(version, r, following) {
        Step::Record { timestamp: stamp(flags, r.timestamp), body: expected_body(version, r, following), used }
    } else {
        Step::Failed { error: ReadError::MavlinkDecode, used }
    }
}

/// Decoding a record that the writer framed, followed by any bytes, gives
/// back its timestamp (when the file has them) and its content, and takes
/// exactly the record's bytes, under every layout and either policy.
pub proof fn lemma_record_round_trip(
    flags: FormatFlags,
    version: MavlinkVersion,
    policy: ResyncPolicy,
    r: RecordSpec,
    following: Seq<u8>,
)
    requires
        record_readable(flags, version, r, following),
    ensures
        next_step(
            layout_of(flags),
            version,
            policy,
            record_bytes(flags, r.entry_type, r.timestamp, r.data) + following,
        ) == record_outcome(flags, version, r, following),
{
    lemma_auto_spec_u16_to_from_le_bytes();
    lemma_auto_spec_u64_to_from_le_bytes();
    let rec = record_bytes(flags, r.entry_type, r.timestamp, r.data);
    let all = rec + following;
    let ts = spec_u64_to_le_bytes(r.timestamp);
    let len = spec_u16_to_le_bytes(r.data.len() as u16);
    if flags.mavlink_only {
        if flags.not_timestamped {
            assert(rec =~= r.data);
            assert(all.subrange(0, all.len() as int) =~= r.data + following);
        } else {
            assert(rec =~= ts + r.data);
            assert(all.subrange(0, 8) =~= ts);
            assert(all[8] == r.data[0]);
            assert(all.subrange(8, all.len() as int) =~= r.data + following);
        }
    } else {
        let head: int = if flags.not_timestamped { 3 } else { 11 };
        if flags.not_timestamped {
            assert(rec =~= seq![crate::entry::tag_of(r.entry_type)] + len + r.data);
        } else {
            assert(rec =~= seq![crate::entry::tag_of(r.entry_type)] + ts + len + r.data);
            assert(all.subrange(1, 9) =~= ts);
        }
        assert(all.subrange(head - 2, head) =~= len);
        assert(all.subrange(head, all.len() as int) =~= r.data + following);
        assert(all.subrange(head, head + r.data.len()) =~= r.data);
    }
}

/// A MAVLink record that the writer framed from a V2 frame reads back with
/// the frame's sender header and its timestamp (when the file has them), or
/// as a decoding failure when the MAVLink decoder refuses the message, and
/// either way takes exactly the record's bytes.
pub proof fn lemma_frame_round_trip(
    flags: FormatFlags,
    policy: ResyncPolicy,
    frame: Seq<u8>,
    header: FrameHeader,
    timestamp: u64,
    following: Seq<u8>,
)
    requires
        serialized_frame(frame, header, MavlinkVersion::V2),
    ensures
        ({
            let used = record_bytes(flags, EntryType::Mavlink, timestamp, frame).len();
            next_step(
                layout_of(flags),
                MavlinkVersion::V2,
                policy,
                record_bytes(flags, EntryType::Mavlink, timestamp, frame) + following,
            ) == if mavlink_read(frame + following, 2).0 is Some {
                Step::Record { timestamp: stamp(flags, timestamp), body: RecordBody::Mavlink(header), used }
            } else {
                Step::Failed { error: ReadError::MavlinkDecode, used }
            }
        }),
{
    let r = RecordSpec { entry_type: EntryType::Mavlink, timestamp, data: frame };
    assert(mavlink_read(frame + following, 2).1 == frame.len());
    lemma_record_round_trip(flags, MavlinkVersion::V2, policy, r, following);
}

/// Decoding a text record written from `text` gives back `text` itself.
pub proof fn lemma_text_round_trip(
    flags: FormatFlags,
    version: MavlinkVersion,
    policy: ResyncPolicy,
    text: Seq<char>,
    timestamp: u64,
    following: Seq<u8>,
)
    requires
        !flags.mavlink_only,
        encode_utf8(text).len() <= 0xFFFF,
    ensures
        next_step(
            layout_of(flags),
            version,
            policy,
            record_bytes(flags, EntryType::Utf8Text, timestamp, encode_utf8(text)) + following,
        ) == (Step::Record {
            timestamp: stamp(flags, timestamp),
            body: RecordBody::Text(text),
            used: record_bytes(flags, EntryType::Utf8Text, timestamp, encode_utf8(text)).len(),
        }),
{
    encode_utf8_valid_utf8(text);
    encode_utf8_decode_utf8(text);
    lemma_record_round_trip(
        flags,
        version,
        policy,
        RecordSpec { entry_type: EntryType::Utf8Text, timestamp, data: encode_utf8(text) },
        following,
    );
}

/// The bytes of a sequence of records, one after the other.
pub open spec fn stream_bytes(flags: FormatFlags, recs: Seq<RecordSpec>) -> Seq<u8>
    decreases recs.len(),
{
    if recs.len() == 0 {
        Seq::empty()
    } else {
        record_bytes(flags, recs[0].entry_type, recs[0].timestamp, recs[0].data) + stream_bytes(
            flags,
            recs.drop_first(),
        )
    }
}

/// A file body of N framed records, whose MAVLink messages the decoder
/// accepts, decodes to exactly N records, in order, each with its own
/// timestamp and content, and then ends cleanly.
pub proof fn lemma_stream_round_trip(
    flags: FormatFlags,
    version: MavlinkVersion,
    policy: ResyncPolicy,
    recs: Seq<RecordSpec>,
)
    requires
        forall|i: int|
            0 <= i < recs.len() ==> #[trigger] record_readable(
                flags,
                version,
                recs[i],
                stream_bytes(flags, recs.subrange(i + 1, recs.len() as int)),
            ) && frame_decodes(version, recs[i], stream_bytes(flags, recs.subrange(i + 1, recs.len() as int))),
    ensures
        forall|i: int|
            #![trigger recs[i]]
            0 <= i < recs.len() ==> {
                let here = stream_bytes(flags, recs.subrange(i, recs.len() as int));
                let later = stream_bytes(flags, recs.subrange(i + 1, recs.len() as int));
                let used = record_bytes(flags, recs[i].entry_type, recs[i].timestamp, recs[i].data).len();
                &&& next_step(layout_of(flags), version, policy, here) == (Step::Record {
                    timestamp: stamp(flags, recs[i].timestamp),
                    body: expected_body(version, recs[i], later),
                    used,
                })
                &&& here.subrange(used as int, here.len() as int) == later
            },
        next_step(
            layout_of(flags),
            version,
            policy,
            stream_bytes(flags, recs.subrange(recs.len() as int, recs.len() as int)),
        ) == Step::End,
{
    assert(recs.subrange(recs.len() as int, recs.len() as int).len() == 0);
    assert forall|i: int| #![trigger recs[i]] 0 <= i < recs.len() implies {
        let here = stream_bytes(flags, recs.subrange(i, recs.len() as int));
        let later = stream_bytes(flags, recs.subrange(i + 1, recs.len() as int));
        let used = record_bytes(flags, recs[i].entry_type, recs[i].timestamp, recs[i].data).len();
        &&& next_step(layout_of(flags), version, policy, here) == (Step::Record {
            timestamp: stamp(flags, recs[i].timestamp),
            body: expected_body(version, recs[i], later),
            used,
        })
        &&& here.subrange(used as int, here.len() as int) == later
    } by {
        let tail = recs.subrange(i, recs.len() as int);
        assert(tail[0] == recs[i]);
        assert(tail.drop_first() =~= recs.subrange(i + 1, recs.len() as int));
        let later = stream_bytes(flags, recs.subrange(i + 1, recs.len() as int));
        let rec = record_bytes(flags, recs[i].entry_type, recs[i].timestamp, recs[i].data);
        assert(record_readable(flags, version, recs[i], later));
        lemma_record_round_trip(flags, version, policy, recs[i], later);
        assert((rec + later).subrange(rec.len() as int, (rec + later).len() as int) =~= later);
    }
}

} // verus!
