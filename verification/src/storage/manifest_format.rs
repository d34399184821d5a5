//! The format of the manifest on its medium: one frame for each record, one
//! after the other.
//!
//! A frame is the version of the record in eight bytes, the length of its
//! payload in four bytes, and the payload, which holds the actions of the
//! record in a form that is not looked into here. The numbers are
//! little-endian. The versions count up from the first version by one.
//!
//! A manifest that was cut off in the middle of a frame, or whose versions
//! break off, is read up to the last frame that is complete and in turn.

use vstd::prelude::*;
use vstd::bytes::{
    lemma_auto_spec_u32_to_from_le_bytes, lemma_auto_spec_u64_to_from_le_bytes,
    spec_u32_from_le_bytes, spec_u32_to_le_bytes, spec_u64_from_le_bytes, spec_u64_to_le_bytes,
    u32_from_le_bytes, u32_to_le_bytes, u64_from_le_bytes, u64_to_le_bytes,
};
use crate::storage::error::{Error, Result};
use crate::storage::manifest::{ManifestVersion, MIN_VERSION};

verus! {

/// The bytes of the head of a frame.
pub const FRAME_HEAD_BYTES: usize = 12;

/// The bytes of the frame of the record `version` with the payload
/// `payload`.
pub open spec fn frame_bytes(version: ManifestVersion, payload: Seq<u8>) -> Seq<u8> {
    spec_u64_to_le_bytes(version) + spec_u32_to_le_bytes(payload.len() as u32) + payload
}

/// A frame as it is read: the version, the payload, and where the next frame
/// begins.
pub struct Frame {
    pub version: ManifestVersion,
    pub payload: Seq<u8>,
    pub next: int,
}

/// The frame that begins at `at`, if a complete one begins there.
pub open spec fn frame_at(bytes: Seq<u8>, at: int) -> Option<Frame> {
    if at < 0 || at + FRAME_HEAD_BYTES > bytes.len() {
        None
    } else {
        let version = spec_u64_from_le_bytes(bytes.subrange(at, at + 8));
        let len = spec_u32_from_le_bytes(bytes.subrange(at + 8, at + 12)) as int;
        if at + FRAME_HEAD_BYTES + len > bytes.len() {
            None
        } else {
            Some(
                Frame {
                    version,
                    payload: bytes.subrange(at + FRAME_HEAD_BYTES, at + FRAME_HEAD_BYTES + len),
                    next: at + FRAME_HEAD_BYTES + len,
                },
            )
        }
    }
}

/// The payloads of the frames from `at` on, of which the first is expected
/// to have the version `version`, up to the first place where no complete
/// frame of the expected version begins.
pub open spec fn framed(bytes: Seq<u8>, at: int, version: int) -> Seq<Seq<u8>>
    decreases bytes.len() - at,
{
    match frame_at(bytes, at) {
        Some(frame) => if frame.version == version {
            seq![frame.payload] + framed(bytes, frame.next, version + 1)
        } else {
            Seq::empty()
        },
        None => Seq::empty(),
    }
}

/// The frame of the record `version` with the payload `payload`; nothing if
/// the length of the payload cannot be written in 32 bits.
pub fn encode_frame(version: ManifestVersion, payload: &[u8]) -> (r: Option<Vec<u8>>)
    ensures
        match r {
            Some(bytes) => payload@.len() <= u32::MAX && bytes@ == frame_bytes(version, payload@),
            None => payload@.len() > u32::MAX,
        },
{
    if payload.len() > 0xffff_ffff {
        return None;
    }
    let mut bytes = u64_to_le_bytes(version);
    let mut len = u32_to_le_bytes(payload.len() as u32);
    bytes.append(&mut len);
    let ghost head = bytes@;
    let mut i: usize = 0;
    while i < payload.len()
        invariant
            i <= payload@.len(),
            bytes@ == head + payload@.take(i as int),
        decreases payload@.len() - i,
    {
        bytes.push(payload[i]);
        proof {
            assert(payload@.take(i + 1) =~= payload@.take(i as int).push(payload@[i as int]));
            assert(bytes@ =~= head + payload@.take(i + 1));
        }
        i += 1;
    }
    proof {
        assert(payload@.take(payload@.len() as int) =~= payload@);
    }
    Some(bytes)
}

fn copy_range(bytes: &[u8], from: usize, to: usize) -> (part: Vec<u8>)
    requires
        from <= to <= bytes@.len(),
    ensures
        part@ == bytes@.subrange(from as int, to as int),
{
    let mut part: Vec<u8> = Vec::new();
    let mut i: usize = from;
    while i < to
        invariant
            from <= i <= to <= bytes@.len(),
            part@ == bytes@.subrange(from as int, i as int),
        decreases to - i,
    {
        part.push(bytes[i]);
        proof {
            assert(part@ =~= bytes@.subrange(from as int, i + 1));
        }
        i += 1;
    }
    part
}

/// The payloads of the records of the manifest `bytes`, in order; the
/// payload at a position is that of the record whose version is the first
/// version plus that position. Reading stops at the first place where no
/// complete frame of the expected version begins; what stands from there on,
/// such as a frame that was cut off, is left out.
pub fn decode_frames(bytes: &[u8]) -> (payloads: Vec<Vec<u8>>)
    ensures
        payloads@.len() == framed(bytes@, 0, MIN_VERSION as int).len(),
        forall|i: int|
            0 <= i < payloads@.len() ==> (#[trigger] payloads@[i])@ == framed(
                bytes@,
                0,
                MIN_VERSION as int,
            )[i],
{
    let n = bytes.len();
    let ghost all = framed(bytes@, 0, MIN_VERSION as int);
    let mut payloads: Vec<Vec<u8>> = Vec::new();
    let mut at: usize = 0;
    let mut version: u64 = MIN_VERSION;
    loop
        invariant_except_break
            payloads@.len() + framed(bytes@, at as int, version as int).len() == all.len(),
            forall|i: int|
                0 <= i < framed(bytes@, at as int, version as int).len() ==> all[payloads@.len()
                    + i] == #[trigger] framed(bytes@, at as int, version as int)[i],
        invariant
            at <= n,
            n == bytes@.len(),
            all == framed(bytes@, 0, MIN_VERSION as int),
            forall|i: int| 0 <= i < payloads@.len() ==> (#[trigger] payloads@[i])@ == all[i],
        ensures
            payloads@.len() == all.len(),
            forall|i: int| 0 <= i < payloads@.len() ==> (#[trigger] payloads@[i])@ == all[i],
        decreases n - at,
    {
        if n - at < FRAME_HEAD_BYTES {
            break ;
        }
        let head = copy_range(bytes, at, at + 8);
        let found = u64_from_le_bytes(head.as_slice());
        let head = copy_range(bytes, at + 8, at + 12);
        let len = u32_from_le_bytes(head.as_slice()) as usize;
        if n - at - FRAME_HEAD_BYTES < len || found != version {
            break ;
        }
        let start = at + FRAME_HEAD_BYTES;
        let ghost before = payloads@;
        let ghost here = framed(bytes@, at as int, version as int);
        let ghost rest = framed(bytes@, start + len, version + 1);
        payloads.push(copy_range(bytes, start, start + len));
        proof {
            assert(here =~= seq![bytes@.subrange(start as int, start + len)] + rest);
            assert(here[0] == bytes@.subrange(start as int, start + len));
            assert forall|i: int| 0 <= i < payloads@.len() implies (#[trigger] payloads@[i])@
                == all[i] by {
                if i < before.len() {
                    assert(payloads@[i] == before[i]);
                } else {
                    assert(all[before.len() as int + 0] == here[0]);
                }
            }
            assert forall|i: int| 0 <= i < rest.len() implies all[payloads@.len() + i]
                == #[trigger] rest[i] by {
                assert(here[i + 1] == rest[i]);
                assert(all[before.len() as int + (i + 1)] == here[i + 1]);
            }
        }
        at = start + len;
        if version == u64::MAX {
            proof {
                lemma_framed_out_of_versions(bytes@, at as int);
                assert(here.len() == 1 + rest.len());
            }
            break ;
        }
        version = version + 1;
    }
    payloads
}

/// Reads a manifest of which the first `checkpoint` records were known to
/// be good. A damaged or cut-off tail behind the checkpoint is left out, as
/// [`decode_frames`] does; damage before the checkpoint is an error.
pub fn decode_frames_checked(bytes: &[u8], checkpoint: usize) -> (r: Result<Vec<Vec<u8>>>)
    ensures
        match r {
            Ok(payloads) => {
                &&& checkpoint <= payloads@.len()
                &&& payloads@.len() == framed(bytes@, 0, MIN_VERSION as int).len()
                &&& forall|i: int|
                    0 <= i < payloads@.len() ==> (#[trigger] payloads@[i])@ == framed(
                        bytes@,
                        0,
                        MIN_VERSION as int,
                    )[i]
            },
            Err(e) => framed(bytes@, 0, MIN_VERSION as int).len() < checkpoint && e
                == (Error::CorruptedManifest {
                valid: framed(bytes@, 0, MIN_VERSION as int).len() as usize,
                checkpoint,
            }),
        },
{
    let payloads = decode_frames(bytes);
    if payloads.len() < checkpoint {
        return Err(Error::CorruptedManifest { valid: payloads.len(), checkpoint });
    }
    Ok(payloads)
}

/// No frame has a version beyond the last version.
proof fn lemma_framed_out_of_versions(bytes: Seq<u8>, at: int)
    ensures
        framed(bytes, at, u64::MAX + 1).len() == 0,
{
}

/// The bytes of a manifest that holds the records with the payloads
/// `payloads`, in order, under the versions from the first version on.
pub open spec fn manifest_bytes(payloads: Seq<Seq<u8>>) -> Seq<u8>
    decreases payloads.len(),
{
    if payloads.len() == 0 {
        Seq::empty()
    } else {
        manifest_bytes(payloads.drop_last()) + frame_bytes(
            (MIN_VERSION + payloads.len() - 1) as u64,
            payloads.last(),
        )
    }
}

/// A frame that was written reads back as it was, wherever its bytes stand.
pub proof fn lemma_frame_round_trip(
    before: Seq<u8>,
    version: ManifestVersion,
    payload: Seq<u8>,
    after: Seq<u8>,
)
    requires
        payload.len() <= u32::MAX,
    ensures
        frame_at(before + frame_bytes(version, payload) + after, before.len() as int) == Some(
            Frame {
                version,
                payload,
                next: (before.len() + FRAME_HEAD_BYTES + payload.len()) as int,
            },
        ),
        frame_bytes(version, payload).len() == FRAME_HEAD_BYTES + payload.len(),
{
    lemma_auto_spec_u32_to_from_le_bytes();
    lemma_auto_spec_u64_to_from_le_bytes();
    let bytes = before + frame_bytes(version, payload) + after;
    let at = before.len() as int;
    assert(bytes.subrange(at, at + 8) =~= spec_u64_to_le_bytes(version));
    assert(bytes.subrange(at + 8, at + 12) =~= spec_u32_to_le_bytes(payload.len() as u32));
    assert(bytes.subrange(at + FRAME_HEAD_BYTES, at + FRAME_HEAD_BYTES + payload.len())
        =~= payload);
}

/// A manifest reads back as the payloads of its records, followed by what
/// its tail reads as.
proof fn lemma_manifest_then_tail(payloads: Seq<Seq<u8>>, tail: Seq<u8>)
    requires
        MIN_VERSION + payloads.len() <= u64::MAX,
        forall|i: int| 0 <= i < payloads.len() ==> (#[trigger] payloads[i]).len() <= u32::MAX,
    ensures
        framed(manifest_bytes(payloads) + tail, 0, MIN_VERSION as int) == payloads + framed(
            manifest_bytes(payloads) + tail,
            manifest_bytes(payloads).len() as int,
            MIN_VERSION + payloads.len(),
        ),
    decreases payloads.len(),
{
    let bytes = manifest_bytes(payloads) + tail;
    if payloads.len() == 0 {
        assert(payloads + framed(bytes, 0, MIN_VERSION as int) =~= framed(
            bytes,
            0,
            MIN_VERSION as int,
        ));
    } else {
        let front = payloads.drop_last();
        let last = payloads.last();
        let version = (MIN_VERSION + payloads.len() - 1) as u64;
        let frame = frame_bytes(version, last);
        assert(forall|i: int| 0 <= i < front.len() ==> front[i] == payloads[i]);
        lemma_manifest_then_tail(front, frame + tail);
        assert(manifest_bytes(front) + (frame + tail) =~= bytes);
        lemma_frame_round_trip(manifest_bytes(front), version, last, tail);
        assert(manifest_bytes(front) + frame + tail =~= bytes);
        assert(front + (seq![last] + framed(
            bytes,
            manifest_bytes(payloads).len() as int,
            MIN_VERSION + payloads.len(),
        )) =~= payloads + framed(
            bytes,
            manifest_bytes(payloads).len() as int,
            MIN_VERSION + payloads.len(),
        ));
    }
}

/// A manifest that was written reads back as the payloads of its records, in
/// order.
pub proof fn lemma_manifest_round_trip(payloads: Seq<Seq<u8>>)
    requires
        MIN_VERSION + payloads.len() <= u64::MAX,
        forall|i: int| 0 <= i < payloads.len() ==> (#[trigger] payloads[i]).len() <= u32::MAX,
    ensures
        framed(manifest_bytes(payloads), 0, MIN_VERSION as int) == payloads,
{
    lemma_manifest_then_tail(payloads, Seq::empty());
    assert(manifest_bytes(payloads) + Seq::<u8>::empty() =~= manifest_bytes(payloads));
    assert(payloads + Seq::<Seq<u8>>::empty() =~= payloads);
}

/// A manifest whose last frame was cut off reads back as the payloads of the
/// records before it: the torn frame marks the end of the manifest.
pub proof fn lemma_torn_frame_ends_manifest(payloads: Seq<Seq<u8>>, torn: Seq<u8>, kept: int)
    requires
        MIN_VERSION + payloads.len() <= u64::MAX,
        forall|i: int| 0 <= i < payloads.len() ==> (#[trigger] payloads[i]).len() <= u32::MAX,
        torn.len() <= u32::MAX,
        0 <= kept < frame_bytes((MIN_VERSION + payloads.len()) as u64, torn).len(),
    ensures
        framed(
            manifest_bytes(payloads) + frame_bytes(
                (MIN_VERSION + payloads.len()) as u64,
                torn,
            ).take(kept),
            0,
            MIN_VERSION as int,
        ) == payloads,
{
    lemma_auto_spec_u32_to_from_le_bytes();
    lemma_auto_spec_u64_to_from_le_bytes();
    let frame = frame_bytes((MIN_VERSION + payloads.len()) as u64, torn);
    let tail = frame.take(kept);
    let bytes = manifest_bytes(payloads) + tail;
    let at = manifest_bytes(payloads).len() as int;
    lemma_manifest_then_tail(payloads, tail);
    if kept >= FRAME_HEAD_BYTES {
        assert(bytes.subrange(at + 8, at + 12) =~= spec_u32_to_le_bytes(torn.len() as u32));
    }
    assert(frame_at(bytes, at) is None);
    assert(payloads + Seq::<Seq<u8>>::empty() =~= payloads);
}

} // verus!
