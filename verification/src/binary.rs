//! Decoder for the fixed four-byte binary frame.
//!
//! Byte 0 is the header, byte 1 is carried but never checked, bytes 2 and 3
//! hold the distance in tenths of a millimetre, most significant byte first.

use vstd::prelude::*;
use crate::config::{DistanceBounds, FRAME_HEADER};
use crate::reading::{check_range, classify, reading_of, DecodeOutcome};

verus! {

/// The sixteen-bit value whose upper byte is `hi` and lower byte `lo`.
pub open spec fn tenths_of(hi: u8, lo: u8) -> int {
    hi as int * 256 + lo as int
}

/// The distance, in whole millimetres, that the two payload bytes encode.
pub open spec fn frame_distance(hi: u8, lo: u8) -> int {
    tenths_of(hi, lo) / 10
}

/// What a four-byte frame decodes to under the given bounds.
pub open spec fn binary_outcome(frame: Seq<u8>, bounds: DistanceBounds) -> DecodeOutcome
    recommends
        frame.len() == 4,
{
    if frame[0] != FRAME_HEADER {
        DecodeOutcome::Malformed
    } else {
        classify(frame_distance(frame[2], frame[3]) as u16, bounds)
    }
}

/// Joining two bytes by shift and bit-or gives the same value as `tenths_of`.
pub proof fn lemma_join_bytes(hi: u8, lo: u8)
    ensures
        (((hi as u16) << 8) | (lo as u16)) == tenths_of(hi, lo),
{
    assert((((hi as u16) << 8) | (lo as u16)) == (hi as u16) * 256 + (lo as u16)) by (bit_vector);
}

/// Decodes one binary frame.
///
/// A frame whose first byte is not the header is malformed, whatever follows.
/// Otherwise the distance is the big-endian value of bytes 2 and 3 divided by
/// ten, accepted if and only if it lies within the bounds.
pub fn decode_binary_frame(frame: &[u8; 4], bounds: &DistanceBounds) -> (outcome: DecodeOutcome)
    ensures
        outcome == binary_outcome(frame@, *bounds),
        frame@[0] != FRAME_HEADER ==> outcome is Malformed,
        frame@[0] == FRAME_HEADER && bounds.admits(frame_distance(frame@[2], frame@[3]))
            ==> outcome == (DecodeOutcome::Accepted {
                distance_mm: frame_distance(frame@[2], frame@[3]) as u16,
            }),
        frame@[0] == FRAME_HEADER && !bounds.admits(frame_distance(frame@[2], frame@[3]))
            ==> outcome == (DecodeOutcome::OutOfRange {
                measured_mm: frame_distance(frame@[2], frame@[3]) as u16,
            }),
{
    if frame[0] != FRAME_HEADER {
        return DecodeOutcome::Malformed;
    }
    let hi: u8 = frame[2];
    let lo: u8 = frame[3];
    proof {
        lemma_join_bytes(hi, lo);
    }
    let tenths: u16 = ((hi as u16) << 8) | (lo as u16);
    check_range(tenths / 10, bounds)
}

/// A frame with the header byte and an in-range distance decodes to that
/// distance, flagged valid.
pub proof fn law_valid_frame_accepted(check: u8, hi: u8, lo: u8, bounds: DistanceBounds)
    requires
        bounds.admits(frame_distance(hi, lo)),
    ensures
        reading_of(binary_outcome(seq![FRAME_HEADER, check, hi, lo], bounds)).valid,
        reading_of(binary_outcome(seq![FRAME_HEADER, check, hi, lo], bounds)).distance_mm
            == (((hi as u16) << 8) | (lo as u16)) / 10,
{
    lemma_join_bytes(hi, lo);
}

/// A frame that does not start with the header byte decodes to the zero
/// reading, whatever its other bytes are.
pub proof fn law_bad_header_rejected(frame: Seq<u8>, bounds: DistanceBounds)
    requires
        frame.len() == 4,
        frame[0] != FRAME_HEADER,
    ensures
        binary_outcome(frame, bounds) is Malformed,
        !reading_of(binary_outcome(frame, bounds)).valid,
        reading_of(binary_outcome(frame, bounds)).distance_mm == 0,
{
}

/// A frame whose distance lies outside the bounds is reported with distance
/// zero.
pub proof fn law_out_of_range_zeroed(frame: Seq<u8>, bounds: DistanceBounds)
    requires
        frame.len() == 4,
        !bounds.admits(frame_distance(frame[2], frame[3])),
    ensures
        !(binary_outcome(frame, bounds) is Accepted),
        !reading_of(binary_outcome(frame, bounds)).valid,
        reading_of(binary_outcome(frame, bounds)).distance_mm == 0,
{
}

/// The second byte of a frame is carried but never checked: replacing it
/// changes nothing about what the frame decodes to.
pub proof fn law_second_byte_ignored(frame: Seq<u8>, replaced: u8, bounds: DistanceBounds)
    requires
        frame.len() == 4,
    ensures
        binary_outcome(frame.update(1, replaced), bounds) == binary_outcome(frame, bounds),
{
}

} // verus!
