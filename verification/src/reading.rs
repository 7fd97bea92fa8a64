//! What a decoder hands back: the outcome of one frame or line, and the
//! normalized reading that goes into a cycle record.

use vstd::prelude::*;
use crate::config::DistanceBounds;

verus! {

/// A distance as it is reported for one poll attempt.
///
/// The distance is meaningful only when `valid` holds; every rejected reading
/// is the zero reading.
#[derive(Debug, Clone, Copy, PartialEq, Eq, Structural)]
pub struct DecodedReading {
    pub distance_mm: u16,
    pub valid: bool,
}

impl DecodedReading {
    /// An invalid reading carries distance zero.
    pub open spec fn wf(self) -> bool {
        !self.valid ==> self.distance_mm == 0
    }
}

/// Result of decoding one frame or one line.
#[derive(Debug, Clone, Copy, PartialEq, Eq, Structural)]
pub enum DecodeOutcome {
    /// The input was well formed and the distance lies within the bounds.
    Accepted { distance_mm: u16 },
    /// The input was well formed but the distance lies outside the bounds.
    OutOfRange { measured_mm: u16 },
    /// The input does not follow the wire format.
    Malformed,
}

/// Classifies a well-formed measurement against the bounds.
pub open spec fn classify(measured_mm: u16, bounds: DistanceBounds) -> DecodeOutcome {
    if bounds.admits(measured_mm as int) {
        DecodeOutcome::Accepted { distance_mm: measured_mm }
    } else {
        DecodeOutcome::OutOfRange { measured_mm }
    }
}

/// Classifies what a line or frame yielded, `None` standing for input that
/// does not follow the wire format.
pub open spec fn classify_parsed(parsed: Option<u16>, bounds: DistanceBounds) -> DecodeOutcome {
    match parsed {
        Some(measured_mm) => classify(measured_mm, bounds),
        None => DecodeOutcome::Malformed,
    }
}

/// The reading an outcome normalizes to.
pub open spec fn reading_of(outcome: DecodeOutcome) -> DecodedReading {
    match outcome {
        DecodeOutcome::Accepted { distance_mm } => DecodedReading { distance_mm, valid: true },
        _ => DecodedReading { distance_mm: 0, valid: false },
    }
}

impl DecodeOutcome {
    /// Normalizes the outcome: an accepted distance is kept, every rejection
    /// becomes the zero reading.
    pub fn reading(&self) -> (reading: DecodedReading)
        ensures
            reading == reading_of(*self),
            reading.wf(),
    {
        match self {
            DecodeOutcome::Accepted { distance_mm } => DecodedReading {
                distance_mm: *distance_mm,
                valid: true,
            },
            _ => DecodedReading { distance_mm: 0, valid: false },
        }
    }

    pub fn is_accepted(&self) -> (accepted: bool)
        ensures
            accepted == (*self is Accepted),
    {
        match self {
            DecodeOutcome::Accepted { .. } => true,
            _ => false,
        }
    }
}

/// Accepts a measurement that lies within the bounds and rejects any other.
pub fn check_range(measured_mm: u16, bounds: &DistanceBounds) -> (outcome: DecodeOutcome)
    ensures
        outcome == classify(measured_mm, *bounds),
{
    if bounds.contains(measured_mm) {
        DecodeOutcome::Accepted { distance_mm: measured_mm }
    } else {
        DecodeOutcome::OutOfRange { measured_mm }
    }
}

} // verus!
