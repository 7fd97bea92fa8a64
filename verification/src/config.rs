//! Settings the poller is handed at start: the wire mode of a port, the
//! accepted distance range, and the mode-select commands.

use vstd::prelude::*;

verus! {

/// Wire protocol spoken by a sensor.
#[derive(Debug, Clone, Copy, PartialEq, Eq, Structural)]
pub enum Mode {
    /// Fixed four-byte frames.
    Binary,
    /// One decimal number per newline-terminated line.
    Text,
}

/// Header byte that opens every binary frame.
pub const FRAME_HEADER: u8 = 0x54;

/// Time, in milliseconds, a sensor is given to act on a mode-select command.
pub const SETTLE_DELAY_MS: u64 = 200;

/// The four bytes that switch a sensor into the given mode.
pub open spec fn mode_command_bytes(mode: Mode) -> Seq<u8> {
    match mode {
        Mode::Binary => seq![0x00u8, 0x11u8, 0x02u8, 0x4Cu8],
        Mode::Text => seq![0x00u8, 0x11u8, 0x01u8, 0x45u8],
    }
}

/// Returns the command to transmit once after a port has been opened.
pub fn mode_command(mode: Mode) -> (command: [u8; 4])
    ensures
        command@ == mode_command_bytes(mode),
{
    let command: [u8; 4] = match mode {
        Mode::Binary => [0x00, 0x11, 0x02, 0x4C],
        Mode::Text => [0x00, 0x11, 0x01, 0x45],
    };
    assert(command@ =~= mode_command_bytes(mode));
    command
}

/// Inclusive range of distances, in millimetres, that count as valid.
#[derive(Debug, Clone, Copy, PartialEq, Eq, Structural)]
pub struct DistanceBounds {
    pub min_mm: u16,
    pub max_mm: u16,
}

impl DistanceBounds {
    /// Whether `distance_mm` lies within the bounds, both ends included.
    pub open spec fn admits(self, distance_mm: int) -> bool {
        self.min_mm <= distance_mm <= self.max_mm
    }

    pub fn new(min_mm: u16, max_mm: u16) -> (bounds: DistanceBounds)
        ensures
            bounds.min_mm == min_mm,
            bounds.max_mm == max_mm,
    {
        DistanceBounds { min_mm, max_mm }
    }

    /// Tests a distance against the bounds.
    pub fn contains(&self, distance_mm: u16) -> (inside: bool)
        ensures
            inside == self.admits(distance_mm as int),
    {
        self.min_mm <= distance_mm && distance_mm <= self.max_mm
    }
}

} // verus!
