//! One port of the poller: whether it opened, which protocol it speaks, when
//! it last delivered an accepted reading, and how the result of one read
//! attempt turns into the port's slot of a cycle record.

use vstd::prelude::*;
use crate::binary::{binary_outcome, decode_binary_frame};
use crate::config::{DistanceBounds, Mode};
use crate::reading::DecodeOutcome;
use crate::text::{decode_text_line, text_outcome};

verus! {

/// Whether a port could be opened at start. A port that failed to open stays
/// unavailable for good.
#[derive(Debug, Clone, Copy, PartialEq, Eq, Structural)]
pub enum ChannelState {
    Unavailable,
    Open,
}

/// What the caller is to do for a port in the coming cycle.
#[derive(Debug, Clone, Copy, PartialEq, Eq, Structural)]
pub enum PollAction {
    /// The port never opened: attempt no read.
    Skip,
    /// Read one frame of four bytes.
    ReadFrame,
    /// Read one line, up to and including its newline.
    ReadLine,
}

/// What one read attempt brought back.
#[derive(Debug, Clone, PartialEq, Eq)]
pub enum ReadEvent {
    /// No read was attempted.
    NotAttempted,
    /// The read timed out with nothing to deliver.
    Timeout,
    /// The read failed for another reason than a timeout.
    IoError,
    /// Four bytes arrived.
    Frame([u8; 4]),
    /// A line arrived.
    Line(String),
}

/// A read attempt together with the reading of a monotonic clock, in
/// nanoseconds, taken when the attempt returned.
#[derive(Debug, Clone, PartialEq, Eq)]
pub struct TimedRead {
    pub event: ReadEvent,
    pub at_nanos: u64,
}

/// How one port fared in one cycle.
#[derive(Debug, Clone, Copy, PartialEq, Eq, Structural)]
pub enum PollOutcome {
    /// The port never opened.
    Unavailable,
    /// Nothing arrived in time.
    NoData,
    /// The read failed; the port stays open and is tried again next cycle.
    IoError,
    /// What arrived does not follow the port's wire format.
    Malformed,
    /// A distance arrived that lies outside the bounds.
    OutOfRange { measured_mm: u16 },
    /// A distance arrived and was accepted.
    Accepted { distance_mm: u16 },
}

/// The sampling rate reported with a slot, kept as the time between two
/// accepted readings. The rate in hertz is the reciprocal of that time in
/// seconds.
#[derive(Debug, Clone, Copy, PartialEq, Eq, Structural)]
pub enum Sampling {
    /// No rate is reported: the port never opened.
    Absent,
    /// Rate zero: the port has no earlier accepted reading to measure from,
    /// or it delivered none in this cycle.
    Zero,
    /// An accepted reading arrived `nanos` nanoseconds after the one before.
    Period { nanos: u64 },
}

/// One port's entry of a cycle record.
#[derive(Debug, Clone, Copy, PartialEq, Eq, Structural)]
pub struct PortSlot {
    pub distance_mm: u16,
    pub distance_cm: u16,
    pub sampling: Sampling,
}

/// The slot of a port together with the outcome that produced it.
#[derive(Debug, Clone, Copy, PartialEq, Eq, Structural)]
pub struct PortReport {
    pub outcome: PollOutcome,
    pub slot: PortSlot,
}

/// A port as the contracts see it.
pub struct ChannelModel {
    pub path: Seq<char>,
    pub mode: Mode,
    pub state: ChannelState,
    /// Clock reading of the latest accepted reading, if there was one.
    pub last_accepted: Option<u64>,
}

/// The slot that carries no reading.
pub open spec fn zero_slot(sampling: Sampling) -> PortSlot {
    PortSlot { distance_mm: 0, distance_cm: 0, sampling }
}

/// The time from `earlier` to `later`, zero if `later` is not the later one.
pub open spec fn elapsed_nanos(earlier: u64, later: u64) -> u64 {
    if later >= earlier {
        (later - earlier) as u64
    } else {
        0
    }
}

/// The sampling entry of a reading accepted at `at_nanos`.
pub open spec fn sampling_at(last_accepted: Option<u64>, at_nanos: u64) -> Sampling {
    match last_accepted {
        Some(earlier) => Sampling::Period { nanos: elapsed_nanos(earlier, at_nanos) },
        None => Sampling::Zero,
    }
}

/// The outcome of a read attempt on an open port that speaks `mode`. Data of
/// the other protocol counts as malformed.
pub open spec fn open_outcome(mode: Mode, event: ReadEvent, bounds: DistanceBounds) -> PollOutcome {
    match event {
        ReadEvent::NotAttempted => PollOutcome::NoData,
        ReadEvent::Timeout => PollOutcome::NoData,
        ReadEvent::IoError => PollOutcome::IoError,
        ReadEvent::Frame(frame) => if mode == Mode::Binary {
            from_decoded(binary_outcome(frame@, bounds))
        } else {
            PollOutcome::Malformed
        },
        ReadEvent::Line(line) => if mode == Mode::Text {
            from_decoded(text_outcome(line@, bounds))
        } else {
            PollOutcome::Malformed
        },
    }
}

/// A decoder's verdict as the outcome of a poll.
pub open spec fn from_decoded(decoded: DecodeOutcome) -> PollOutcome {
    match decoded {
        DecodeOutcome::Accepted { distance_mm } => PollOutcome::Accepted { distance_mm },
        DecodeOutcome::OutOfRange { measured_mm } => PollOutcome::OutOfRange { measured_mm },
        DecodeOutcome::Malformed => PollOutcome::Malformed,
    }
}

/// The outcome of one read attempt on a port.
pub open spec fn outcome_for(channel: ChannelModel, read: TimedRead, bounds: DistanceBounds)
    -> PollOutcome {
    match channel.state {
        ChannelState::Unavailable => PollOutcome::Unavailable,
        ChannelState::Open => open_outcome(channel.mode, read.event, bounds),
    }
}

/// The slot that an outcome fills in: the accepted distance with its
/// centimetre value and sampling entry, or the zero slot.
pub open spec fn slot_for(outcome: PollOutcome, last_accepted: Option<u64>, at_nanos: u64)
    -> PortSlot {
    match outcome {
        PollOutcome::Accepted { distance_mm } => PortSlot {
            distance_mm,
            distance_cm: distance_mm / 10,
            sampling: sampling_at(last_accepted, at_nanos),
        },
        PollOutcome::Unavailable => zero_slot(Sampling::Absent),
        _ => zero_slot(Sampling::Zero),
    }
}

/// What a port reports for one read attempt.
pub open spec fn report_for(channel: ChannelModel, read: TimedRead, bounds: DistanceBounds)
    -> PortReport {
    let outcome = outcome_for(channel, read, bounds);
    PortReport { outcome, slot: slot_for(outcome, channel.last_accepted, read.at_nanos) }
}

/// The port after one read attempt: an accepted reading moves the time of
/// the latest accepted reading, nothing else changes anything.
pub open spec fn channel_after(channel: ChannelModel, read: TimedRead, bounds: DistanceBounds)
    -> ChannelModel {
    if outcome_for(channel, read, bounds) is Accepted {
        ChannelModel { last_accepted: Some(read.at_nanos), ..channel }
    } else {
        channel
    }
}

/// One port of the poller.
#[derive(Debug, Clone, PartialEq, Eq)]
pub struct PortChannel {
    path: String,
    mode: Mode,
    state: ChannelState,
    last_accepted: Option<u64>,
}

impl View for PortChannel {
    type V = ChannelModel;

    closed spec fn view(&self) -> ChannelModel {
        ChannelModel {
            path: self.path@,
            mode: self.mode,
            state: self.state,
            last_accepted: self.last_accepted,
        }
    }
}

/// Computes the time between two clock readings, zero if they are out of
/// order.
pub fn nanos_between(earlier: u64, later: u64) -> (nanos: u64)
    ensures
        nanos == elapsed_nanos(earlier, later),
{
    if later >= earlier {
        later - earlier
    } else {
        0
    }
}

impl PortChannel {
    /// A port in its state after the attempt to open it, with no reading
    /// accepted yet.
    pub fn new(path: String, mode: Mode, opened: bool) -> (channel: PortChannel)
        ensures
            channel@ == (ChannelModel {
                path: path@,
                mode,
                state: if opened {
                    ChannelState::Open
                } else {
                    ChannelState::Unavailable
                },
                last_accepted: None,
            }),
    {
        let state = if opened {
            ChannelState::Open
        } else {
            ChannelState::Unavailable
        };
        PortChannel { path, mode, state, last_accepted: None }
    }

    pub fn path(&self) -> (path: &str)
        ensures
            path@ == self@.path,
    {
        self.path.as_str()
    }

    /// Whether this port has the given path.
    pub fn has_path(&self, path: &String) -> (same: bool)
        ensures
            same == (self@.path == path@),
    {
        self.path == *path
    }

    pub fn mode(&self) -> (mode: Mode)
        ensures
            mode == self@.mode,
    {
        self.mode
    }

    pub fn state(&self) -> (state: ChannelState)
        ensures
            state == self@.state,
    {
        self.state
    }

    pub fn is_open(&self) -> (open: bool)
        ensures
            open == (self@.state == ChannelState::Open),
    {
        match self.state {
            ChannelState::Open => true,
            ChannelState::Unavailable => false,
        }
    }

    /// Clock reading of the latest accepted reading, if there was one.
    pub fn last_accepted(&self) -> (last: Option<u64>)
        ensures
            last == self@.last_accepted,
    {
        self.last_accepted
    }

    /// What to do for this port in the coming cycle: nothing if it never
    /// opened, else one read in the form of its protocol.
    pub fn poll_action(&self) -> (action: PollAction)
        ensures
            action == match self@.state {
                ChannelState::Unavailable => PollAction::Skip,
                ChannelState::Open => match self@.mode {
                    Mode::Binary => PollAction::ReadFrame,
                    Mode::Text => PollAction::ReadLine,
                },
            },
    {
        match self.state {
            ChannelState::Unavailable => PollAction::Skip,
            ChannelState::Open => match self.mode {
                Mode::Binary => PollAction::ReadFrame,
                Mode::Text => PollAction::ReadLine,
            },
        }
    }

    /// Takes in the result of one read attempt and returns the port's report
    /// for the cycle.
    ///
    /// A port that never opened reports `Unavailable` whatever it is handed.
    /// On an open port a timeout gives `NoData`, a failed read `IoError`, and
    /// data is decoded by the port's protocol. Only an accepted reading moves
    /// the time from which the next sampling period is measured.
    pub fn absorb(&mut self, read: &TimedRead, bounds: &DistanceBounds) -> (report: PortReport)
        ensures
            report == report_for(old(self)@, *read, *bounds),
            final(self)@ == channel_after(old(self)@, *read, *bounds),
    {
        let outcome = match self.state {
            ChannelState::Unavailable => PollOutcome::Unavailable,
            ChannelState::Open => match &read.event {
                ReadEvent::NotAttempted => PollOutcome::NoData,
                ReadEvent::Timeout => PollOutcome::NoData,
                ReadEvent::IoError => PollOutcome::IoError,
                ReadEvent::Frame(frame) => match self.mode {
                    Mode::Binary => poll_outcome(decode_binary_frame(frame, bounds)),
                    Mode::Text => PollOutcome::Malformed,
                },
                ReadEvent::Line(line) => match self.mode {
                    Mode::Text => poll_outcome(decode_text_line(line.as_str(), bounds)),
                    Mode::Binary => PollOutcome::Malformed,
                },
            },
        };
        match outcome {
            PollOutcome::Accepted { distance_mm } => {
                let sampling = match self.last_accepted {
                    Some(earlier) => Sampling::Period {
                        nanos: nanos_between(earlier, read.at_nanos),
                    },
                    None => Sampling::Zero,
                };
                self.last_accepted = Some(read.at_nanos);
                PortReport {
                    outcome,
                    slot: PortSlot { distance_mm, distance_cm: distance_mm / 10, sampling },
                }
            },
            PollOutcome::Unavailable => PortReport {
                outcome,
                slot: PortSlot { distance_mm: 0, distance_cm: 0, sampling: Sampling::Absent },
            },
            _ => PortReport {
                outcome,
                slot: PortSlot { distance_mm: 0, distance_cm: 0, sampling: Sampling::Zero },
            },
        }
    }
}

/// Turns a decoder's verdict into the outcome of a poll.
pub fn poll_outcome(decoded: DecodeOutcome) -> (outcome: PollOutcome)
    ensures
        outcome == from_decoded(decoded),
{
    match decoded {
        DecodeOutcome::Accepted { distance_mm } => PollOutcome::Accepted { distance_mm },
        DecodeOutcome::OutOfRange { measured_mm } => PollOutcome::OutOfRange { measured_mm },
        DecodeOutcome::Malformed => PollOutcome::Malformed,
    }
}

/// Every slot gives the distance in centimetres as the tenth of the distance
/// in millimetres, rounded down, and carries a distance only for an accepted
/// reading.
pub proof fn law_slot_shape(channel: ChannelModel, read: TimedRead, bounds: DistanceBounds)
    ensures
        report_for(channel, read, bounds).slot.distance_cm == report_for(
            channel,
            read,
            bounds,
        ).slot.distance_mm / 10,
        !(report_for(channel, read, bounds).outcome is Accepted) ==> report_for(
            channel,
            read,
            bounds,
        ).slot.distance_mm == 0,
        report_for(channel, read, bounds).slot.sampling is Absent <==> channel.state
            == ChannelState::Unavailable,
{
}

/// The first reading that a port accepts is reported with rate zero.
pub proof fn law_first_accepted_has_no_rate(
    channel: ChannelModel,
    read: TimedRead,
    bounds: DistanceBounds,
)
    requires
        channel.last_accepted is None,
        outcome_for(channel, read, bounds) is Accepted,
    ensures
        report_for(channel, read, bounds).slot.sampling == Sampling::Zero,
        channel_after(channel, read, bounds).last_accepted == Some(read.at_nanos),
{
}

/// A reading accepted some time after an earlier accepted one is reported
/// with exactly that time as its sampling period, whatever was read and not
/// accepted in between.
pub proof fn law_period_between_accepted(
    channel: ChannelModel,
    earlier: TimedRead,
    between: TimedRead,
    later: TimedRead,
    bounds: DistanceBounds,
)
    requires
        outcome_for(channel, earlier, bounds) is Accepted,
        !(outcome_for(channel, between, bounds) is Accepted),
        outcome_for(channel, later, bounds) is Accepted,
        earlier.at_nanos <= later.at_nanos,
    ensures
        ({
            let after_earlier = channel_after(channel, earlier, bounds);
            let after_between = channel_after(after_earlier, between, bounds);
            &&& after_between == after_earlier
            &&& report_for(after_earlier, later, bounds).slot.sampling == (Sampling::Period {
                nanos: (later.at_nanos - earlier.at_nanos) as u64,
            })
            &&& report_for(after_between, later, bounds).slot.sampling == (Sampling::Period {
                nanos: (later.at_nanos - earlier.at_nanos) as u64,
            })
        }),
{
}

/// Decoding keeps nothing from one call to the next: what a port reports
/// depends on its protocol and state, the read, and the bounds, and a port
/// that accepted nothing is left exactly as it was.
pub proof fn law_rejection_keeps_channel(
    channel: ChannelModel,
    read: TimedRead,
    bounds: DistanceBounds,
)
    requires
        !(outcome_for(channel, read, bounds) is Accepted),
    ensures
        channel_after(channel, read, bounds) == channel,
        report_for(channel, read, bounds).slot.distance_mm == 0,
        report_for(channel, read, bounds).slot.distance_cm == 0,
{
}

/// Decoding is stateless: the outcome of a read depends on the port's
/// protocol and state, the data and the bounds, never on what the port has
/// read before. Handing a port the same data again gives the same outcome.
pub proof fn law_outcome_ignores_history(
    channel: ChannelModel,
    read: TimedRead,
    again: TimedRead,
    bounds: DistanceBounds,
)
    requires
        again.event == read.event,
    ensures
        outcome_for(channel_after(channel, read, bounds), again, bounds) == outcome_for(
            channel,
            read,
            bounds,
        ),
        report_for(channel_after(channel, read, bounds), again, bounds).slot.distance_mm
            == report_for(channel, read, bounds).slot.distance_mm,
{
}

} // verus!
