//! The poll cycle: every configured port, in configured order, gets exactly
//! one slot of the record, whatever happened on the port and on its
//! neighbours.

use vstd::prelude::*;
use crate::channel::{
    channel_after, report_for, ChannelModel, ChannelState, PollAction, PortChannel, PortReport,
    TimedRead,
};
use crate::clock::{stamp_text, Timestamp};
use crate::config::{DistanceBounds, Mode};

verus! {

/// One port's line of a cycle record.
#[derive(Debug, Clone, PartialEq, Eq)]
pub struct PortEntry {
    pub port: String,
    pub report: PortReport,
}

/// An entry as the contracts see it.
pub struct EntryModel {
    pub port: Seq<char>,
    pub report: PortReport,
}

impl View for PortEntry {
    type V = EntryModel;

    open spec fn view(&self) -> EntryModel {
        EntryModel { port: self.port@, report: self.report }
    }
}

/// The snapshot of all ports that one cycle produces.
#[derive(Debug, Clone, PartialEq, Eq)]
pub struct CycleRecord {
    /// Start of the cycle as `YYYY-MM-DD HH:MM:SS.mmm`.
    pub timestamp: String,
    /// One entry per configured port, in configured order.
    pub entries: Vec<PortEntry>,
}

/// A record as the contracts see it.
pub struct RecordModel {
    pub timestamp: Seq<char>,
    pub entries: Seq<EntryModel>,
}

impl View for CycleRecord {
    type V = RecordModel;

    open spec fn view(&self) -> RecordModel {
        RecordModel {
            timestamp: self.timestamp@,
            entries: Seq::new(self.entries@.len(), |i: int| self.entries@[i]@),
        }
    }
}

/// Why a port could not be added.
#[derive(Debug, Clone, Copy, PartialEq, Eq, Structural)]
pub enum ConfigError {
    /// A port of that path is configured already.
    DuplicatePort,
}

/// Why polling cannot start.
#[derive(Debug, Clone, Copy, PartialEq, Eq, Structural)]
pub enum StartupError {
    /// No port is configured at all.
    NoPorts,
}

/// Why a cycle could not be assembled.
#[derive(Debug, Clone, Copy, PartialEq, Eq, Structural)]
pub enum CycleError {
    /// The number of read results differs from the number of ports.
    ReadCountMismatch { ports: usize, reads: usize },
}

/// Whether no two ports share a path.
pub open spec fn distinct_paths(channels: Seq<ChannelModel>) -> bool {
    forall|i: int, j: int|
        0 <= i < j < channels.len() ==> (#[trigger] channels[i]).path != (
        #[trigger] channels[j]).path
}

/// Whether some port has the given path.
pub open spec fn has_path(channels: Seq<ChannelModel>, path: Seq<char>) -> bool {
    exists|i: int| 0 <= i < channels.len() && (#[trigger] channels[i]).path == path
}

/// The entries of a cycle: entry `i` is the report of port `i` for read `i`,
/// under the port's path.
pub open spec fn cycle_entries(
    channels: Seq<ChannelModel>,
    reads: Seq<TimedRead>,
    bounds: DistanceBounds,
) -> Seq<EntryModel> {
    Seq::new(
        channels.len(),
        |i: int| EntryModel { port: channels[i].path, report: report_for(channels[i], reads[i], bounds) },
    )
}

/// The ports after a cycle: port `i` has taken in read `i`.
pub open spec fn channels_after(
    channels: Seq<ChannelModel>,
    reads: Seq<TimedRead>,
    bounds: DistanceBounds,
) -> Seq<ChannelModel> {
    Seq::new(channels.len(), |i: int| channel_after(channels[i], reads[i], bounds))
}

/// Adding a port under a path that no port has yet keeps paths distinct.
pub proof fn lemma_push_keeps_distinct(channels: Seq<ChannelModel>, added: ChannelModel)
    requires
        !has_path(channels, added.path),
    ensures
        distinct_paths(channels.push(added)) == distinct_paths(channels),
{
    let grown = channels.push(added);
    if distinct_paths(channels) {
        assert forall|i: int, j: int| 0 <= i < j < grown.len() implies (#[trigger] grown[i]).path
            != (#[trigger] grown[j]).path by {
            if j < channels.len() {
                assert(channels[i].path != channels[j].path);
            } else {
                assert(channels[i].path != added.path);
            }
        }
    }
    if distinct_paths(grown) {
        assert forall|i: int, j: int| 0 <= i < j < channels.len() implies (
        #[trigger] channels[i]).path != (#[trigger] channels[j]).path by {
            assert(grown[i].path != grown[j].path);
        }
    }
}

/// A cycle changes no port's path, so it keeps paths distinct.
pub proof fn lemma_paths_kept(
    channels: Seq<ChannelModel>,
    reads: Seq<TimedRead>,
    bounds: DistanceBounds,
)
    ensures
        distinct_paths(channels_after(channels, reads, bounds)) == distinct_paths(channels),
{
    let after = channels_after(channels, reads, bounds);
    assert forall|i: int| 0 <= i < channels.len() implies (#[trigger] after[i]).path
        == channels[i].path by {}
    if distinct_paths(channels) {
        assert forall|i: int, j: int| 0 <= i < j < after.len() implies (#[trigger] after[i]).path
            != (#[trigger] after[j]).path by {
            assert(channels[i].path != channels[j].path);
        }
    }
    if distinct_paths(after) {
        assert forall|i: int, j: int| 0 <= i < j < channels.len() implies (
        #[trigger] channels[i]).path != (#[trigger] channels[j]).path by {
            assert(after[i].path != after[j].path);
        }
    }
}

/// How often `port` occurs among the entries.
pub open spec fn occurrences(entries: Seq<EntryModel>, port: Seq<char>) -> nat
    decreases entries.len(),
{
    if entries.len() == 0 {
        0
    } else {
        occurrences(entries.drop_last(), port) + if entries.last().port == port {
            1nat
        } else {
            0nat
        }
    }
}

/// The poller as the contracts see it.
pub struct PollerModel {
    pub channels: Seq<ChannelModel>,
    pub bounds: DistanceBounds,
}

impl PollerModel {
    /// No two ports share a path.
    pub open spec fn wf(self) -> bool {
        distinct_paths(self.channels)
    }
}

/// The configured ports in their configured order, with the distance bounds
/// that apply to all of them.
///
/// A poller starts without ports and takes a path only once, so no two of its
/// ports share a path.
#[derive(Debug)]
pub struct Poller {
    channels: Vec<PortChannel>,
    bounds: DistanceBounds,
}

impl View for Poller {
    type V = PollerModel;

    closed spec fn view(&self) -> PollerModel {
        PollerModel {
            channels: Seq::new(self.channels@.len(), |i: int| self.channels@[i]@),
            bounds: self.bounds,
        }
    }
}

impl Poller {
    /// A poller without ports.
    pub fn new(bounds: DistanceBounds) -> (poller: Poller)
        ensures
            poller@.channels.len() == 0,
            poller@.bounds == bounds,
            poller@.wf(),
    {
        Poller { channels: Vec::new(), bounds }
    }

    /// Adds a port behind those configured so far, in its state after the
    /// attempt to open it. A path that is configured already is refused and
    /// leaves the poller as it was.
    pub fn add_port(&mut self, path: String, mode: Mode, opened: bool) -> (added: Result<
        (),
        ConfigError,
    >)
        ensures
            final(self)@.wf() == old(self)@.wf(),
            has_path(old(self)@.channels, path@) ==> added == Err::<(), ConfigError>(
                ConfigError::DuplicatePort,
            ) && final(self)@ == old(self)@,
            !has_path(old(self)@.channels, path@) ==> added is Ok && final(self)@ == (PollerModel {
                channels: old(self)@.channels.push(
                    ChannelModel {
                        path: path@,
                        mode,
                        state: if opened {
                            ChannelState::Open
                        } else {
                            ChannelState::Unavailable
                        },
                        last_accepted: None,
                    },
                ),
                ..old(self)@
            }),
    {
        let count: usize = self.channels.len();
        let mut at: usize = 0;
        while at < count
            invariant
                at <= count == self.channels.len(),
                *self == *old(self),
                forall|k: int| 0 <= k < at ==> (#[trigger] self.channels@[k])@.path != path@,
            decreases count - at,
        {
            if self.channels[at].has_path(&path) {
                assert(self@.channels[at as int].path == path@);
                return Err(ConfigError::DuplicatePort);
            }
            at = at + 1;
        }
        let channel = PortChannel::new(path, mode, opened);
        let ghost before = self@.channels;
        assert forall|k: int| 0 <= k < before.len() implies (#[trigger] before[k]).path
            != channel@.path by {
            assert(before[k] == self.channels@[k]@);
        }
        self.channels.push(channel);
        assert(self@.channels =~= before.push(channel@));
        proof {
            lemma_push_keeps_distinct(before, channel@);
        }
        Ok(())
    }

    pub fn port_count(&self) -> (count: usize)
        ensures
            count == self@.channels.len(),
    {
        self.channels.len()
    }

    pub fn bounds(&self) -> (bounds: DistanceBounds)
        ensures
            bounds == self@.bounds,
    {
        self.bounds
    }

    /// The port at `index`, by configured order.
    pub fn port(&self, index: usize) -> (channel: Option<&PortChannel>)
        ensures
            channel is Some <==> index < self@.channels.len(),
            channel matches Some(c) ==> c@ == self@.channels[index as int],
    {
        if index < self.channels.len() {
            Some(&self.channels[index])
        } else {
            None
        }
    }

    /// Whether polling may start: it may unless no port is configured at all.
    /// Ports that failed to open do not stand in the way.
    pub fn check_startup(&self) -> (ready: Result<(), StartupError>)
        ensures
            ready is Ok <==> self@.channels.len() > 0,
            ready is Err ==> ready == Err::<(), StartupError>(StartupError::NoPorts),
    {
        if self.channels.len() == 0 {
            Err(StartupError::NoPorts)
        } else {
            Ok(())
        }
    }

    /// What the caller is to do for the port at `index` in the coming cycle.
    pub fn action(&self, index: usize) -> (action: Option<PollAction>)
        ensures
            index >= self@.channels.len() ==> action is None,
            index < self@.channels.len() ==> action == Some(
                match self@.channels[index as int].state {
                    ChannelState::Unavailable => PollAction::Skip,
                    ChannelState::Open => match self@.channels[index as int].mode {
                        Mode::Binary => PollAction::ReadFrame,
                        Mode::Text => PollAction::ReadLine,
                    },
                },
            ),
    {
        if index < self.channels.len() {
            Some(self.channels[index].poll_action())
        } else {
            None
        }
    }

    /// Assembles the record of one cycle from the results of its reads, one
    /// per port in configured order.
    ///
    /// Entry `i` of the record is the report of port `i` for read `i` and
    /// depends on nothing else; port `i` takes in read `i`. The record is
    /// stamped with the text of `now`. A number of reads other than the
    /// number of ports is refused and leaves the poller as it was.
    pub fn poll(&mut self, now: &Timestamp, reads: &Vec<TimedRead>) -> (cycle: Result<
        CycleRecord,
        CycleError,
    >)
        ensures
            reads@.len() != old(self)@.channels.len() ==> cycle == Err::<CycleRecord, CycleError>(
                CycleError::ReadCountMismatch {
                    ports: old(self)@.channels.len() as usize,
                    reads: reads@.len() as usize,
                },
            ) && final(self)@ == old(self)@,
            reads@.len() == old(self)@.channels.len() ==> cycle is Ok && final(self)@ == (
            PollerModel {
                channels: channels_after(old(self)@.channels, reads@, old(self)@.bounds),
                ..old(self)@
            }),
            cycle matches Ok(record) ==> record@ == (RecordModel {
                timestamp: stamp_text(now@),
                entries: cycle_entries(old(self)@.channels, reads@, old(self)@.bounds),
            }),
            final(self)@.wf() == old(self)@.wf(),
    {
        let count: usize = self.channels.len();
        if reads.len() != count {
            return Err(CycleError::ReadCountMismatch { ports: count, reads: reads.len() });
        }
        let timestamp = now.text();
        let bounds = self.bounds;
        let ghost before = self.channels@;
        let mut entries: Vec<PortEntry> = Vec::new();
        let mut at: usize = 0;
        while at < count
            invariant
                at <= count == self.channels.len() == reads.len() == before.len(),
                self.bounds == bounds,
                entries@.len() == at,
                forall|k: int|
                    0 <= k < at ==> (#[trigger] entries@[k])@ == (EntryModel {
                        port: before[k]@.path,
                        report: report_for(before[k]@, reads@[k], bounds),
                    }),
                forall|k: int|
                    0 <= k < at ==> (#[trigger] self.channels@[k])@ == channel_after(
                        before[k]@,
                        reads@[k],
                        bounds,
                    ),
                forall|k: int| at <= k < count ==> #[trigger] self.channels@[k] == before[k],
            decreases count - at,
        {
            let port = self.channels[at].path().to_owned();
            let report = self.channels[at].absorb(&reads[at], &bounds);
            entries.push(PortEntry { port, report });
            at = at + 1;
        }
        let record = CycleRecord { timestamp, entries };
        assert(record@.entries =~= cycle_entries(old(self)@.channels, reads@, bounds));
        assert(self@.channels =~= channels_after(old(self)@.channels, reads@, bounds));
        proof {
            lemma_paths_kept(old(self)@.channels, reads@, bounds);
        }
        Ok(record)
    }
}

/// A port that none of the entries names occurs zero times among them.
pub proof fn lemma_absent_port(entries: Seq<EntryModel>, port: Seq<char>)
    requires
        forall|k: int| 0 <= k < entries.len() ==> (#[trigger] entries[k]).port != port,
    ensures
        occurrences(entries, port) == 0,
    decreases entries.len(),
{
    if entries.len() > 0 {
        let front = entries.drop_last();
        assert forall|k: int| 0 <= k < front.len() implies (#[trigger] front[k]).port != port by {
            assert(front[k] == entries[k]);
        }
        lemma_absent_port(front, port);
    }
}

/// Among entries that name pairwise different ports, the port of each entry
/// occurs exactly once.
pub proof fn lemma_named_once(entries: Seq<EntryModel>, index: int)
    requires
        0 <= index < entries.len(),
        forall|i: int, j: int|
            0 <= i < j < entries.len() ==> (#[trigger] entries[i]).port != (
            #[trigger] entries[j]).port,
    ensures
        occurrences(entries, entries[index].port) == 1,
    decreases entries.len(),
{
    let front = entries.drop_last();
    let port = entries[index].port;
    assert forall|k: int| 0 <= k < front.len() implies #[trigger] front[k] == entries[k] by {}
    if index == entries.len() - 1 {
        assert forall|k: int| 0 <= k < front.len() implies (#[trigger] front[k]).port != port by {
            assert(entries[k].port != entries[index].port);
        }
        lemma_absent_port(front, port);
    } else {
        assert(entries[index].port != entries[entries.len() - 1].port);
        assert forall|i: int, j: int| 0 <= i < j < front.len() implies (#[trigger] front[i]).port
            != (#[trigger] front[j]).port by {
            assert(entries[i].port != entries[j].port);
        }
        lemma_named_once(front, index);
    }
}

/// Completeness of a cycle: the record has one entry per configured port, in
/// configured order, and every configured port is named by exactly one entry,
/// whether the port opened or not and whatever its read brought back.
pub proof fn law_every_port_once(
    channels: Seq<ChannelModel>,
    reads: Seq<TimedRead>,
    bounds: DistanceBounds,
    index: int,
)
    requires
        distinct_paths(channels),
        0 <= index < channels.len(),
    ensures
        cycle_entries(channels, reads, bounds).len() == channels.len(),
        cycle_entries(channels, reads, bounds)[index].port == channels[index].path,
        occurrences(cycle_entries(channels, reads, bounds), channels[index].path) == 1,
{
    let entries = cycle_entries(channels, reads, bounds);
    assert forall|i: int, j: int| 0 <= i < j < entries.len() implies (#[trigger] entries[i]).port
        != (#[trigger] entries[j]).port by {
        assert(channels[i].path != channels[j].path);
    }
    lemma_named_once(entries, index);
}

/// A path that is not configured is named by no entry.
pub proof fn law_no_stray_entry(
    channels: Seq<ChannelModel>,
    reads: Seq<TimedRead>,
    bounds: DistanceBounds,
    port: Seq<char>,
)
    requires
        !has_path(channels, port),
    ensures
        occurrences(cycle_entries(channels, reads, bounds), port) == 0,
{
    let entries = cycle_entries(channels, reads, bounds);
    assert forall|k: int| 0 <= k < entries.len() implies (#[trigger] entries[k]).port != port by {
        assert(channels[k].path == entries[k].port);
    }
    lemma_absent_port(entries, port);
}

/// Isolation of ports: the entry of a port, and the port's state after the
/// cycle, are the same in any two cycles that hand this port the same read,
/// whatever the other ports are handed. A timeout or failure elsewhere neither
/// changes nor zeroes a reading.
pub proof fn law_ports_isolated(
    channels: Seq<ChannelModel>,
    reads: Seq<TimedRead>,
    other_reads: Seq<TimedRead>,
    bounds: DistanceBounds,
    index: int,
)
    requires
        0 <= index < channels.len(),
        reads[index] == other_reads[index],
    ensures
        cycle_entries(channels, reads, bounds)[index] == cycle_entries(
            channels,
            other_reads,
            bounds,
        )[index],
        channels_after(channels, reads, bounds)[index] == channels_after(
            channels,
            other_reads,
            bounds,
        )[index],
        cycle_entries(channels, reads, bounds)[index].report == report_for(
            channels[index],
            reads[index],
            bounds,
        ),
{
}

} // verus!
