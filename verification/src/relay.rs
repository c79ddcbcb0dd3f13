//! Packet relay: where each packet of the source goes, and what a failed
//! write means for the rest of the operation.

use crate::streams::{
    lemma_mapped_count_is_selected_count, lemma_selected_count_bound,
    lemma_target_is_below_selected_count, lookup, mapped_count_of, mapping_of, selected_count,
    Medium, StreamMapping, StreamSelection,
};
use vstd::prelude::*;

verus! {

/// What to do when a packet cannot be written.
#[derive(Clone, Copy, Debug, PartialEq, Eq, Structural)]
pub enum PacketFailurePolicy {
    /// Count the failure and go on with the next packet.
    BestEffort,
    /// Give the operation up at the first failure.
    FailFast,
}

/// What happens to one packet of the source.
#[derive(Clone, Copy, Debug, PartialEq, Eq, Structural)]
pub enum RelayAction {
    /// The packet belongs to a stream that is not mapped: it is dropped.
    Discard,
    /// The packet is written to the destination as a packet of the stream
    /// `output_index`; nothing else of it changes.
    Write { output_index: usize },
}

/// Whether the relay goes on after a packet.
#[derive(Clone, Copy, Debug, PartialEq, Eq, Structural)]
pub enum RelayVerdict {
    Continue,
    Abort,
}

/// The action that a mapping prescribes for a packet of the source stream
/// at `source_index`.
pub open spec fn routed(targets: Seq<Option<usize>>, source_index: int) -> RelayAction {
    match lookup(targets, source_index) {
        Some(output_index) => RelayAction::Write { output_index },
        None => RelayAction::Discard,
    }
}

/// Decides what happens to a packet of the source stream at
/// `source_index`: a packet of a mapped stream is written under the
/// destination index of its stream, any other packet is dropped.
pub fn route_packet(mapping: &StreamMapping, source_index: usize) -> (action: RelayAction)
    ensures
        action == routed(mapping@, source_index as int),
{
    match mapping.target(source_index) {
        Some(output_index) => RelayAction::Write { output_index },
        None => RelayAction::Discard,
    }
}

/// A counter after one more event; it stays at its maximum once there.
pub open spec fn bumped(count: u64) -> u64 {
    if count == u64::MAX {
        count
    } else {
        (count + 1) as u64
    }
}

/// Whether the relay goes on after a write that succeeded or failed.
pub open spec fn verdict_of(policy: PacketFailurePolicy, succeeded: bool) -> RelayVerdict {
    if !succeeded && policy == PacketFailurePolicy::FailFast {
        RelayVerdict::Abort
    } else {
        RelayVerdict::Continue
    }
}

/// What a relay has done so far.
#[derive(Clone, Copy, Debug, PartialEq, Eq, Structural)]
pub struct RelayLog {
    /// Packets written to the destination.
    pub written: u64,
    /// Packets whose write failed.
    pub failed: u64,
}

impl RelayLog {
    /// The log of a relay that has not seen a packet yet.
    pub fn new() -> (log: RelayLog)
        ensures
            log == (RelayLog { written: 0, failed: 0 }),
    {
        RelayLog { written: 0, failed: 0 }
    }

    /// Records the outcome of one write and says whether the relay goes
    /// on. A failed write is counted; it ends the relay only under
    /// `FailFast`.
    pub fn record_write(&mut self, policy: PacketFailurePolicy, succeeded: bool) -> (verdict:
        RelayVerdict)
        ensures
            verdict == verdict_of(policy, succeeded),
            succeeded ==> *final(self) == (RelayLog {
                written: bumped(old(self).written),
                failed: old(self).failed,
            }),
            !succeeded ==> *final(self) == (RelayLog {
                written: old(self).written,
                failed: bumped(old(self).failed),
            }),
    {
        if succeeded {
            self.written = self.written.saturating_add(1);
            RelayVerdict::Continue
        } else {
            self.failed = self.failed.saturating_add(1);
            match policy {
                PacketFailurePolicy::BestEffort => RelayVerdict::Continue,
                PacketFailurePolicy::FailFast => RelayVerdict::Abort,
            }
        }
    }
}

/// Under `BestEffort` no outcome of a write ends the relay.
pub proof fn lemma_best_effort_never_aborts(succeeded: bool)
    ensures
        verdict_of(PacketFailurePolicy::BestEffort, succeeded) == RelayVerdict::Continue,
{
}

/// A relay follows the selection. The destination has one stream for each
/// selected stream of the source; a packet of a selected stream is written
/// to the destination stream that counts the selected streams before its
/// own, which is one of the destination's streams; a packet of any other
/// stream is dropped.
pub proof fn lemma_relay_follows_selection(
    media: Seq<Medium>,
    selection: StreamSelection,
    source_index: int,
)
    requires
        media.len() <= usize::MAX,
        0 <= source_index < media.len(),
    ensures
        ({
            let targets = mapping_of(media, selection);
            let before = selected_count(media.take(source_index), selection);
            &&& mapped_count_of(targets) == selected_count(media, selection)
            &&& selection.selects(source_index, media[source_index]) ==> {
                &&& before < mapped_count_of(targets)
                &&& routed(targets, source_index) == (RelayAction::Write {
                    output_index: before as usize,
                })
            }
            &&& !selection.selects(source_index, media[source_index]) ==> routed(
                targets,
                source_index,
            ) == RelayAction::Discard
        }),
{
    lemma_mapped_count_is_selected_count(media, selection);
    lemma_selected_count_bound(media, selection);
    if selection.selects(source_index, media[source_index]) {
        lemma_target_is_below_selected_count(media, selection, source_index);
    }
}

/// What the destination receives of a run of packets when each packet is
/// treated as `routed` says and every write succeeds. A packet is the index
/// of its stream and everything else of it; what is written is the
/// destination's stream index and everything else, as it was.
pub open spec fn relayed<P>(targets: Seq<Option<usize>>, packets: Seq<(int, P)>) -> Seq<(int, P)>
    decreases packets.len(),
{
    if packets.len() == 0 {
        Seq::empty()
    } else {
        let before = relayed(targets, packets.drop_last());
        match routed(targets, packets.last().0) {
            RelayAction::Write { output_index } => before.push(
                (output_index as int, packets.last().1),
            ),
            RelayAction::Discard => before,
        }
    }
}

/// Every packet of a mapped stream reaches the destination, under the
/// destination index of its stream and otherwise unchanged, and in the
/// order of the source: it stands behind exactly the packets of mapped
/// streams that came before it.
pub proof fn lemma_relay_keeps_packets_of_mapped_streams<P>(
    targets: Seq<Option<usize>>,
    packets: Seq<(int, P)>,
    position: int,
)
    requires
        0 <= position < packets.len(),
        lookup(targets, packets[position].0) is Some,
    ensures
        ({
            let written = relayed(targets, packets);
            let place = relayed(targets, packets.take(position)).len() as int;
            &&& place < written.len()
            &&& written[place] == (
                lookup(targets, packets[position].0).unwrap() as int,
                packets[position].1,
            )
        }),
    decreases packets.len(),
{
    if position == packets.len() - 1 {
        assert(packets.take(position) =~= packets.drop_last());
    } else {
        lemma_relay_keeps_packets_of_mapped_streams(targets, packets.drop_last(), position);
        assert(packets.drop_last().take(position) =~= packets.take(position));
    }
}

/// Nothing reaches the destination but packets of mapped streams: each
/// written packet is a packet of the source whose stream is mapped to the
/// index it was written under.
pub proof fn lemma_relay_writes_only_packets_of_mapped_streams<P>(
    targets: Seq<Option<usize>>,
    packets: Seq<(int, P)>,
    place: int,
)
    requires
        0 <= place < relayed(targets, packets).len(),
    ensures
        exists|position: int|
            0 <= position < packets.len() && lookup(targets, (#[trigger] packets[position]).0)
                == Some(relayed(targets, packets)[place].0 as usize) && packets[position].1
                == relayed(targets, packets)[place].1,
    decreases packets.len(),
{
    let before = relayed(targets, packets.drop_last());
    if place < before.len() {
        lemma_relay_writes_only_packets_of_mapped_streams(targets, packets.drop_last(), place);
        let position = choose|position: int|
            0 <= position < packets.drop_last().len() && lookup(
                targets,
                (#[trigger] packets.drop_last()[position]).0,
            ) == Some(before[place].0 as usize) && packets.drop_last()[position].1
                == before[place].1;
        assert(packets[position] == packets.drop_last()[position]);
    } else {
        let last = packets.len() - 1;
        assert(packets[last] == packets.last());
    }
}

} // verus!
