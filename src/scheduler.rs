//! Acquisition scheduler: which reading each poll takes, in which order, and
//! the telemetry record each reading becomes.
use vstd::prelude::*;
use crate::adc::{
    channel_count, iteration_to_node_id, measurement_to_channel_type, spec_channel_count,
    spec_channel_type, spec_node_id, ChannelType, Measurement,
};

verus! {

/// Largest channel count of any converter kind: a poll runs channel indices
/// 0 to 5.
pub const MAX_CHANNELS: u64 = 6;

/// Number of rail nodes that the onboard converter exposes.
pub const ONBOARD_RAILS: u64 = 5;

/// Where a reading comes from.
#[derive(Debug, Clone, Copy, PartialEq, Eq, Structural)]
pub enum Source {
    /// The converter at this position of the board's converter list.
    Converter(usize),
    /// The onboard rail converter, read through its node files.
    Onboard,
}

/// One reading of a poll: its source, the converter kind, and the channel
/// index (for the onboard converter: the rail node index).
#[derive(Debug, Clone, Copy, PartialEq, Eq, Structural)]
pub struct Slot {
    pub source: Source,
    pub measurement: Measurement,
    pub iteration: u64,
}

/// One telemetry record. `value` and `timestamp` hold the bit patterns of
/// the 64-bit floats they stand for.
#[derive(Debug, Clone, Copy, PartialEq, Eq, Structural)]
pub struct DataPoint {
    pub value: u64,
    pub timestamp: u64,
    pub channel: u32,
    pub channel_type: ChannelType,
}

/// The readings that channel index `it` takes from the first `kinds.len()`
/// converters: each converter that has a channel `it`, in list order.
pub open spec fn slots_at(kinds: Seq<Measurement>, it: u64) -> Seq<Slot>
    decreases kinds.len(),
{
    if kinds.len() == 0 {
        seq![]
    } else {
        let j = kinds.len() - 1;
        slots_at(kinds.drop_last(), it) + if it < spec_channel_count(kinds[j]) {
            seq![Slot { source: Source::Converter(j as usize), measurement: kinds[j], iteration: it }]
        } else {
            seq![]
        }
    }
}

/// The converter readings of channel indices `0..n`, index by index.
pub open spec fn slots_upto(kinds: Seq<Measurement>, n: nat) -> Seq<Slot>
    decreases n,
{
    if n == 0 {
        seq![]
    } else {
        slots_upto(kinds, (n - 1) as nat) + slots_at(kinds, (n - 1) as u64)
    }
}

/// The onboard reading of poll number `poll`: rail node `poll mod 5`.
pub open spec fn onboard_slot(poll: u64) -> Slot {
    Slot { source: Source::Onboard, measurement: Measurement::VPower, iteration: poll % ONBOARD_RAILS }
}

/// Every reading of one poll: each converter once per channel it has, then
/// the onboard rail converter when the board has one.
pub open spec fn spec_poll_plan(kinds: Seq<Measurement>, onboard: bool, poll: u64) -> Seq<Slot> {
    slots_upto(kinds, MAX_CHANNELS as nat) + if onboard {
        seq![onboard_slot(poll)]
    } else {
        seq![]
    }
}

/// The readings of one poll, in the order they are taken.
pub fn poll_plan(kinds: &Vec<Measurement>, onboard: bool, poll: u64) -> (r: Vec<Slot>)
    ensures
        r@ == spec_poll_plan(kinds@, onboard, poll),
{
    let mut out: Vec<Slot> = Vec::new();
    let mut it: u64 = 0;
    while it < MAX_CHANNELS
        invariant
            it <= MAX_CHANNELS,
            out@ == slots_upto(kinds@, it as nat),
        decreases MAX_CHANNELS - it,
    {
        let ghost before = out@;
        let mut j: usize = 0;
        while j < kinds.len()
            invariant
                it < MAX_CHANNELS,
                j <= kinds@.len(),
                out@ == before + slots_at(kinds@.subrange(0, j as int), it),
            decreases kinds@.len() - j,
        {
            let m = kinds[j];
            proof {
                let p = kinds@.subrange(0, j as int + 1);
                assert(p.drop_last() =~= kinds@.subrange(0, j as int));
                assert(p[j as int] == m);
            }
            if it < channel_count(m) {
                out.push(Slot { source: Source::Converter(j), measurement: m, iteration: it });
            }
            j = j + 1;
            proof {
                assert(out@ =~= before + slots_at(kinds@.subrange(0, j as int), it));
            }
        }
        assert(kinds@.subrange(0, kinds@.len() as int) =~= kinds@);
        it = it + 1;
        proof {
            assert(out@ =~= slots_upto(kinds@, it as nat));
        }
    }
    if onboard {
        out.push(Slot { source: Source::Onboard, measurement: Measurement::VPower, iteration: poll % ONBOARD_RAILS });
    }
    proof {
        assert(out@ =~= spec_poll_plan(kinds@, onboard, poll));
    }
    out
}

/// The telemetry record of a reading of kind `measurement` on channel index
/// `iteration`.
pub fn generate_data_point(value: u64, timestamp: u64, iteration: u64, measurement: Measurement) -> (r: DataPoint)
    ensures
        r == (DataPoint {
            value,
            timestamp,
            channel: spec_node_id(measurement, iteration),
            channel_type: spec_channel_type(measurement),
        }),
{
    let channel = match iteration_to_node_id(measurement, iteration) {
        Some(c) => c,
        None => 0,
    };
    let channel_type = match measurement_to_channel_type(channel, measurement) {
        Some(t) => t,
        None => ChannelType::Rtd,
    };
    DataPoint { value, timestamp, channel, channel_type }
}

/// A board with one six-channel current-loop converter and the onboard rail
/// converter takes seven readings per poll, so 21 over three polls; the
/// converter's readings carry channel ids 1 to 6 in order in every poll.
pub proof fn lemma_current_loop_board_polls(poll: u64)
    requires
        poll + 2 <= u64::MAX,
    ensures
        ({
            let kinds = seq![Measurement::CurrentLoopPt];
            let first = spec_poll_plan(kinds, true, poll);
            let second = spec_poll_plan(kinds, true, (poll + 1) as u64);
            let third = spec_poll_plan(kinds, true, (poll + 2) as u64);
            &&& first.len() + second.len() + third.len() == 21
            &&& forall|i: int| 0 <= i < 6 ==> {
                &&& (#[trigger] first[i]).source == Source::Converter(0)
                &&& spec_node_id(first[i].measurement, first[i].iteration) == i + 1
                &&& second[i] == first[i]
                &&& third[i] == first[i]
            }
            &&& first[6].source == Source::Onboard
        }),
{
    let kinds = seq![Measurement::CurrentLoopPt];
    assert(kinds.drop_last() =~= seq![]);
    let s = |it: u64| Slot { source: Source::Converter(0), measurement: Measurement::CurrentLoopPt, iteration: it };
    assert forall|it: u64| it < 6 implies slots_at(kinds, it) == seq![s(it)] by {
        assert(slots_at(kinds.drop_last(), it) == Seq::<Slot>::empty());
        assert(slots_at(kinds, it) =~= seq![s(it)]);
    }
    reveal_with_fuel(slots_upto, 7);
    let c = slots_upto(kinds, 6);
    assert(c =~= seq![s(0), s(1), s(2), s(3), s(4), s(5)]);
}

} // verus!
