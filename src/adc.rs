//! Converter driver protocol: per sensor kind, the register programming done
//! once at start-up, the channel multiplexing done each round, the command
//! frames exchanged over the bus, and which conversion a raw sample gets.
//!
//! The physical-unit formulas themselves are floating point and are evaluated
//! by the caller from the [`Conversion`] that this module decides on.
use vstd::prelude::*;

verus! {

/// Kind of sensor behind a converter.
#[derive(Debug, Clone, Copy, PartialEq, Eq, Structural)]
pub enum Measurement {
    CurrentLoopPt,
    VValve,
    IValve,
    VPower,
    IPower,
    Tc1,
    Tc2,
    DiffSensors,
    Rtd1,
    Rtd2,
    Rtd3,
}

/// Telemetry tag of a channel.
#[derive(Debug, Clone, Copy, PartialEq, Eq, Structural)]
pub enum ChannelType {
    CurrentLoop,
    ValveVoltage,
    ValveCurrent,
    RailVoltage,
    RailCurrent,
    Tc,
    DifferentialSignal,
    Rtd,
}

/// Number of physical inputs that a converter of kind `m` cycles through.
pub open spec fn spec_channel_count(m: Measurement) -> u64 {
    match m {
        Measurement::CurrentLoopPt | Measurement::VValve | Measurement::IValve => 6,
        Measurement::VPower => 5,
        Measurement::Tc1 | Measurement::Tc2 => 4,
        Measurement::IPower | Measurement::DiffSensors | Measurement::Rtd1 | Measurement::Rtd2
        | Measurement::Rtd3 => 2,
    }
}

/// First telemetry channel id of kind `m`.
pub open spec fn spec_node_offset(m: Measurement) -> u64 {
    match m {
        Measurement::Tc1 => 0,
        Measurement::Tc2 | Measurement::Rtd2 => 3,
        Measurement::Rtd3 => 5,
        _ => 1,
    }
}

/// The input that round `iteration` selects.
pub open spec fn spec_channel_index(m: Measurement, iteration: u64) -> u64 {
    iteration % spec_channel_count(m)
}

/// The telemetry channel id of the reading taken in round `iteration`.
pub open spec fn spec_node_id(m: Measurement, iteration: u64) -> u32 {
    (spec_channel_index(m, iteration) + spec_node_offset(m)) as u32
}

pub open spec fn spec_channel_type(m: Measurement) -> ChannelType {
    match m {
        Measurement::CurrentLoopPt => ChannelType::CurrentLoop,
        Measurement::VValve => ChannelType::ValveVoltage,
        Measurement::IValve => ChannelType::ValveCurrent,
        Measurement::VPower => ChannelType::RailVoltage,
        Measurement::IPower => ChannelType::RailCurrent,
        Measurement::DiffSensors => ChannelType::DifferentialSignal,
        Measurement::Rtd1 | Measurement::Rtd2 | Measurement::Rtd3 => ChannelType::Rtd,
        Measurement::Tc1 | Measurement::Tc2 => ChannelType::Tc,
    }
}

pub fn channel_count(m: Measurement) -> (r: u64)
    ensures
        r == spec_channel_count(m),
        1 <= r <= 6,
{
    match m {
        Measurement::CurrentLoopPt | Measurement::VValve | Measurement::IValve => 6,
        Measurement::VPower => 5,
        Measurement::Tc1 | Measurement::Tc2 => 4,
        Measurement::IPower | Measurement::DiffSensors | Measurement::Rtd1 | Measurement::Rtd2
        | Measurement::Rtd3 => 2,
    }
}

/// The input selected in round `iteration`: `iteration` modulo the kind's
/// channel count.
pub fn channel_index(m: Measurement, iteration: u64) -> (r: u64)
    ensures
        r == spec_channel_index(m, iteration),
        r < spec_channel_count(m),
{
    iteration % channel_count(m)
}

/// The telemetry channel id for kind `m` in round `iteration`.
pub fn iteration_to_node_id(m: Measurement, iteration: u64) -> (r: Option<u32>)
    ensures
        r == Some(spec_node_id(m, iteration)),
        spec_node_id(m, iteration) < 8,
{
    let offset: u64 = match m {
        Measurement::Tc1 => 0,
        Measurement::Tc2 | Measurement::Rtd2 => 3,
        Measurement::Rtd3 => 5,
        _ => 1,
    };
    let node_id = channel_index(m, iteration) + offset;
    Some(node_id as u32)
}

/// The telemetry tag of a channel of kind `m`; every channel of a kind
/// carries the same tag.
pub fn measurement_to_channel_type(node_id: u32, m: Measurement) -> (r: Option<ChannelType>)
    ensures
        r == Some(spec_channel_type(m)),
{
    match m {
        Measurement::CurrentLoopPt => Some(ChannelType::CurrentLoop),
        Measurement::VValve => Some(ChannelType::ValveVoltage),
        Measurement::IValve => Some(ChannelType::ValveCurrent),
        Measurement::VPower => Some(ChannelType::RailVoltage),
        Measurement::IPower => Some(ChannelType::RailCurrent),
        Measurement::DiffSensors => Some(ChannelType::DifferentialSignal),
        Measurement::Rtd1 | Measurement::Rtd2 | Measurement::Rtd3 => Some(ChannelType::Rtd),
        Measurement::Tc1 | Measurement::Tc2 => Some(ChannelType::Tc),
    }
}

/// A register write: register address and the byte written to it.
pub type RegWrite = (u8, u8);

/// Register writes done once at start-up: reference/gain, output data rate
/// and idle multiplexer state.
pub open spec fn spec_init_writes(m: Measurement) -> Seq<RegWrite> {
    match m {
        Measurement::Rtd1 | Measurement::Rtd2 | Measurement::Rtd3 => seq![
            (0x03u8, 0x00u8),
            (0x04u8, 0x1Eu8),
            (0x06u8, 0x47u8),
            (0x07u8, 0x50u8),
        ],
        Measurement::Tc1 | Measurement::Tc2 | Measurement::DiffSensors => seq![
            (0x03u8, 0x0Du8),
            (0x04u8, 0x1Eu8),
            (0x05u8, 0x0Au8),
        ],
        _ => seq![(0x03u8, 0x00u8), (0x04u8, 0x1Eu8), (0x05u8, 0x0Au8)],
    }
}

/// Register writes that select the input of channel `idx`, for the kinds
/// whose multiplexer is programmed per round.
pub open spec fn spec_mux_writes(m: Measurement, idx: u64) -> Option<Seq<RegWrite>> {
    match m {
        Measurement::CurrentLoopPt | Measurement::VValve | Measurement::IValve => Some(
            seq![(0x02u8, (idx * 0x10 + 0x0C) as u8)],
        ),
        Measurement::Rtd1 | Measurement::Rtd2 | Measurement::Rtd3 => Some(
            if idx == 0 {
                seq![(0x02u8, 0x12u8), (0x05u8, 0x12u8)]
            } else {
                seq![(0x02u8, 0x34u8), (0x05u8, 0x16u8)]
            },
        ),
        Measurement::DiffSensors => Some(
            if idx == 0 {
                seq![(0x02u8, 0x01u8)]
            } else {
                seq![(0x02u8, 0x23u8)]
            },
        ),
        _ => None,
    }
}

/// The start-up register programming of a converter of kind `m`.
pub fn init_reg_writes(m: Measurement) -> (r: Vec<RegWrite>)
    ensures
        r@ == spec_init_writes(m),
{
    match m {
        Measurement::Rtd1 | Measurement::Rtd2 | Measurement::Rtd3 => vec![
            (0x03u8, 0x00u8),
            (0x04u8, 0x1Eu8),
            (0x06u8, 0x47u8),
            (0x07u8, 0x50u8),
        ],
        Measurement::Tc1 | Measurement::Tc2 | Measurement::DiffSensors => vec![
            (0x03u8, 0x0Du8),
            (0x04u8, 0x1Eu8),
            (0x05u8, 0x0Au8),
        ],
        _ => vec![(0x03u8, 0x00u8), (0x04u8, 0x1Eu8), (0x05u8, 0x0Au8)],
    }
}

/// The register writes that select the input for round `iteration`, or
/// `None` for the kinds whose input is not multiplexed by register (rail
/// and thermocouple converters).
pub fn write_iteration(m: Measurement, iteration: u64) -> (r: Option<Vec<RegWrite>>)
    ensures
        match r {
            Some(w) => spec_mux_writes(m, spec_channel_index(m, iteration)) == Some(w@),
            None => spec_mux_writes(m, spec_channel_index(m, iteration)).is_none(),
        },
{
    let idx = channel_index(m, iteration);
    match m {
        Measurement::CurrentLoopPt | Measurement::VValve | Measurement::IValve => {
            assert(idx * 0x10 < 0x60);
            Some(vec![(0x02u8, (idx * 0x10 + 0x0C) as u8)])
        },
        Measurement::Rtd1 | Measurement::Rtd2 | Measurement::Rtd3 => {
            if idx == 0 {
                Some(vec![(0x02u8, 0x12u8), (0x05u8, 0x12u8)])
            } else {
                Some(vec![(0x02u8, 0x34u8), (0x05u8, 0x16u8)])
            }
        },
        Measurement::DiffSensors => {
            if idx == 0 {
                Some(vec![(0x02u8, 0x01u8)])
            } else {
                Some(vec![(0x02u8, 0x23u8)])
            }
        },
        _ => None,
    }
}

/// Command byte: reset.
pub const CMD_RESET: u8 = 0x06;
/// Command byte: start conversion.
pub const CMD_START: u8 = 0x08;
/// Command byte: read conversion data.
pub const CMD_RDATA: u8 = 0x12;
/// Command byte: self offset calibration.
pub const CMD_SFOCAL: u8 = 0x19;
/// Length of a register-read frame.
pub const READ_REGS_FRAME_LEN: usize = 20;

/// The frame that writes `data` to register `reg`.
pub fn write_reg_frame(reg: u8, data: u8) -> (r: Vec<u8>)
    ensures
        r@ == seq![(0x40u8 | reg), 0u8, data],
{
    vec![0x40u8 | reg, 0u8, data]
}

/// The frame that reads `num_regs` registers starting at `reg`, padded with
/// zeros to the frame length.
pub fn read_regs_frame(reg: u8, num_regs: u8) -> (r: Vec<u8>)
    ensures
        r@.len() == READ_REGS_FRAME_LEN,
        r@[0] == 0x20u8 | reg,
        r@[1] == num_regs,
        forall|i: int| 2 <= i < READ_REGS_FRAME_LEN ==> r@[i] == 0,
{
    let mut f: Vec<u8> = Vec::new();
    f.push(0x20u8 | reg);
    f.push(num_regs);
    while f.len() < READ_REGS_FRAME_LEN
        invariant
            2 <= f@.len() <= READ_REGS_FRAME_LEN,
            f@[0] == 0x20u8 | reg,
            f@[1] == num_regs,
            forall|i: int| 2 <= i < f@.len() ==> f@[i] == 0,
        decreases READ_REGS_FRAME_LEN - f@.len(),
    {
        f.push(0u8);
    }
    f
}

/// The frame that reads one conversion result.
pub fn read_data_frame() -> (r: Vec<u8>)
    ensures
        r@ == seq![CMD_RDATA, 0u8, 0u8],
{
    vec![CMD_RDATA, 0u8, 0u8]
}

/// True when every byte of a register read-back is zero: the converter is
/// not responding.
pub fn regs_all_zero(rx: &Vec<u8>) -> (r: bool)
    ensures
        r == forall|i: int| 0 <= i < rx@.len() ==> rx@[i] == 0,
{
    let mut i: usize = 0;
    while i < rx.len()
        invariant
            i <= rx@.len(),
            forall|j: int| 0 <= j < i ==> rx@[j] == 0,
        decreases rx@.len() - i,
    {
        if rx[i] != 0 {
            return false;
        }
        i = i + 1;
    }
    true
}

/// The signed 16-bit sample carried big-endian in bytes 1 and 2 of a reply.
pub open spec fn spec_sample(hi: u8, lo: u8) -> int {
    if hi < 128 {
        hi * 256 + lo
    } else {
        hi * 256 + lo - 65536
    }
}

pub fn decode_sample(rx: &Vec<u8>) -> (r: i16)
    requires
        rx@.len() >= 3,
    ensures
        r as int == spec_sample(rx@[1], rx@[2]),
{
    let hi = rx[1];
    let lo = rx[2];
    let w: u16 = ((hi as u16) << 8u16) | (lo as u16);
    assert(w as int == hi * 256 + lo) by (bit_vector)
        requires w == ((hi as u16) << 8u16) | (lo as u16);
    if hi < 128 {
        w as i16
    } else {
        (w as i32 - 65536) as i16
    }
}

/// True when the resistance `raw * 2500 / 2^15` of an RTD sample is at most
/// 100 ohm, so that the low-range fit applies; the boundary itself belongs
/// to the low range.
pub open spec fn spec_rtd_low_range(raw: i16) -> bool {
    raw as int * 2500 <= 100 * 32768
}

pub fn rtd_low_range(raw: i16) -> (r: bool)
    ensures
        r == spec_rtd_low_range(raw),
{
    (raw as i32) * 2500 <= 100 * 32768
}

/// Which formula turns a raw sample into a physical value, with the
/// integer inputs it needs.
#[derive(Debug, Clone, Copy, PartialEq, Eq, Structural)]
pub enum Conversion {
    /// `raw * 2.5 / 2^14`
    CurrentLoop { raw: i16 },
    /// `raw * 2.5 / 2^15 * 1200 / 1000`
    ValveCurrent { raw: i16 },
    /// `raw * 2.5 / 2^15 * 11`
    DividedVoltage { raw: i16 },
    /// `(raw + 32768) * 2.5 / 2^15`
    RailCurrent { raw: i16 },
    /// The RTD quadratic fit on `raw * 2500 / 2^15`, low-range or high-range.
    Rtd { raw: i16, low_range: bool },
    /// A thermocouple converter's ambient-junction reading:
    /// `raw * 2.5 / 2^15 * 1000`.
    Ambient { raw: i16 },
    /// A thermocouple reading `raw * 2.5 / 2^15 / 0.032`, compensated with
    /// the ambient temperature of the cached ambient sample (none yet: zero).
    Thermocouple { raw: i16, ambient: Option<i16> },
    /// `raw * 2.5 / 2^15 / 0.032 / 1000`
    Differential { raw: i16 },
}

/// A converter: its sensor kind and its calibration scratch state, the last
/// ambient-junction sample of a thermocouple converter.
#[derive(Debug, Clone, Copy, PartialEq, Eq, Structural)]
pub struct Adc {
    pub measurement: Measurement,
    pub ambient: Option<i16>,
}

/// True for rounds that read the ambient junction of a thermocouple converter.
pub open spec fn spec_is_ambient_round(iteration: u64) -> bool {
    iteration % 4 == 0
}

/// The conversion applied to sample `raw` of round `iteration`, given the
/// cached ambient sample.
pub open spec fn spec_conversion(m: Measurement, ambient: Option<i16>, iteration: u64, raw: i16) -> Conversion {
    match m {
        Measurement::CurrentLoopPt => Conversion::CurrentLoop { raw },
        Measurement::IValve => Conversion::ValveCurrent { raw },
        Measurement::VPower | Measurement::VValve => Conversion::DividedVoltage { raw },
        Measurement::IPower => Conversion::RailCurrent { raw },
        Measurement::Rtd1 | Measurement::Rtd2 | Measurement::Rtd3 => Conversion::Rtd {
            raw,
            low_range: spec_rtd_low_range(raw),
        },
        Measurement::Tc1 | Measurement::Tc2 => if spec_is_ambient_round(iteration) {
            Conversion::Ambient { raw }
        } else {
            Conversion::Thermocouple { raw, ambient }
        },
        Measurement::DiffSensors => Conversion::Differential { raw },
    }
}

/// The cached ambient sample after sample `raw` of round `iteration`.
pub open spec fn spec_next_ambient(m: Measurement, ambient: Option<i16>, iteration: u64, raw: i16) -> Option<i16> {
    match m {
        Measurement::Tc1 | Measurement::Tc2 => if spec_is_ambient_round(iteration) {
            Some(raw)
        } else {
            ambient
        },
        _ => ambient,
    }
}

/// Register writes that follow an ambient-junction read: the system monitor
/// and the amplifier gain are set back for thermocouple reads.
pub open spec fn spec_post_read_writes(m: Measurement, iteration: u64) -> Seq<RegWrite> {
    match m {
        Measurement::Tc1 | Measurement::Tc2 => if spec_is_ambient_round(iteration) {
            seq![(0x09u8, 0x00u8), (0x03u8, 0x0Du8)]
        } else {
            seq![]
        },
        _ => seq![],
    }
}

impl Adc {
    /// A converter for kind `measurement`, with nothing cached yet.
    pub fn new(measurement: Measurement) -> (r: Adc)
        ensures
            r.measurement == measurement,
            r.ambient.is_none(),
    {
        Adc { measurement, ambient: None }
    }

    /// Whether this kind signals fresh data on a data-ready line; the
    /// thermocouple converters do not.
    pub fn uses_data_ready(&self) -> (r: bool)
        ensures
            r == !(self.measurement == Measurement::Tc1 || self.measurement == Measurement::Tc2),
    {
        !(self.measurement == Measurement::Tc1 || self.measurement == Measurement::Tc2)
    }

    /// Decides how sample `raw` of round `iteration` is converted, and
    /// updates the cached ambient sample: a thermocouple converter caches
    /// the sample of every fourth round and compensates the others with it.
    pub fn test_read_individual(&mut self, iteration: u64, raw: i16) -> (r: Conversion)
        ensures
            r == spec_conversion(old(self).measurement, old(self).ambient, iteration, raw),
            final(self).measurement == old(self).measurement,
            final(self).ambient == spec_next_ambient(old(self).measurement, old(self).ambient, iteration, raw),
    {
        match self.measurement {
            Measurement::CurrentLoopPt => Conversion::CurrentLoop { raw },
            Measurement::IValve => Conversion::ValveCurrent { raw },
            Measurement::VPower | Measurement::VValve => Conversion::DividedVoltage { raw },
            Measurement::IPower => Conversion::RailCurrent { raw },
            Measurement::Rtd1 | Measurement::Rtd2 | Measurement::Rtd3 => Conversion::Rtd {
                raw,
                low_range: rtd_low_range(raw),
            },
            Measurement::Tc1 | Measurement::Tc2 => {
                if iteration % 4 == 0 {
                    self.ambient = Some(raw);
                    Conversion::Ambient { raw }
                } else {
                    Conversion::Thermocouple { raw, ambient: self.ambient }
                }
            },
            Measurement::DiffSensors => Conversion::Differential { raw },
        }
    }

    /// The register writes that follow the read of round `iteration`.
    pub fn post_read_writes(&self, iteration: u64) -> (r: Vec<RegWrite>)
        ensures
            r@ == spec_post_read_writes(self.measurement, iteration),
    {
        match self.measurement {
            Measurement::Tc1 | Measurement::Tc2 => {
                if iteration % 4 == 0 {
                    vec![(0x09u8, 0x00u8), (0x03u8, 0x0Du8)]
                } else {
                    vec![]
                }
            },
            _ => vec![],
        }
    }
}

/// One step of a converter's turn in a poll.
#[derive(Debug, Clone, Copy, PartialEq, Eq, Structural)]
pub enum Step {
    /// Assert the chip select (drive it low).
    SelectChip,
    /// Wait until the data-ready line reads low.
    AwaitDataReady,
    /// Send the read-data frame and decode the sample in the reply.
    ReadSample,
    /// Write a register.
    WriteReg(u8, u8),
    /// Deassert the chip select (drive it high).
    DeselectChip,
}

/// The round after `iteration`, wrapping at the top.
pub open spec fn next_iteration(iteration: u64) -> u64 {
    if iteration < u64::MAX {
        (iteration + 1) as u64
    } else {
        0
    }
}

/// The writes of `w` as steps.
pub open spec fn write_steps(w: Seq<RegWrite>) -> Seq<Step> {
    w.map_values(|x: RegWrite| Step::WriteReg(x.0, x.1))
}

/// A converter's turn in round `iteration`: select it, wait for data where
/// the kind signals it, read the sample, do the writes that follow the read,
/// program the input of the next round, deselect it.
pub open spec fn spec_round_steps(m: Measurement, iteration: u64) -> Seq<Step> {
    let wait = if m == Measurement::Tc1 || m == Measurement::Tc2 {
        seq![]
    } else {
        seq![Step::AwaitDataReady]
    };
    let next = match spec_mux_writes(m, spec_channel_index(m, next_iteration(iteration))) {
        Some(w) => write_steps(w),
        None => seq![],
    };
    seq![Step::SelectChip] + wait + seq![Step::ReadSample] + write_steps(spec_post_read_writes(m, iteration))
        + next + seq![Step::DeselectChip]
}

fn push_writes(out: &mut Vec<Step>, w: &Vec<RegWrite>)
    ensures
        final(out)@ == old(out)@ + write_steps(w@),
{
    let ghost o = out@;
    let mut i: usize = 0;
    while i < w.len()
        invariant
            i <= w@.len(),
            out@ == o + write_steps(w@.subrange(0, i as int)),
        decreases w@.len() - i,
    {
        let (reg, data) = w[i];
        out.push(Step::WriteReg(reg, data));
        i = i + 1;
        assert(write_steps(w@.subrange(0, i as int)) =~= write_steps(w@.subrange(0, i as int - 1)).push(Step::WriteReg(reg, data)));
        assert(out@ =~= o + write_steps(w@.subrange(0, i as int)));
    }
    assert(w@.subrange(0, w@.len() as int) =~= w@);
}

impl Adc {
    /// The steps of this converter's turn in round `iteration`.
    pub fn round_steps(&self, iteration: u64) -> (r: Vec<Step>)
        ensures
            r@ == spec_round_steps(self.measurement, iteration),
    {
        let mut out: Vec<Step> = vec![Step::SelectChip];
        if self.uses_data_ready() {
            out.push(Step::AwaitDataReady);
        }
        out.push(Step::ReadSample);
        let post = self.post_read_writes(iteration);
        push_writes(&mut out, &post);
        let next_it: u64 = if iteration < u64::MAX { iteration + 1 } else { 0 };
        match write_iteration(self.measurement, next_it) {
            Some(w) => push_writes(&mut out, &w),
            None => {},
        }
        out.push(Step::DeselectChip);
        proof {
            let m = self.measurement;
            let wait: Seq<Step> = if m == Measurement::Tc1 || m == Measurement::Tc2 { seq![] } else { seq![Step::AwaitDataReady] };
            assert(out@ =~= spec_round_steps(m, iteration));
        }
        out
    }
}

/// Over one full cycle of four rounds that starts with an ambient round, a
/// thermocouple converter caches the first round's sample and compensates
/// the three rounds that follow with exactly that sample.
pub proof fn lemma_ambient_cache_cycle(m: Measurement, ambient: Option<i16>, k: u64, raws: Seq<i16>)
    requires
        m == Measurement::Tc1 || m == Measurement::Tc2,
        k % 4 == 0,
        k + 3 <= u64::MAX,
        raws.len() == 4,
    ensures
        ({
            let a1 = spec_next_ambient(m, ambient, k, raws[0]);
            let a2 = spec_next_ambient(m, a1, (k + 1) as u64, raws[1]);
            let a3 = spec_next_ambient(m, a2, (k + 2) as u64, raws[2]);
            &&& spec_conversion(m, ambient, k, raws[0]) == Conversion::Ambient { raw: raws[0] }
            &&& a1 == Some(raws[0])
            &&& spec_conversion(m, a1, (k + 1) as u64, raws[1]) == (Conversion::Thermocouple { raw: raws[1], ambient: Some(raws[0]) })
            &&& spec_conversion(m, a2, (k + 2) as u64, raws[2]) == (Conversion::Thermocouple { raw: raws[2], ambient: Some(raws[0]) })
            &&& spec_conversion(m, a3, (k + 3) as u64, raws[3]) == (Conversion::Thermocouple { raw: raws[3], ambient: Some(raws[0]) })
        }),
{
}

} // verus!
