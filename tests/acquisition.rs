use sam::adc::{
    channel_count, channel_index, decode_sample, init_reg_writes, iteration_to_node_id, measurement_to_channel_type,
    read_data_frame, read_regs_frame, regs_all_zero, rtd_low_range, write_iteration, write_reg_frame, Adc, ChannelType, Step,
    Conversion, Measurement,
};
use sam::heartbeat::{Supervisor, SupervisorEvent};
use sam::scheduler::{generate_data_point, poll_plan, DataPoint, Slot, Source};
use sam::telemetry::{decode_frame, encode_frame};

const KINDS: [Measurement; 11] = [
    Measurement::CurrentLoopPt,
    Measurement::VValve,
    Measurement::IValve,
    Measurement::VPower,
    Measurement::IPower,
    Measurement::Tc1,
    Measurement::Tc2,
    Measurement::DiffSensors,
    Measurement::Rtd1,
    Measurement::Rtd2,
    Measurement::Rtd3,
];

#[test]
fn channel_index_is_iteration_mod_count() {
    let counts = [6u64, 6, 6, 5, 2, 4, 4, 2, 2, 2, 2];
    for (m, n) in KINDS.iter().zip(counts.iter()) {
        assert_eq!(channel_count(*m), *n);
        for it in 0..20u64 {
            assert_eq!(channel_index(*m, it), it % n);
        }
    }
}

#[test]
fn node_ids_per_kind() {
    let offsets = [1u64, 1, 1, 1, 1, 0, 3, 1, 1, 3, 5];
    let counts = [6u64, 6, 6, 5, 2, 4, 4, 2, 2, 2, 2];
    for i in 0..KINDS.len() {
        for it in 0..13u64 {
            assert_eq!(iteration_to_node_id(KINDS[i], it), Some((it % counts[i] + offsets[i]) as u32));
        }
    }
    assert_eq!(iteration_to_node_id(Measurement::Rtd3, 1), Some(6));
    assert_eq!(iteration_to_node_id(Measurement::Tc1, 4), Some(0));
}

#[test]
fn channel_types_per_kind() {
    let types = [
        ChannelType::CurrentLoop,
        ChannelType::ValveVoltage,
        ChannelType::ValveCurrent,
        ChannelType::RailVoltage,
        ChannelType::RailCurrent,
        ChannelType::Tc,
        ChannelType::Tc,
        ChannelType::DifferentialSignal,
        ChannelType::Rtd,
        ChannelType::Rtd,
        ChannelType::Rtd,
    ];
    for i in 0..KINDS.len() {
        assert_eq!(measurement_to_channel_type(0, KINDS[i]), Some(types[i]));
    }
}

#[test]
fn mux_register_writes() {
    assert_eq!(write_iteration(Measurement::CurrentLoopPt, 0), Some(vec![(0x02, 0x0C)]));
    assert_eq!(write_iteration(Measurement::CurrentLoopPt, 11), Some(vec![(0x02, 0x5C)]));
    assert_eq!(write_iteration(Measurement::VValve, 3), Some(vec![(0x02, 0x3C)]));
    assert_eq!(write_iteration(Measurement::IValve, 1), Some(vec![(0x02, 0x1C)]));
    assert_eq!(write_iteration(Measurement::IValve, 3), Some(vec![(0x02, 0x3C)]));
    assert_eq!(write_iteration(Measurement::IValve, 10), Some(vec![(0x02, 0x4C)]));
    assert_eq!(write_iteration(Measurement::Rtd2, 0), Some(vec![(0x02, 0x12), (0x05, 0x12)]));
    assert_eq!(write_iteration(Measurement::Rtd2, 1), Some(vec![(0x02, 0x34), (0x05, 0x16)]));
    assert_eq!(write_iteration(Measurement::DiffSensors, 2), Some(vec![(0x02, 0x01)]));
    assert_eq!(write_iteration(Measurement::DiffSensors, 5), Some(vec![(0x02, 0x23)]));
    assert_eq!(write_iteration(Measurement::Tc1, 1), None);
    assert_eq!(write_iteration(Measurement::VPower, 1), None);
}

#[test]
fn init_register_writes() {
    assert_eq!(init_reg_writes(Measurement::IPower), vec![(0x03, 0x00), (0x04, 0x1E), (0x05, 0x0A)]);
    assert_eq!(init_reg_writes(Measurement::Rtd1), vec![(0x03, 0x00), (0x04, 0x1E), (0x06, 0x47), (0x07, 0x50)]);
    assert_eq!(init_reg_writes(Measurement::Tc2), vec![(0x03, 0x0D), (0x04, 0x1E), (0x05, 0x0A)]);
}

#[test]
fn bus_frames() {
    assert_eq!(write_reg_frame(0x05, 0x0A), vec![0x45, 0x00, 0x0A]);
    assert_eq!(write_reg_frame(0x25, 0x01), vec![0x65, 0x00, 0x01]);
    assert_eq!(read_regs_frame(0x31, 2)[0], 0x31);
    let f = read_regs_frame(0, 17);
    assert_eq!(f.len(), 20);
    assert_eq!(&f[..3], &[0x20, 17, 0]);
    assert_eq!(read_data_frame(), vec![0x12, 0, 0]);
    assert!(regs_all_zero(&vec![0u8; 20]));
    assert!(!regs_all_zero(&vec![0, 0, 1]));
}

#[test]
fn sample_decoding_is_signed_big_endian() {
    assert_eq!(decode_sample(&vec![0xFF, 0x01, 0x02]), 0x0102);
    assert_eq!(decode_sample(&vec![0, 0x80, 0x00]), -32768);
    assert_eq!(decode_sample(&vec![0, 0xFF, 0xFF]), -1);
    assert_eq!(decode_sample(&vec![0, 0x7F, 0xFF]), 32767);
}

#[test]
fn rtd_boundary_belongs_to_low_range() {
    assert!(rtd_low_range(1310));
    assert!(!rtd_low_range(1311));
    assert!(rtd_low_range(-5));
    let mut a = Adc::new(Measurement::Rtd1);
    assert_eq!(a.test_read_individual(0, 1311), Conversion::Rtd { raw: 1311, low_range: false });
}

#[test]
fn thermocouple_ambient_cached_for_full_cycle() {
    let mut a = Adc::new(Measurement::Tc2);
    assert_eq!(a.test_read_individual(1, 7), Conversion::Thermocouple { raw: 7, ambient: None });
    assert_eq!(a.test_read_individual(4, 100), Conversion::Ambient { raw: 100 });
    assert_eq!(a.post_read_writes(4), vec![(0x09, 0x00), (0x03, 0x0D)]);
    for (it, raw) in [(5u64, 11i16), (6, 12), (7, 13)] {
        assert_eq!(a.test_read_individual(it, raw), Conversion::Thermocouple { raw, ambient: Some(100) });
        assert!(a.post_read_writes(it).is_empty());
    }
    assert_eq!(a.test_read_individual(8, 200), Conversion::Ambient { raw: 200 });
    assert_eq!(a.ambient, Some(200));
    assert!(!a.uses_data_ready());
}

#[test]
fn plain_conversions_keep_raw_sample() {
    let mut a = Adc::new(Measurement::IPower);
    assert_eq!(a.test_read_individual(3, -9), Conversion::RailCurrent { raw: -9 });
    let mut v = Adc::new(Measurement::VValve);
    assert_eq!(v.test_read_individual(3, 9), Conversion::DividedVoltage { raw: 9 });
    assert!(v.uses_data_ready());
    assert_eq!(v.ambient, None);
}

#[test]
fn end_to_end_three_polls_emit_twenty_one_points() {
    let kinds = vec![Measurement::CurrentLoopPt];
    let mut emitted: Vec<DataPoint> = Vec::new();
    for poll in 0..3u64 {
        let plan = poll_plan(&kinds, true, poll);
        assert_eq!(plan.len(), 7);
        assert_eq!(plan[6], Slot { source: Source::Onboard, measurement: Measurement::VPower, iteration: poll });
        for s in plan {
            emitted.push(generate_data_point(0, 0, s.iteration, s.measurement));
        }
    }
    assert_eq!(emitted.len(), 21);
    let ids: Vec<u32> = emitted.iter().map(|d| d.channel).collect();
    assert_eq!(ids, vec![1, 2, 3, 4, 5, 6, 1, 1, 2, 3, 4, 5, 6, 2, 1, 2, 3, 4, 5, 6, 3]);
}

#[test]
fn poll_skips_exhausted_converters() {
    let kinds = vec![Measurement::Rtd1, Measurement::VPower];
    let plan = poll_plan(&kinds, false, 9);
    let got: Vec<(Source, u64)> = plan.iter().map(|s| (s.source, s.iteration)).collect();
    assert_eq!(
        got,
        vec![
            (Source::Converter(0), 0),
            (Source::Converter(1), 0),
            (Source::Converter(0), 1),
            (Source::Converter(1), 1),
            (Source::Converter(1), 2),
            (Source::Converter(1), 3),
            (Source::Converter(1), 4),
        ]
    );
    assert!(poll_plan(&vec![], false, 0).is_empty());
}

#[test]
fn data_point_fields() {
    let v = 2.5f64.to_bits();
    let d = generate_data_point(v, 7, 9, Measurement::Rtd3);
    assert_eq!(d, DataPoint { value: v, timestamp: 7, channel: 6, channel_type: ChannelType::Rtd });
    assert_eq!(f64::from_bits(d.value), 2.5);
}

#[test]
fn heartbeats_within_timeout_never_abort() {
    let mut s = Supervisor::new(0, 250);
    for k in 1..50u64 {
        assert!(!s.step(SupervisorEvent::Check(k * 200 - 1)));
        assert!(!s.step(SupervisorEvent::Heartbeat(k * 200)));
    }
    assert!(!s.aborted);
}

#[test]
fn one_late_gap_aborts_exactly_once() {
    let mut s = Supervisor::new(1000, 250);
    assert!(!s.check(1250));
    assert!(s.check(1251));
    assert!(!s.check(1400));
    s.on_heartbeat(1500);
    assert!(!s.check(2000));
    assert!(s.aborted);
    let mut t = Supervisor::new(500, 250);
    assert!(!t.check(10));
}

#[test]
fn frames_round_trip() {
    let payload: Vec<u8> = (0..300u32).map(|i| (i % 256) as u8).collect();
    let framed = encode_frame(&payload);
    assert_eq!(&framed[..4], &[44, 1, 0, 0]);
    assert_eq!(decode_frame(&framed), Some(payload));
    assert_eq!(decode_frame(&encode_frame(&vec![])), Some(vec![]));
}

#[test]
fn malformed_frames_are_rejected() {
    assert_eq!(decode_frame(&vec![1, 0, 0]), None);
    assert_eq!(decode_frame(&vec![2, 0, 0, 0, 9]), None);
    assert_eq!(decode_frame(&vec![0, 0, 0, 0, 9]), None);
}

#[test]
fn converter_turn_follows_protocol_order() {
    let a = Adc::new(Measurement::CurrentLoopPt);
    assert_eq!(
        a.round_steps(5),
        vec![Step::SelectChip, Step::AwaitDataReady, Step::ReadSample, Step::WriteReg(0x02, 0x0C), Step::DeselectChip]
    );
    let t = Adc::new(Measurement::Tc1);
    assert_eq!(
        t.round_steps(8),
        vec![Step::SelectChip, Step::ReadSample, Step::WriteReg(0x09, 0x00), Step::WriteReg(0x03, 0x0D), Step::DeselectChip]
    );
    let r = Adc::new(Measurement::Rtd1);
    assert_eq!(
        r.round_steps(0),
        vec![
            Step::SelectChip,
            Step::AwaitDataReady,
            Step::ReadSample,
            Step::WriteReg(0x02, 0x34),
            Step::WriteReg(0x05, 0x16),
            Step::DeselectChip
        ]
    );
}
