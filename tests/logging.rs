use sam::logging::{Log, LogCategory, LogType, LogsController, RingBuffer};

fn generate_five_sample_logs() -> [Log; 5] {
    [
        Log {
            log_type: LogType::Debug,
            log_category: LogCategory::Other,
            time_stamp: 1,
            source: String::from("debug_tests_a"),
            header: String::from("This is log 1"),
            contents: String::from("At least I hope so"),
        },
        Log {
            log_type: LogType::Standard,
            log_category: LogCategory::Unknown,
            time_stamp: 2,
            source: String::from("debug_tests_b"),
            header: String::from("This is log 2"),
            contents: String::from("if this works"),
        },
        Log {
            log_type: LogType::Error,
            log_category: LogCategory::Sensors,
            time_stamp: 3,
            source: String::from("debug_tests_c"),
            header: String::from("This is log 3"),
            contents: String::from("Also the hydrogen tank exploded"),
        },
        Log {
            log_type: LogType::Standard,
            log_category: LogCategory::Sequences,
            time_stamp: 4,
            source: String::from("debug_tests_d"),
            header: String::from("This is log 4"),
            contents: String::from("Also the fuel tank exploded"),
        },
        Log {
            log_type: LogType::Error,
            log_category: LogCategory::Valves,
            time_stamp: 5,
            source: String::from("debug_tests_e"),
            header: String::from("This is log 5"),
            contents: String::from("Also the oxygen tank exploded"),
        },
    ]
}

#[test]
fn logging_controller_basic() {
    let mut controller = LogsController::new(String::from("tests.txt"), String::from("debug_tests"));

    let logs: [Log; 5] = generate_five_sample_logs();
    for log in logs.iter().cloned() {
        controller.log(log);
    }

    {
        let mut expected = Vec::from(logs.clone());
        expected.reverse();
        let output: Vec<Log> = controller.iter().into_iter().cloned().collect();
        assert_eq!(output, expected);
    }

    {
        let expected = Vec::from(logs.clone()).split_off(2);
        let output: Vec<Log> = controller.rev_iter(Some(2)).into_iter().cloned().collect();
        assert_eq!(output, expected);
    }
}

#[test]
fn ring_buffer_zero_capacity_holds_one() {
    let mut rb: RingBuffer<u32> = RingBuffer::new(0);
    assert_eq!(rb.capacity(), 1);
    assert!(rb.is_empty());
    rb.push(1);
    rb.push(2);
    assert_eq!(rb.len(), 1);
    assert_eq!(rb.iter(), vec![&2]);
}

#[test]
fn ring_buffer_wraps_and_keeps_newest() {
    let mut rb: RingBuffer<u32> = RingBuffer::new(3);
    for v in 1..=5u32 {
        rb.push(v);
    }
    assert_eq!(rb.len(), 3);
    assert_eq!(rb.iter(), vec![&5, &4, &3]);
    assert_eq!(rb.rev_iter(None), vec![&3, &4, &5]);
    assert_eq!(rb.rev_iter(Some(1)), vec![&4, &5]);
    assert_eq!(rb.rev_iter(Some(10)), vec![&3, &4, &5]);
    assert_eq!(rb.get(0), Some(&3));
    assert_eq!(rb.get(3), None);
}

#[test]
fn ring_buffer_every_rotation_reads_back_in_order() {
    for n in 0..10u32 {
        let mut rb: RingBuffer<u32> = RingBuffer::new(4);
        for v in 0..n {
            rb.push(v);
        }
        let expected: Vec<u32> = (0..n).rev().take(4).collect();
        let got: Vec<u32> = rb.iter().into_iter().copied().collect();
        assert_eq!(got, expected);
    }
}

#[test]
fn ring_buffer_rev_iter_on_empty_is_empty() {
    let rb: RingBuffer<u32> = RingBuffer::new(2);
    assert!(rb.rev_iter(Some(3)).is_empty());
    assert!(rb.iter().is_empty());
}

#[test]
fn logs_controller_counts_and_sources() {
    let mut c = LogsController::with_capacity(2, String::from("f"), String::from("servo"));
    assert!(!c.updated_since(0));
    c.log_here(LogType::Warning, LogCategory::Valves, 10, String::from("h1"), String::from("b1"));
    c.log_now(LogType::Debug, LogCategory::Other, 11, String::from("flight"), String::from("h2"), String::from("b2"));
    c.log_here(LogType::Error, LogCategory::Sensors, 12, String::from("h3"), String::from("b3"));
    assert_eq!(c.log_count(), 3);
    assert!(c.updated_since(2));
    assert!(!c.updated_since(3));
    let held: Vec<(String, String)> = c.iter().into_iter().map(|l| (l.source.clone(), l.header.clone())).collect();
    assert_eq!(held, vec![(String::from("servo"), String::from("h3")), (String::from("flight"), String::from("h2"))]);
}
