use bytes::BytesMut;
use threadsnoop::consumer::{BATCH_SIZE, BUFFER_CAPACITY};
use threadsnoop::{
    drain, new_buffers, probe_pthread_create, probe_pthread_exit, probe_pthread_join, DecodeError,
    Outcome, Reporter, ThreadFunc, ThreadInfo, COMM_LEN,
};

fn name(text: &[u8]) -> [u8; COMM_LEN] {
    let mut comm = [0u8; COMM_LEN];
    comm[..text.len()].copy_from_slice(text);
    comm
}

fn filled(records: &[&[u8]]) -> Vec<BytesMut> {
    let mut buffers = new_buffers();
    for (buffer, record) in buffers.iter_mut().zip(records.iter()) {
        buffer.extend_from_slice(record);
    }
    buffers
}

fn line_of(outcome: &Outcome) -> &str {
    match outcome {
        Outcome::Line(text) => text.as_str(),
        other => panic!("no line: {:?}", other),
    }
}

#[test]
fn new_buffers_are_ten_empty_buffers_of_1024_bytes() {
    let buffers = new_buffers();
    assert_eq!(BATCH_SIZE, 10);
    assert_eq!(BUFFER_CAPACITY, 1024);
    assert_eq!(buffers.len(), 10);
    for buffer in buffers.iter() {
        assert_eq!(buffer.len(), 0);
        assert!(buffer.capacity() >= 1024);
    }
}

#[test]
fn report_renders_one_record() {
    let reporter = Reporter::new(1_000_000_000);
    let info = probe_pthread_join(Some(0xabc), 3_000_000_005, (10 << 32) | 11, Some(name(b"app")));
    assert_eq!(
        reporter.report(&info.encode()),
        Outcome::Line(String::from("  2.000000005      10      11 app              join   0xabc"))
    );
}

#[test]
fn report_skips_what_is_no_record() {
    let reporter = Reporter::new(0);
    assert_eq!(reporter.report(&[1, 2, 3]), Outcome::Skipped(DecodeError::WrongLength(3)));
    let mut bytes = probe_pthread_exit(1, 2, None).encode();
    bytes[40] = 200;
    assert_eq!(reporter.report(&bytes), Outcome::Skipped(DecodeError::UnknownFunction(200)));
}

#[test]
fn report_sets_apart_a_record_before_the_reference_point() {
    let reporter = Reporter::new(500);
    let info = probe_pthread_exit(499, (1 << 32) | 2, Some(name(b"old")));
    assert_eq!(reporter.report(&info.encode()), Outcome::BeforeReference(info));
}

#[test]
fn drain_reads_the_bytes_that_the_buffers_hold() {
    let reporter = Reporter::new(0);
    let info = probe_pthread_create(Some(0x10), 1_000_000_001, (5 << 32) | 6, Some(name(b"one")));
    let record = info.encode();
    let buffers = filled(&[&record]);
    let outcomes = drain(&reporter, &buffers, 1);
    assert_eq!(
        outcomes,
        vec![Outcome::Line(String::from(
            "  1.000000001       5       6 one              create 0x10"
        ))]
    );
}

#[test]
fn drain_takes_the_first_read_buffers_only() {
    let reporter = Reporter::new(0);
    let a = probe_pthread_exit(1, 1, None).encode();
    let b = probe_pthread_exit(2, 2, None).encode();
    let c = probe_pthread_exit(3, 3, None).encode();
    let buffers = filled(&[&a, &b, &c]);
    assert_eq!(drain(&reporter, &buffers, 0).len(), 0);
    assert_eq!(drain(&reporter, &buffers, 2).len(), 2);
    assert_eq!(drain(&reporter, &buffers, 3).len(), 3);
    assert_eq!(drain(&reporter, &buffers, 10).len(), 10);
    assert_eq!(drain(&reporter, &buffers, 11).len(), 10);
    assert_eq!(drain(&reporter, &buffers, usize::MAX).len(), 10);
    assert_eq!(drain(&reporter, &[], 4).len(), 0);
}

#[test]
fn drain_skips_an_empty_buffer() {
    let reporter = Reporter::new(0);
    let buffers = new_buffers();
    let outcomes = drain(&reporter, &buffers, 10);
    assert_eq!(outcomes.len(), 10);
    for outcome in outcomes.iter() {
        assert_eq!(outcome, &Outcome::Skipped(DecodeError::WrongLength(0)));
    }
}

#[test]
fn create_then_join_gives_two_lines_in_order() {
    let pid_tgid = (4321u64 << 32) | 4321;
    let handle = 0x7f12_3456_7700u64;
    let reference = 10_000_000_000u64;
    let create = probe_pthread_create(Some(0x7ffc_0000_1000), reference + 1_000, pid_tgid, Some(name(b"parent")));
    let join = probe_pthread_join(Some(handle), reference + 2_000_000, pid_tgid, Some(name(b"parent")));
    let (create_bytes, join_bytes) = (create.encode(), join.encode());
    let buffers = filled(&[&create_bytes, &join_bytes]);
    let outcomes = drain(&Reporter::new(reference), &buffers, 2);
    assert_eq!(outcomes.len(), 2);
    let first: Vec<&str> = line_of(&outcomes[0]).split_whitespace().collect();
    let second: Vec<&str> = line_of(&outcomes[1]).split_whitespace().collect();
    assert_eq!(first, vec!["0.000001000", "4321", "4321", "parent", "create", "0x7ffc00001000"]);
    assert_eq!(second, vec!["0.002000000", "4321", "4321", "parent", "join", "0x7f1234567700"]);
    assert_eq!(second[5], format!("0x{:x}", handle));
}

#[test]
fn two_processes_give_two_lines_with_their_own_pids() {
    let a = probe_pthread_create(Some(1), 100, (100u64 << 32) | 101, Some(name(b"alpha")));
    let b = probe_pthread_exit(200, (200u64 << 32) | 201, Some(name(b"beta")));
    let (a_bytes, b_bytes) = (a.encode(), b.encode());
    let buffers = filled(&[&a_bytes, &b_bytes]);
    let outcomes = drain(&Reporter::new(0), &buffers, 2);
    assert_eq!(outcomes.len(), 2);
    let first: Vec<&str> = line_of(&outcomes[0]).split_whitespace().collect();
    let second: Vec<&str> = line_of(&outcomes[1]).split_whitespace().collect();
    assert_eq!((first[1], first[4]), ("100", "create"));
    assert_eq!((second[1], second[4]), ("200", "exit"));
    assert_ne!(first[1], second[1]);
}

#[test]
fn a_record_of_the_wrong_length_does_not_stop_the_batch() {
    let good = probe_pthread_join(Some(0x99), 50, (1u64 << 32) | 2, Some(name(b"ok")));
    let good_bytes = good.encode();
    let short = &good_bytes[..40];
    let mut long = good_bytes.to_vec();
    long.extend_from_slice(&[0u8; 4]);
    let buffers = filled(&[&good_bytes, short, &good_bytes, &long, &good_bytes]);
    let outcomes = drain(&Reporter::new(0), &buffers, 5);
    let line = Outcome::Line(String::from("  0.000000050       1       2 ok               join   0x99"));
    assert_eq!(
        outcomes,
        vec![
            Outcome::Line(String::from("  0.000000050       1       2 ok               join   0x99")),
            Outcome::Skipped(DecodeError::WrongLength(40)),
            Outcome::Line(String::from("  0.000000050       1       2 ok               join   0x99")),
            Outcome::Skipped(DecodeError::WrongLength(52)),
            line,
        ]
    );
}

#[test]
fn drain_handles_whatever_bytes_it_finds() {
    let reporter = Reporter::new(u64::MAX / 2);
    let mut records: Vec<Vec<u8>> = Vec::new();
    for seed in 0..10u8 {
        let len = if seed % 3 == 0 { 48 } else { 7 * seed as usize };
        records.push((0..len).map(|i| (i as u8).wrapping_mul(31).wrapping_add(seed.wrapping_mul(97))).collect());
    }
    let slices: Vec<&[u8]> = records.iter().map(|r| r.as_slice()).collect();
    let buffers = filled(&slices);
    let outcomes = drain(&reporter, &buffers, 10);
    assert_eq!(outcomes.len(), 10);
    for (outcome, record) in outcomes.iter().zip(records.iter()) {
        assert_eq!(outcome, &reporter.report(record));
        if record.len() != 48 {
            assert_eq!(outcome, &Outcome::Skipped(DecodeError::WrongLength(record.len())));
        }
    }
}

#[test]
fn a_consumer_sees_only_its_own_records() {
    let reporter = Reporter::new(0);
    let on_cpu0 = probe_pthread_create(Some(1), 10, (1u64 << 32) | 1, Some(name(b"cpu0"))).encode();
    let on_cpu1 = probe_pthread_join(Some(2), 20, (2u64 << 32) | 2, Some(name(b"cpu1"))).encode();
    let buffers0 = filled(&[&on_cpu0]);
    let buffers1 = filled(&[&on_cpu1]);
    let seen0 = drain(&reporter, &buffers0, 1);
    let seen1 = drain(&reporter, &buffers1, 1);
    assert_eq!(seen0, vec![reporter.report(&on_cpu0)]);
    assert_eq!(seen1, vec![reporter.report(&on_cpu1)]);
    assert!(line_of(&seen0[0]).contains("cpu0") && !line_of(&seen0[0]).contains("cpu1"));
    assert!(line_of(&seen1[0]).contains("cpu1") && !line_of(&seen1[0]).contains("cpu0"));
}

#[test]
fn an_exit_on_the_wire_is_reported_with_target_zero() {
    let mut bytes = probe_pthread_exit(5, (3u64 << 32) | 4, Some(name(b"x"))).encode();
    bytes[32] = 0xff;
    let outcomes = drain(&Reporter::new(0), &filled(&[&bytes]), 1);
    assert!(line_of(&outcomes[0]).ends_with(" exit   0x0"));
    assert_eq!(ThreadInfo::decode(&bytes).unwrap().func, ThreadFunc::Exit);
}
