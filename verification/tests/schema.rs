use threadsnoop::event::{
    COMM_OFFSET, FUNC_OFFSET, PID_OFFSET, TARGET_OFFSET, TID_OFFSET, TS_OFFSET,
};
use threadsnoop::{DecodeError, ThreadFunc, ThreadInfo, COMM_LEN, RECORD_SIZE};

fn comm_of(name: &[u8]) -> [u8; COMM_LEN] {
    let mut comm = [0u8; COMM_LEN];
    comm[..name.len()].copy_from_slice(name);
    comm
}

fn sample(func: ThreadFunc, target: u64) -> ThreadInfo {
    ThreadInfo {
        ts: 0x0102_0304_0506_0708,
        pid: 0x1122_3344,
        tid: 0x5566_7788,
        comm: comm_of(b"worker"),
        target,
        func,
    }
}

#[test]
fn names_of_the_four_functions() {
    assert_eq!(ThreadFunc::Create.name(), "create");
    assert_eq!(ThreadFunc::Detach.name(), "detach");
    assert_eq!(ThreadFunc::Exit.name(), "exit");
    assert_eq!(ThreadFunc::Join.name(), "join");
}

#[test]
fn tags_of_the_four_functions() {
    assert_eq!(ThreadFunc::Create.tag(), 0);
    assert_eq!(ThreadFunc::Detach.tag(), 1);
    assert_eq!(ThreadFunc::Exit.tag(), 2);
    assert_eq!(ThreadFunc::Join.tag(), 3);
}

#[test]
fn from_tag_inverts_tag_and_rejects_the_rest() {
    for func in [ThreadFunc::Create, ThreadFunc::Detach, ThreadFunc::Exit, ThreadFunc::Join] {
        assert_eq!(ThreadFunc::from_tag(func.tag()), Some(func));
    }
    for tag in 4..=255u8 {
        assert_eq!(ThreadFunc::from_tag(tag), None);
    }
}

#[test]
fn layout_constants() {
    assert_eq!(RECORD_SIZE, 48);
    assert_eq!(COMM_LEN, 16);
    assert_eq!(TS_OFFSET, 0);
    assert_eq!(PID_OFFSET, 8);
    assert_eq!(TID_OFFSET, 12);
    assert_eq!(COMM_OFFSET, 16);
    assert_eq!(TARGET_OFFSET, 32);
    assert_eq!(FUNC_OFFSET, 40);
}

#[test]
fn encode_has_the_exact_layout() {
    let info = sample(ThreadFunc::Join, 0x7fff_a1b2_c3d4_e5f6);
    let bytes = info.encode();
    let expected: [u8; 48] = [
        0x08, 0x07, 0x06, 0x05, 0x04, 0x03, 0x02, 0x01, // ts
        0x44, 0x33, 0x22, 0x11, // pid
        0x88, 0x77, 0x66, 0x55, // tid
        b'w', b'o', b'r', b'k', b'e', b'r', 0, 0, 0, 0, 0, 0, 0, 0, 0, 0, // comm
        0xf6, 0xe5, 0xd4, 0xc3, 0xb2, 0xa1, 0xff, 0x7f, // target
        3, // function
        0, 0, 0, 0, 0, 0, 0, // padding
    ];
    assert_eq!(bytes, expected);
}

#[test]
fn encode_agrees_with_the_integers_own_little_endian_bytes() {
    let info = sample(ThreadFunc::Detach, u64::MAX - 5);
    let bytes = info.encode();
    assert_eq!(&bytes[0..8], &info.ts.to_le_bytes());
    assert_eq!(&bytes[8..12], &info.pid.to_le_bytes());
    assert_eq!(&bytes[12..16], &info.tid.to_le_bytes());
    assert_eq!(&bytes[16..32], &info.comm);
    assert_eq!(&bytes[32..40], &info.target.to_le_bytes());
    assert_eq!(bytes[40], 1);
}

#[test]
fn decode_inverts_encode_for_every_function() {
    for func in [ThreadFunc::Create, ThreadFunc::Detach, ThreadFunc::Join] {
        let info = sample(func, 0xdead_beef_0000_0001);
        assert_eq!(ThreadInfo::decode(&info.encode()), Ok(info));
    }
    let exit = sample(ThreadFunc::Exit, 0);
    assert_eq!(ThreadInfo::decode(&exit.encode()), Ok(exit));
}

#[test]
fn decode_inverts_encode_at_the_extremes() {
    let low = ThreadInfo {
        ts: 0,
        pid: 0,
        tid: 0,
        comm: [0u8; COMM_LEN],
        target: 0,
        func: ThreadFunc::Create,
    };
    assert_eq!(ThreadInfo::decode(&low.encode()), Ok(low));
    let high = ThreadInfo {
        ts: u64::MAX,
        pid: u32::MAX,
        tid: u32::MAX,
        comm: [0xffu8; COMM_LEN],
        target: u64::MAX,
        func: ThreadFunc::Join,
    };
    assert_eq!(ThreadInfo::decode(&high.encode()), Ok(high));
}

#[test]
fn decode_inverts_encode_at_unaligned_offsets() {
    let info = sample(ThreadFunc::Create, 0x1234_5678_9abc_def0);
    for offset in 0..9usize {
        let mut buf = vec![0xaau8; offset];
        buf.extend_from_slice(&info.encode());
        buf.extend_from_slice(&[0x55u8; 5]);
        assert_eq!(ThreadInfo::decode_at(&buf, offset), Ok(info));
        assert_eq!(ThreadInfo::decode(&buf[offset..offset + RECORD_SIZE]), Ok(info));
    }
}

#[test]
fn decode_at_reports_what_is_left() {
    let info = sample(ThreadFunc::Create, 1);
    let mut buf = vec![0u8; 3];
    buf.extend_from_slice(&info.encode());
    assert_eq!(ThreadInfo::decode_at(&buf, 4), Err(DecodeError::WrongLength(47)));
    assert_eq!(ThreadInfo::decode_at(&buf, 51), Err(DecodeError::WrongLength(0)));
    assert_eq!(ThreadInfo::decode_at(&buf, 52), Err(DecodeError::WrongLength(0)));
    assert_eq!(ThreadInfo::decode_at(&buf, usize::MAX), Err(DecodeError::WrongLength(0)));
    assert_eq!(ThreadInfo::decode_at(&buf, 3), Ok(info));
}

#[test]
fn decode_rejects_every_other_length() {
    assert_eq!(ThreadInfo::decode(&[]), Err(DecodeError::WrongLength(0)));
    assert_eq!(ThreadInfo::decode(&[0u8; 47]), Err(DecodeError::WrongLength(47)));
    assert_eq!(ThreadInfo::decode(&[0u8; 49]), Err(DecodeError::WrongLength(49)));
    assert_eq!(ThreadInfo::decode(&[0u8; 1024]), Err(DecodeError::WrongLength(1024)));
    assert!(ThreadInfo::decode(&[0u8; 48]).is_ok());
}

#[test]
fn decode_rejects_an_unknown_function_tag() {
    let mut bytes = sample(ThreadFunc::Create, 1).encode();
    bytes[FUNC_OFFSET] = 4;
    assert_eq!(ThreadInfo::decode(&bytes), Err(DecodeError::UnknownFunction(4)));
    bytes[FUNC_OFFSET] = 0xff;
    assert_eq!(ThreadInfo::decode(&bytes), Err(DecodeError::UnknownFunction(0xff)));
}

#[test]
fn decode_tests_the_length_before_the_tag() {
    let mut bytes = [0u8; 60];
    bytes[FUNC_OFFSET] = 9;
    assert_eq!(ThreadInfo::decode(&bytes), Err(DecodeError::WrongLength(60)));
}

#[test]
fn decode_ignores_the_padding() {
    let info = sample(ThreadFunc::Detach, 77);
    let mut bytes = info.encode();
    for b in bytes[41..48].iter_mut() {
        *b = 0xee;
    }
    assert_eq!(ThreadInfo::decode(&bytes), Ok(info));
}

#[test]
fn a_decoded_exit_has_target_zero() {
    let mut bytes = sample(ThreadFunc::Exit, 0).encode();
    for b in bytes[TARGET_OFFSET..TARGET_OFFSET + 8].iter_mut() {
        *b = 0x5a;
    }
    let info = ThreadInfo::decode(&bytes).unwrap();
    assert_eq!(info.func, ThreadFunc::Exit);
    assert_eq!(info.target, 0);
    bytes[FUNC_OFFSET] = ThreadFunc::Join.tag();
    let info = ThreadInfo::decode(&bytes).unwrap();
    assert_eq!(info.target, 0x5a5a_5a5a_5a5a_5a5a);
}

#[test]
fn decode_keeps_the_command_bytes_as_they_are() {
    let mut info = sample(ThreadFunc::Create, 1);
    info.comm = [b'a', 0, b'b', 0x80, 0xff, 0, 0, 0, 0, 0, 0, 0, 0, 0, 0, 1];
    assert_eq!(ThreadInfo::decode(&info.encode()), Ok(info));
}

#[test]
fn wire_integers_round_trip() {
    for x in [0u32, 1, 0xff, 0x100, 0x1234_5678, u32::MAX] {
        let bytes = threadsnoop::wire::u32_to_le(x);
        assert_eq!(bytes, x.to_le_bytes());
        assert_eq!(threadsnoop::wire::u32_from_le(&bytes, 0), x);
    }
    for x in [0u64, 1, 0xff, 0x100, 0x0123_4567_89ab_cdef, u64::MAX] {
        let bytes = threadsnoop::wire::u64_to_le(x);
        assert_eq!(bytes, x.to_le_bytes());
        assert_eq!(threadsnoop::wire::u64_from_le(&bytes, 0), x);
    }
    let buf = [9u8, 0x78, 0x56, 0x34, 0x12, 0, 0, 0, 0, 7];
    assert_eq!(threadsnoop::wire::u32_from_le(&buf, 1), 0x1234_5678);
    assert_eq!(threadsnoop::wire::u64_from_le(&buf, 1), 0x1234_5678);
    assert_eq!(threadsnoop::wire::u64_from_le(&buf, 2), 0x0700_0000_0012_3456);
}
