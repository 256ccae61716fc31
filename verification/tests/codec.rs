use mortise::qoe::AppInfo;
use mortise::report::{ReportDataElem, ReportEntry};
use mortise::wire::{
    frame_encode, frame_extract, i32_to_le_bytes, read_be_u32, read_le_u16, read_le_u32,
    read_le_u64, u16_to_le_bytes, u32_to_be_bytes, u32_to_le_bytes, u64_to_le_bytes,
};

#[test]
fn be_u32_bytes_are_most_significant_first() {
    assert_eq!(u32_to_be_bytes(0x01020304), vec![1, 2, 3, 4]);
    assert_eq!(u32_to_be_bytes(1), vec![0, 0, 0, 1]);
    assert_eq!(u32_to_be_bytes(0), vec![0, 0, 0, 0]);
    assert_eq!(u32_to_be_bytes(u32::MAX), vec![255, 255, 255, 255]);
}

#[test]
fn be_u32_round_trips() {
    for x in [0u32, 1, 7, 0x01020304, 0xdead_beef, u32::MAX] {
        let bytes = u32_to_be_bytes(x);
        assert_eq!(read_be_u32(&bytes), x);
    }
}

#[test]
fn be_u32_reads_only_the_head() {
    let bytes = vec![0, 0, 0, 9, 42, 42];
    assert_eq!(read_be_u32(&bytes), 9);
}

#[test]
fn le_u32_bytes_are_least_significant_first() {
    assert_eq!(u32_to_le_bytes(0x01020304), vec![4, 3, 2, 1]);
    let bytes = u32_to_le_bytes(0xcafe_babe);
    assert_eq!(read_le_u32(&bytes, 0), 0xcafe_babe);
}

#[test]
fn le_i32_uses_the_twos_complement_bit_pattern() {
    assert_eq!(i32_to_le_bytes(-1), vec![255, 255, 255, 255]);
    assert_eq!(i32_to_le_bytes(7), vec![7, 0, 0, 0]);
}

#[test]
fn le_u64_round_trips() {
    for x in [0u64, 225, 0x0102030405060708, u64::MAX] {
        let bytes = u64_to_le_bytes(x);
        assert_eq!(read_le_u64(&bytes, 0), x);
    }
}

#[test]
fn le_u16_round_trips() {
    for x in [0u16, 1, 0x1234, u16::MAX] {
        let bytes = u16_to_le_bytes(x);
        assert_eq!(read_le_u16(&bytes, 0), x);
    }
}

#[test]
fn frame_has_length_prefix_then_payload() {
    let framed = frame_encode(&[97, 98, 99]);
    assert_eq!(framed, vec![0, 0, 0, 3, 97, 98, 99]);
}

#[test]
fn frame_extract_returns_payload_and_consumed() {
    let mut framed = frame_encode(&[10, 20, 30]);
    framed.push(99);
    let (payload, consumed) = frame_extract(&framed).unwrap();
    assert_eq!(payload, vec![10, 20, 30]);
    assert_eq!(consumed, 7);
}

#[test]
fn frame_extract_waits_for_a_whole_frame() {
    assert!(frame_extract(&[0, 0]).is_none());
    assert!(frame_extract(&[0, 0, 0, 5, 1, 2]).is_none());
    let empty = frame_encode(&[]);
    let (payload, consumed) = frame_extract(&empty).unwrap();
    assert_eq!(payload, Vec::<u8>::new());
    assert_eq!(consumed, 4);
}

#[test]
fn app_info_is_sixteen_little_endian_bytes() {
    let info = AppInfo { req: 225, resp: 0 };
    let bytes = info.as_bytes();
    assert_eq!(bytes.len(), 16);
    assert_eq!(bytes[0], 225);
    assert!(bytes[1..].iter().all(|b| *b == 0));
}

#[test]
fn app_info_round_trips() {
    let info = AppInfo { req: 0x0102030405060708, resp: 0x1112131415161718 };
    let bytes = info.as_bytes();
    let back = AppInfo::copy_from_bytes(&bytes);
    assert_eq!(back.req, info.req);
    assert_eq!(back.resp, info.resp);
}

#[test]
fn app_info_default_is_zero() {
    let info = AppInfo::default();
    assert_eq!(info.req, 0);
    assert_eq!(info.resp, 0);
}

#[test]
fn report_entry_encodes_to_808_bytes() {
    let entry = ReportEntry {
        flow_id: 3,
        chunk_id: -2,
        chunk_len: 17,
        data_array: vec![ReportDataElem::default(); 50],
    };
    let bytes = entry.as_bytes();
    assert_eq!(bytes.len(), 808);
    assert_eq!(&bytes[0..4], &[3, 0, 0, 0]);
    assert_eq!(&bytes[4..6], &[254, 255]);
    assert_eq!(&bytes[6..8], &[17, 0]);
}

#[test]
fn report_entry_round_trips() {
    let mut data_array = Vec::new();
    for i in 0..50u32 {
        data_array.push(ReportDataElem {
            rtt: i,
            acked_bytes: 1000 + i,
            timestamp: 7_000_000_000 + i as u64,
        });
    }
    let entry = ReportEntry { flow_id: 9, chunk_id: 5, chunk_len: 50, data_array };
    let bytes = entry.as_bytes();
    let back = ReportEntry::copy_from_bytes(&bytes);
    assert_eq!(back.flow_id, 9);
    assert_eq!(back.chunk_id, 5);
    assert_eq!(back.chunk_len, 50);
    assert_eq!(back.data_array.len(), 50);
    for i in 0..50usize {
        assert_eq!(back.data_array[i].rtt, entry.data_array[i].rtt);
        assert_eq!(back.data_array[i].acked_bytes, entry.data_array[i].acked_bytes);
        assert_eq!(back.data_array[i].timestamp, entry.data_array[i].timestamp);
    }
}

#[test]
fn report_default_elem_is_zero() {
    let elem = ReportDataElem::default();
    assert_eq!(elem.rtt, 0);
    assert_eq!(elem.acked_bytes, 0);
    assert_eq!(elem.timestamp, 0);
}
