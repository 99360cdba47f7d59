use steel::{
    decode_u32_slice, encode_record, split_segments, try_from_bytes, try_header_from_bytes,
    try_write_bytes, try_write_header, AccountError, SampleHeader, SampleRecord,
};

#[test]
fn deserialize_account_headers() {
    let mut data = [0u8; 32];
    data[8] = 4;
    data[16] = 5;
    let (header, remainder) = try_header_from_bytes::<SampleHeader>(&data).unwrap();
    let foo = match header.field_len {
        4 => decode_u32_slice(remainder).unwrap(),
        x => panic!("{}", format!("unknown field len, {x}")),
    };
    assert_eq!(5, foo[0]);
}

#[test]
fn traits_account_headers() {
    let mut data = [0u8; 32];
    data[8] = 4;
    data[16] = 5;
    let (header, remainder) = try_header_from_bytes::<SampleHeader>(&data).unwrap();
    let foo = match header.field_len {
        4 => decode_u32_slice(remainder).unwrap(),
        x => panic!("{}", format!("unknown field len, {x}")),
    };
    assert_eq!(5, foo[0]);
}

#[test]
fn deserialize_account_deserialize() {
    let mut data = [0u8; 24];
    data[0] = 7;
    data[8] = 42;
    data[16] = 43;
    let foo = try_from_bytes::<SampleRecord>(&data).unwrap();
    assert_eq!(42, foo.field0);
    assert_eq!(43, foo.field1);
}

#[test]
fn traits_account_deserialize() {
    let mut data = [0u8; 24];
    data[0] = 7;
    data[8] = 42;
    data[16] = 43;
    let foo = try_from_bytes::<SampleRecord>(&data).unwrap();
    assert_eq!(42, foo.field0);
    assert_eq!(43, foo.field1);
}

#[test]
fn record_roundtrip_bitwise() {
    let v = SampleRecord {
        field0: 0x0102_0304_0506_0708,
        field1: u64::MAX,
    };
    let buf = encode_record(&v);
    assert_eq!(buf.len(), 24);
    assert_eq!(buf[0], 7);
    let back = try_from_bytes::<SampleRecord>(&buf).unwrap();
    assert_eq!(back, v);
}

#[test]
fn end_to_end_fixed_record() {
    let mut buf = vec![0u8; 24];
    buf[0] = 7;
    buf[8] = 42;
    buf[16] = 43;
    let v = try_from_bytes::<SampleRecord>(&buf).unwrap();
    assert_eq!(v.field0, 42);
    assert_eq!(v.field1, 43);

    let mut wrong_tag = buf.clone();
    wrong_tag[0] = 8;
    assert_eq!(
        try_from_bytes::<SampleRecord>(&wrong_tag).unwrap_err(),
        AccountError::InvalidAccountData
    );

    let mut short = buf.clone();
    short.truncate(23);
    assert_eq!(
        try_from_bytes::<SampleRecord>(&short).unwrap_err(),
        AccountError::InvalidAccountData
    );
    short[0] = 8;
    assert_eq!(
        try_from_bytes::<SampleRecord>(&short).unwrap_err(),
        AccountError::InvalidAccountData
    );
}

#[test]
fn discriminator_rejection_any_length() {
    for len in [0usize, 8, 23, 24, 25, 100] {
        let mut buf = vec![0u8; len];
        if len > 0 {
            buf[0] = 9;
        }
        assert!(try_from_bytes::<SampleRecord>(&buf).is_err());
    }
}

#[test]
fn length_rejection_with_correct_tag() {
    for len in [1usize, 8, 16, 23, 25, 64] {
        let mut buf = vec![0u8; len];
        buf[0] = 7;
        assert_eq!(
            try_from_bytes::<SampleRecord>(&buf).unwrap_err(),
            AccountError::InvalidAccountData
        );
    }
}

#[test]
fn write_bytes_updates_body_only() {
    let mut buf = vec![0u8; 24];
    buf[0] = 7;
    buf[1] = 0xAA;
    let v = SampleRecord {
        field0: 42,
        field1: 43,
    };
    try_write_bytes(&mut buf, &v).unwrap();
    assert_eq!(buf[0], 7);
    assert_eq!(buf[1], 0xAA);
    assert_eq!(buf[8], 42);
    assert_eq!(buf[16], 43);
    let back = try_from_bytes::<SampleRecord>(&buf).unwrap();
    assert_eq!(back, v);

    let mut wrong = vec![0u8; 23];
    wrong[0] = 7;
    assert_eq!(
        try_write_bytes(&mut wrong, &v).unwrap_err(),
        AccountError::InvalidAccountData
    );
    assert_eq!(wrong[8], 0);
}

#[test]
fn header_remainder_exactness() {
    // Two declared arrays: 3 elements of stride 4, 2 elements of stride 2.
    let mut buf = vec![0u8; 8 + 8 + 16];
    buf[8] = 3;
    let (header, remainder) = try_header_from_bytes::<SampleHeader>(&buf).unwrap();
    assert_eq!(header.field_len, 3);
    assert_eq!(remainder.len(), 16);

    let segs = vec![(3usize, 4usize), (2usize, 2usize)];
    let slices = split_segments(remainder, &segs).unwrap();
    assert_eq!(slices.len(), 2);
    assert_eq!(slices[0].len(), 12);
    assert_eq!(slices[1].len(), 4);

    // One byte short: the split must fail, not truncate.
    let short = &remainder[..15];
    assert_eq!(
        split_segments(short, &segs).unwrap_err(),
        AccountError::InvalidAccountData
    );

    // One byte long: unclaimed bytes are refused too.
    let long = vec![0u8; 17];
    assert_eq!(
        split_segments(&long, &segs).unwrap_err(),
        AccountError::InvalidAccountData
    );

    // An overflowing count-times-stride product is a shape error.
    let huge = vec![(usize::MAX, 2usize)];
    assert_eq!(
        split_segments(remainder, &huge).unwrap_err(),
        AccountError::InvalidAccountData
    );
}

#[test]
fn header_mutation_visible_on_reread() {
    let mut buf = vec![0u8; 32];
    buf[8] = 4;
    let new_header = SampleHeader { field_len: 9 };
    try_write_header(&mut buf, &new_header).unwrap();
    let (header, remainder) = try_header_from_bytes::<SampleHeader>(&buf).unwrap();
    assert_eq!(header.field_len, 9);
    assert_eq!(remainder.len(), 16);

    // Mutating the remainder through the write path is visible when
    // re-reading via the immutable path.
    steel::write_bytes_at(&mut buf, 16, &[5, 0, 0, 0]);
    let (_, remainder) = try_header_from_bytes::<SampleHeader>(&buf).unwrap();
    let elems = decode_u32_slice(remainder).unwrap();
    assert_eq!(elems[0], 5);
}

#[test]
fn header_rejects_wrong_tag_and_short_buffer() {
    let mut buf = vec![0u8; 32];
    buf[0] = 1;
    assert_eq!(
        try_header_from_bytes::<SampleHeader>(&buf).unwrap_err(),
        AccountError::InvalidAccountData
    );
    let short = vec![0u8; 15];
    assert_eq!(
        try_header_from_bytes::<SampleHeader>(&short).unwrap_err(),
        AccountError::InvalidAccountData
    );
}

#[test]
fn le_encoding_roundtrip() {
    let v: u64 = 0x1122_3344_5566_7788;
    let bytes = steel::le_encode(v, 8);
    assert_eq!(bytes, vec![0x88, 0x77, 0x66, 0x55, 0x44, 0x33, 0x22, 0x11]);
    assert_eq!(steel::le_decode(&bytes), v);
}
