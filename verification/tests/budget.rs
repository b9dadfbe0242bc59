use txlog::budget::{decode_op, read_le_u32, read_le_u64, BudgetOp};

#[test]
fn empty_payload_requests_nothing() {
    assert_eq!(decode_op(&[]), BudgetOp::Other);
}

#[test]
fn limit_request_is_decoded_little_endian() {
    assert_eq!(decode_op(&[2, 0x40, 0x0d, 0x03, 0x00]), BudgetOp::SetLimit(200_000));
    assert_eq!(decode_op(&[2, 1, 0, 0, 0]), BudgetOp::SetLimit(1));
    assert_eq!(decode_op(&[2, 0, 0, 0, 1]), BudgetOp::SetLimit(0x0100_0000));
    assert_eq!(decode_op(&[2, 0xff, 0xff, 0xff, 0xff]), BudgetOp::SetLimit(u32::MAX));
}

#[test]
fn price_request_is_decoded_little_endian() {
    assert_eq!(decode_op(&[3, 0xe8, 0x03, 0, 0, 0, 0, 0, 0]), BudgetOp::SetPrice(1000));
    assert_eq!(decode_op(&[3, 0, 0, 0, 0, 0, 0, 0, 1]), BudgetOp::SetPrice(1 << 56));
    assert_eq!(decode_op(&[3, 0xff, 0xff, 0xff, 0xff, 0xff, 0xff, 0xff, 0xff]), BudgetOp::SetPrice(u64::MAX));
}

#[test]
fn bytes_after_the_value_are_ignored() {
    assert_eq!(decode_op(&[2, 7, 0, 0, 0, 9, 9, 9]), BudgetOp::SetLimit(7));
    assert_eq!(decode_op(&[3, 7, 0, 0, 0, 0, 0, 0, 0, 9, 9]), BudgetOp::SetPrice(7));
}

#[test]
fn bare_limit_opcode_requests_nothing() {
    assert_eq!(decode_op(&[2]), BudgetOp::Other);
}

#[test]
fn short_payloads_request_nothing() {
    assert_eq!(decode_op(&[2, 1, 2, 3]), BudgetOp::Other);
    assert_eq!(decode_op(&[3]), BudgetOp::Other);
    assert_eq!(decode_op(&[3, 1, 2, 3, 4]), BudgetOp::Other);
    assert_eq!(decode_op(&[3, 1, 2, 3, 4, 5, 6, 7]), BudgetOp::Other);
}

#[test]
fn unknown_opcodes_request_nothing() {
    assert_eq!(decode_op(&[0, 1, 2, 3, 4, 5, 6, 7, 8]), BudgetOp::Other);
    assert_eq!(decode_op(&[1, 1, 2, 3, 4, 5, 6, 7, 8]), BudgetOp::Other);
    assert_eq!(decode_op(&[4, 1, 2, 3, 4, 5, 6, 7, 8]), BudgetOp::Other);
    assert_eq!(decode_op(&[255, 1, 2, 3, 4, 5, 6, 7, 8]), BudgetOp::Other);
}

#[test]
fn little_endian_reads_agree_with_the_standard_library() {
    let data: [u8; 12] = [0x10, 0x32, 0x54, 0x76, 0x98, 0xba, 0xdc, 0xfe, 0x01, 0x23, 0x45, 0x67];
    assert_eq!(read_le_u32(&data, 0), u32::from_le_bytes([0x10, 0x32, 0x54, 0x76]));
    assert_eq!(read_le_u32(&data, 0), 0x7654_3210);
    assert_eq!(read_le_u32(&data, 8), 0x6745_2301);
    assert_eq!(read_le_u64(&data, 0), 0xfedc_ba98_7654_3210);
    assert_eq!(read_le_u64(&data, 4), u64::from_le_bytes([0x98, 0xba, 0xdc, 0xfe, 0x01, 0x23, 0x45, 0x67]));
}
