use hw_eval::dsa::{
    completion_flags, completion_flags_no_cache_control, reset_completion, DsaCompletionRecord,
    DsaCompletionStatus, DsaHwDesc, DSA_COMP_NONE, DSA_OPCODE_BATCH, DSA_OPCODE_COPY_CRC,
    DSA_OPCODE_CRCGEN, DSA_OPCODE_DRAIN, DSA_OPCODE_MEMMOVE, DSA_OPCODE_NOOP, IDXD_OP_FLAG_CC,
    IDXD_OP_FLAG_CRAV, IDXD_OP_FLAG_RCR,
};
use hw_eval::iax::{
    completion_crc64, completion_error_code, completion_invalid_flags, crc16_t10dif,
    crc64_t10dif_field, IaxCompletionRecord, IaxHwDesc, IAX_CRC64_POLY_T10DIF, IAX_FLAG_CC,
    IAX_FLAG_CRAV, IAX_FLAG_RCR, IAX_OPCODE_CRC64, IAX_OPCODE_MEMMOVE, IAX_OPCODE_NOOP,
};

fn read_u64(bytes: &[u8], offset: usize) -> u64 {
    u64::from_le_bytes(bytes[offset..offset + 8].try_into().unwrap())
}

fn read_u32(bytes: &[u8], offset: usize) -> u32 {
    u32::from_le_bytes(bytes[offset..offset + 4].try_into().unwrap())
}

fn read_u16(bytes: &[u8], offset: usize) -> u16 {
    u16::from_le_bytes(bytes[offset..offset + 2].try_into().unwrap())
}

#[test]
fn descriptor_helpers_populate_bindgen_backed_storage() {
    let src = [0x5a_u8; 8];
    let mut dst = [0_u8; 8];
    let mut desc = DsaHwDesc::default();
    let comp = DsaCompletionRecord::default();

    desc.fill_memmove(src.as_ptr() as u64, dst.as_mut_ptr() as u64, src.len() as u32);
    desc.set_completion(comp.bytes.as_ptr() as u64);

    assert_eq!(desc.opcode(), DSA_OPCODE_MEMMOVE);
    assert_eq!(
        desc.flags(),
        IDXD_OP_FLAG_RCR | IDXD_OP_FLAG_CRAV | IDXD_OP_FLAG_CC
    );
    assert_eq!(desc.src_addr(), src.as_ptr() as u64);
    assert_eq!(desc.dst_addr(), dst.as_mut_ptr() as u64);
    assert_eq!(desc.xfer_size(), src.len() as u32);
    assert_eq!(desc.completion_addr(), comp.bytes.as_ptr() as u64);
}

#[test]
fn crc_helpers_do_not_request_cache_control() {
    let src = [0x5a_u8; 8];
    let mut dst = [0_u8; 8];
    let mut desc = DsaHwDesc::default();

    desc.fill_crc_gen(src.as_ptr() as u64, src.len() as u32, 0);
    assert_eq!(desc.opcode(), DSA_OPCODE_CRCGEN);
    assert_eq!(desc.flags(), IDXD_OP_FLAG_RCR | IDXD_OP_FLAG_CRAV);

    desc.fill_copy_crc(src.as_ptr() as u64, dst.as_mut_ptr() as u64, src.len() as u32, 0);
    assert_eq!(desc.opcode(), DSA_OPCODE_COPY_CRC);
    assert_eq!(desc.flags(), IDXD_OP_FLAG_RCR | IDXD_OP_FLAG_CRAV);
}

#[test]
fn reset_completion_restores_none_status() {
    let mut comp = DsaCompletionRecord::default();
    reset_completion(&mut comp);
    assert_eq!(comp.status(), DSA_COMP_NONE);
}

#[test]
fn reset_completion_clears_a_written_record() {
    let mut comp = DsaCompletionRecord::default();
    comp.bytes[0] = 0x81;
    comp.bytes[8] = 0xff;
    reset_completion(&mut comp);
    assert_eq!(comp.status(), DSA_COMP_NONE);
    assert_eq!(comp.fault_addr(), 0);
}

#[test]
fn completion_flags_match_the_idxd_bits() {
    assert_eq!(completion_flags(), 0x010c);
    assert_eq!(completion_flags_no_cache_control(), 0x000c);
    assert_eq!(DsaCompletionStatus::mask(0x81), 0x01);
    assert_eq!(DsaCompletionStatus::mask(0x7f), 0x7f);
}

#[test]
fn noop_drain_and_batch_descriptors_carry_their_fields() {
    let mut desc = DsaHwDesc::default();
    desc.fill_noop();
    assert_eq!(desc.opcode(), DSA_OPCODE_NOOP);
    assert_eq!(desc.flags(), completion_flags());

    desc.fill_drain(completion_flags_no_cache_control());
    assert_eq!(desc.opcode(), DSA_OPCODE_DRAIN);
    assert_eq!(desc.flags(), 0x000c);

    desc.fill_batch(0x4000, 8);
    assert_eq!(desc.opcode(), DSA_OPCODE_BATCH);
    assert_eq!(desc.src_addr(), 0x4000);
    assert_eq!(desc.xfer_size(), 8);
}

#[test]
fn crc16_t10dif_matches_known_vector() {
    assert_eq!(crc16_t10dif(b"123456789"), 0xD0DB);
}

#[test]
fn crc64_t10dif_field_packs_crc_in_msb_bits() {
    assert_eq!(crc64_t10dif_field(b"123456789"), 0xD0DB_0000_0000_0000);
}

#[test]
fn crc16_t10dif_of_nothing_is_zero() {
    assert_eq!(crc16_t10dif(b""), 0);
    assert_eq!(crc64_t10dif_field(b""), 0);
}

#[test]
fn completion_crc64_reads_64_bit_field_at_offset_32() {
    let mut comp = IaxCompletionRecord::default();
    comp.bytes[32..40].copy_from_slice(&0xD0DB_0000_0000_0000_u64.to_le_bytes());
    assert_eq!(completion_crc64(&comp), 0xD0DB_0000_0000_0000);
}

#[test]
fn iax_completion_accessors_read_their_offsets() {
    let mut comp = IaxCompletionRecord::default();
    comp.bytes[1] = 0x0b;
    comp.bytes[16..20].copy_from_slice(&0x1234_u32.to_le_bytes());
    assert_eq!(completion_error_code(&comp), 0x0b);
    assert_eq!(completion_invalid_flags(&comp), 0x1234);
    hw_eval::iax::reset_completion(&mut comp);
    assert_eq!(comp.status(), 0);
}

#[test]
fn fill_crc64_populates_expected_descriptor_fields() {
    let data = [0xABu8; 16];
    let mut desc = IaxHwDesc::default();
    desc.fill_crc64(data.as_ptr() as u64, data.len() as u32);

    let header = read_u32(&desc.bytes, 4);
    assert_eq!(header >> 24, IAX_OPCODE_CRC64 as u32);
    assert_eq!(read_u64(&desc.bytes, 16), data.as_ptr() as u64);
    assert_eq!(read_u32(&desc.bytes, 32), data.len() as u32);
    assert_eq!(header & 0x00ff_ffff, IAX_FLAG_RCR | IAX_FLAG_CRAV);
    assert_eq!(read_u16(&desc.bytes, 38), 0);
    assert_eq!(read_u64(&desc.bytes, 56), IAX_CRC64_POLY_T10DIF);
}

#[test]
fn iax_memmove_and_noop_descriptors() {
    let mut desc = IaxHwDesc::default();
    desc.fill_memmove(0x1000, 0x2000, 64);
    let header = read_u32(&desc.bytes, 4);
    assert_eq!(header >> 24, IAX_OPCODE_MEMMOVE as u32);
    assert_eq!(header & 0x00ff_ffff, IAX_FLAG_RCR | IAX_FLAG_CRAV | IAX_FLAG_CC);
    assert_eq!(read_u64(&desc.bytes, 24), 0x2000);
    desc.set_completion(0x3000);
    assert_eq!(read_u64(&desc.bytes, 8), 0x3000);

    desc.fill_noop();
    assert_eq!(read_u32(&desc.bytes, 4) >> 24, IAX_OPCODE_NOOP as u32);
    assert_eq!(read_u64(&desc.bytes, 8), 0);
}

#[test]
fn crc16_of_message_with_its_own_crc_is_zero() {
    for msg in [&b"123456789"[..], &b""[..], &[0xffu8, 0x00, 0x5a][..]] {
        let r = crc16_t10dif(msg);
        let mut m = msg.to_vec();
        m.push((r >> 8) as u8);
        m.push((r & 0xff) as u8);
        assert_eq!(crc16_t10dif(&m), 0);
    }
}
