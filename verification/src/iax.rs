//! IAX descriptors and completion records, laid out as in `linux/idxd.h`,
//! and the CRC-16/T10-DIF reference the CRC64 operation is checked against.
//!
//! A descriptor is 64 bytes: header word at 4 (24 flag bits, opcode in the
//! top byte), completion address at 8, first source at 16, destination at
//! 24, first source size at 32, operation flags at 38 and, for CRC64, the
//! polynomial at 56. A completion record is 64 bytes: status at 0, error
//! code at 1, fault address at 8, invalid flags at 16, CRC result at 32.

use vstd::prelude::*;

use crate::layout::{
    le_bytes_u16, le_bytes_u32, le_bytes_u64, lemma_put_index, lemma_put_outside,
    lemma_read_u16_of_subrange, lemma_read_u16_put, lemma_read_u32_of_subrange,
    lemma_read_u32_put, lemma_read_u64_of_subrange, lemma_read_u64_put, lemma_read_u64_zero,
    load_u32, load_u64, put_bytes, read_u16, read_u32, read_u64, store_u16, store_u32, store_u64,
    zeros,
};

verus! {

pub const IAX_OPCODE_NOOP: u8 = 0;

pub const IAX_OPCODE_MEMMOVE: u8 = 3;

pub const IAX_OPCODE_DECOMPRESS: u8 = 0x42;

pub const IAX_OPCODE_COMPRESS: u8 = 0x43;

pub const IAX_OPCODE_CRC64: u8 = 0x44;

pub const IAX_STATUS_ANALYTICS_ERROR: u8 = 0x0a;

pub const IAX_CRC64_POLY_T10DIF: u64 = 0x8BB7_0000_0000_0000;

pub const IAX_COMP_NONE: u8 = 0;

pub const IAX_COMP_SUCCESS: u8 = 1;

pub const IAX_COMP_PAGE_FAULT_IR: u8 = 0x04;

pub const IAX_COMP_OUTBUF_OVERFLOW: u8 = 0x0b;

pub const IAX_FLAG_CRAV: u32 = 0x0004;

pub const IAX_FLAG_RCR: u32 = 0x0008;

pub const IAX_FLAG_CC: u32 = 0x0100;

/// One shift of the CRC-16/T10-DIF register (polynomial 0x8BB7, MSB first).
pub open spec fn crc16_shift(crc: u16) -> u16 {
    if crc & 0x8000 != 0 {
        ((crc << 1u16) ^ 0x8BB7u16) as u16
    } else {
        (crc << 1u16) as u16
    }
}

/// `k` shifts of the register.
pub open spec fn crc16_shifts(crc: u16, k: nat) -> u16
    decreases k,
{
    if k == 0 {
        crc
    } else {
        crc16_shifts(crc16_shift(crc), (k - 1) as nat)
    }
}

/// The register after taking in one byte.
pub open spec fn crc16_byte(crc: u16, byte: u8) -> u16 {
    crc16_shifts(crc ^ ((byte as u16) << 8u16) as u16, 8)
}

/// CRC-16/T10-DIF of `data`: initial value 0, no reflection, no final xor.
pub open spec fn spec_crc16_t10dif(data: Seq<u8>) -> u16
    decreases data.len(),
{
    if data.len() == 0 {
        0
    } else {
        crc16_byte(spec_crc16_t10dif(data.drop_last()), data.last())
    }
}

/// CRC-16/T10-DIF of `data`.
pub fn crc16_t10dif(data: &[u8]) -> (crc: u16)
    ensures
        crc == spec_crc16_t10dif(data@),
{
    let mut crc: u16 = 0;
    let mut i: usize = 0;
    while i < data.len()
        invariant
            i <= data@.len(),
            crc == spec_crc16_t10dif(data@.subrange(0, i as int)),
        decreases data@.len() - i,
    {
        let byte = data[i];
        let ghost start: u16 = (crc ^ ((byte as u16) << 8u16)) as u16;
        crc = crc ^ ((byte as u16) << 8);
        let mut bit: u32 = 0;
        while bit < 8
            invariant
                bit <= 8,
                crc16_shifts(crc, (8 - bit) as nat) == crc16_shifts(start, 8),
            decreases 8 - bit,
        {
            let ghost before = crc;
            if (crc & 0x8000) != 0 {
                crc = (crc << 1) ^ 0x8BB7;
            } else {
                crc = crc << 1;
            }
            assert(crc == crc16_shift(before));
            bit = bit + 1;
        }
        let ghost prefix = data@.subrange(0, i + 1);
        assert(prefix.drop_last() =~= data@.subrange(0, i as int));
        assert(prefix.last() == byte);
        i = i + 1;
    }
    assert(data@.subrange(0, data@.len() as int) =~= data@);
    crc
}

/// Eight shifts of the register, written out.
spec fn crc16_shift8(c: u16) -> u16 {
    crc16_shift(
        crc16_shift(crc16_shift(crc16_shift(crc16_shift(crc16_shift(crc16_shift(crc16_shift(c))))))),
    )
}

proof fn lemma_crc16_shifts_8(c: u16)
    ensures
        crc16_shifts(c, 8) == crc16_shift8(c),
{
    reveal_with_fuel(crc16_shifts, 9);
}

/// Below the top bit a shift only doubles the register.
proof fn lemma_crc16_shift_small(c: u16)
    requires
        c < 0x8000,
    ensures
        crc16_shift(c) == c * 2,
{
    assert(c < 0x8000 ==> crc16_shift(c) == c * 2) by (bit_vector);
}

/// A byte-sized register comes out of eight shifts moved up by eight bits.
proof fn lemma_crc16_shift8_byte(x: u16)
    requires
        x < 256,
    ensures
        crc16_shift8(x) == x * 256,
{
    lemma_crc16_shift_small(x);
    let x1 = crc16_shift(x);
    lemma_crc16_shift_small(x1);
    let x2 = crc16_shift(x1);
    lemma_crc16_shift_small(x2);
    let x3 = crc16_shift(x2);
    lemma_crc16_shift_small(x3);
    let x4 = crc16_shift(x3);
    lemma_crc16_shift_small(x4);
    let x5 = crc16_shift(x4);
    lemma_crc16_shift_small(x5);
    let x6 = crc16_shift(x5);
    lemma_crc16_shift_small(x6);
    let x7 = crc16_shift(x6);
    lemma_crc16_shift_small(x7);
}

/// Taking in the high and then the low byte of the register leaves zero.
proof fn lemma_crc16_own_bytes(r: u16)
    ensures
        crc16_shift8((crc16_shift8((r ^ (((r >> 8u16) as u8 as u16) << 8u16)) as u16) ^ (((r
            & 0xffu16) as u8 as u16) << 8u16)) as u16) == 0,
{
    let lo = (r & 0xffu16) as u8 as u16;
    let a = (r ^ (((r >> 8u16) as u8 as u16) << 8u16)) as u16;
    assert(a == r & 0xffu16 && r & 0xffu16 < 256) by (bit_vector)
        requires
            a == (r ^ (((r >> 8u16) as u8 as u16) << 8u16)) as u16,
    ;
    assert(lo == r & 0xffu16);
    lemma_crc16_shift8_byte(a);
    let c1 = crc16_shift8(a);
    assert(c1 == lo * 256);
    assert(lo < 256 ==> ((lo * 256) as u16 ^ (lo << 8u16)) as u16 == 0) by (bit_vector);
    let b = (c1 ^ (lo << 8u16)) as u16;
    assert(b == 0);
    lemma_crc16_shift8_byte(0);
}

/// The CRC of a message followed by its own CRC, high byte first, is zero.
pub proof fn law_crc16_zero_residue(data: Seq<u8>)
    ensures
        ({
            let r = spec_crc16_t10dif(data);
            spec_crc16_t10dif(data + seq![(r >> 8u16) as u8, (r & 0xffu16) as u8]) == 0
        }),
{
    let r = spec_crc16_t10dif(data);
    let hi = (r >> 8u16) as u8;
    let lo = (r & 0xffu16) as u8;
    let m1 = data.push(hi);
    let m2 = m1.push(lo);
    assert(data + seq![hi, lo] =~= m2);
    assert(m2.drop_last() =~= m1);
    assert(m1.drop_last() =~= data);
    let a = (r ^ ((hi as u16) << 8u16)) as u16;
    assert(spec_crc16_t10dif(m1) == crc16_shifts(a, 8));
    lemma_crc16_shifts_8(a);
    let c1 = crc16_shift8(a);
    let b = (c1 ^ ((lo as u16) << 8u16)) as u16;
    assert(spec_crc16_t10dif(m2) == crc16_shifts(b, 8));
    lemma_crc16_shifts_8(b);
    lemma_crc16_own_bytes(r);
}

/// The CRC64 completion field for a T10-DIF CRC: the 16-bit CRC in the top
/// bits.
pub fn crc64_t10dif_field(data: &[u8]) -> (field: u64)
    ensures
        field == (spec_crc16_t10dif(data@) as u64) << 48u64,
        field >> 48u64 == spec_crc16_t10dif(data@) as u64,
        field & 0xffff_ffff_ffff == 0,
{
    let crc = crc16_t10dif(data);
    let field = (crc as u64) << 48;
    assert(((crc as u64) << 48u64) >> 48u64 == crc as u64) by (bit_vector);
    assert(((crc as u64) << 48u64) & 0xffff_ffff_ffff == 0) by (bit_vector);
    field
}

/// The header word of an IAX descriptor.
pub open spec fn iax_header(opcode: u8, extra_flags: u32) -> u32 {
    ((IAX_FLAG_RCR | IAX_FLAG_CRAV | extra_flags) & 0x00ff_ffff) | ((opcode as u32) << 24)
}

/// A zeroed descriptor carrying only its opcode and flags.
pub open spec fn iax_prepared(opcode: u8, extra_flags: u32) -> Seq<u8> {
    put_bytes(zeros(64), 4, le_bytes_u32(iax_header(opcode, extra_flags)))
}

pub open spec fn iax_noop_image() -> Seq<u8> {
    iax_prepared(IAX_OPCODE_NOOP, 0)
}

pub open spec fn iax_memmove_image(src: u64, dst: u64, size: u32) -> Seq<u8> {
    put_bytes(
        put_bytes(
            put_bytes(iax_prepared(IAX_OPCODE_MEMMOVE, IAX_FLAG_CC), 16, le_bytes_u64(src)),
            24,
            le_bytes_u64(dst),
        ),
        32,
        le_bytes_u32(size),
    )
}

pub open spec fn iax_crc64_image(src: u64, size: u32) -> Seq<u8> {
    put_bytes(
        put_bytes(
            put_bytes(
                put_bytes(iax_prepared(IAX_OPCODE_CRC64, 0), 16, le_bytes_u64(src)),
                32,
                le_bytes_u32(size),
            ),
            38,
            le_bytes_u16(0),
        ),
        56,
        le_bytes_u64(IAX_CRC64_POLY_T10DIF),
    )
}

/// A 64-byte IAX descriptor.
#[derive(Clone, Copy)]
pub struct IaxHwDesc {
    pub bytes: [u8; 64],
}

impl View for IaxHwDesc {
    type V = Seq<u8>;

    open spec fn view(&self) -> Seq<u8> {
        self.bytes@
    }
}

/// A 64-byte IAX completion record.
#[derive(Clone, Copy)]
pub struct IaxCompletionRecord {
    pub bytes: [u8; 64],
}

impl View for IaxCompletionRecord {
    type V = Seq<u8>;

    open spec fn view(&self) -> Seq<u8> {
        self.bytes@
    }
}

impl Default for IaxHwDesc {
    fn default() -> (d: Self)
        ensures
            d@ == zeros(64),
    {
        let d = IaxHwDesc { bytes: [0u8; 64] };
        assert(d@ =~= zeros(64));
        d
    }
}

impl Default for IaxCompletionRecord {
    fn default() -> (c: Self)
        ensures
            c@ == zeros(64),
    {
        let c = IaxCompletionRecord { bytes: [0u8; 64] };
        assert(c@ =~= zeros(64));
        c
    }
}

impl IaxHwDesc {
    /// Writes the header of a zeroed descriptor: PASID, reserved and
    /// privilege bits zero, completion-record flags plus `extra_flags`.
    fn set_opcode_flags(&mut self, opcode: u8, extra_flags: u32)
        requires
            old(self)@ == zeros(64),
        ensures
            final(self)@ == iax_prepared(opcode, extra_flags),
    {
        let flags: u32 = IAX_FLAG_RCR | IAX_FLAG_CRAV | extra_flags;
        let header: u32 = (flags & 0x00ff_ffff) | ((opcode as u32) << 24);
        store_u32(&mut self.bytes, 0, 0);
        assert(put_bytes(zeros(64), 0, le_bytes_u32(0)) =~= zeros(64)) by {
            assert(((0u32 & 0xff) as u8) == 0u8) by (bit_vector);
            assert((((0u32 >> 8) & 0xff) as u8) == 0u8) by (bit_vector);
            assert((((0u32 >> 16) & 0xff) as u8) == 0u8) by (bit_vector);
            assert((((0u32 >> 24) & 0xff) as u8) == 0u8) by (bit_vector);
        }
        store_u32(&mut self.bytes, 4, header);
    }

    /// Points the descriptor at the completion record at `completion_addr`.
    pub fn set_completion(&mut self, completion_addr: u64)
        ensures
            final(self)@ == put_bytes(old(self)@, 8, le_bytes_u64(completion_addr)),
    {
        store_u64(&mut self.bytes, 8, completion_addr);
    }

    pub fn fill_noop(&mut self)
        ensures
            final(self)@ == iax_noop_image(),
    {
        *self = Self::default();
        self.set_opcode_flags(IAX_OPCODE_NOOP, 0);
    }

    pub fn fill_memmove(&mut self, src: u64, dst: u64, size: u32)
        ensures
            final(self)@ == iax_memmove_image(src, dst, size),
    {
        *self = Self::default();
        self.set_opcode_flags(IAX_OPCODE_MEMMOVE, IAX_FLAG_CC);
        store_u64(&mut self.bytes, 16, src);
        store_u64(&mut self.bytes, 24, dst);
        store_u32(&mut self.bytes, 32, size);
    }

    /// A CRC64 descriptor over `size` bytes at `src` with the T10-DIF
    /// polynomial.
    pub fn fill_crc64(&mut self, src: u64, size: u32)
        ensures
            final(self)@ == iax_crc64_image(src, size),
    {
        *self = Self::default();
        self.set_opcode_flags(IAX_OPCODE_CRC64, 0);
        store_u64(&mut self.bytes, 16, src);
        store_u32(&mut self.bytes, 32, size);
        store_u16(&mut self.bytes, 38, 0);
        store_u64(&mut self.bytes, 56, IAX_CRC64_POLY_T10DIF);
    }
}

impl IaxCompletionRecord {
    pub fn status(&self) -> (s: u8)
        ensures
            s == self@[0],
    {
        self.bytes[0]
    }

    pub fn fault_addr(&self) -> (a: u64)
        ensures
            a == read_u64(self@, 8),
    {
        load_u64(&self.bytes, 8)
    }
}

/// Clears a completion record for reuse.
pub fn reset_completion(comp: &mut IaxCompletionRecord)
    ensures
        final(comp)@ == zeros(64),
{
    *comp = IaxCompletionRecord::default();
}

/// The error code the accelerator reported.
pub fn completion_error_code(comp: &IaxCompletionRecord) -> (code: u8)
    ensures
        code == comp@[1],
{
    comp.bytes[1]
}

/// The invalid-flags word the accelerator reported.
pub fn completion_invalid_flags(comp: &IaxCompletionRecord) -> (flags: u32)
    ensures
        flags == read_u32(comp@, 16),
{
    load_u32(&comp.bytes, 16)
}

/// The 64-bit CRC result field at offset 32.
pub fn completion_crc64(comp: &IaxCompletionRecord) -> (crc: u64)
    ensures
        crc == read_u64(comp@, 32),
{
    load_u64(&comp.bytes, 32)
}

/// The fields a CRC64 descriptor is read by: the header word (flags in
/// the low 24 bits, opcode in the top byte), the completion address, the
/// source and its size, the 16-bit word at offset 38 and the polynomial.
pub ghost struct IaxCrc64Fields {
    pub header: u32,
    pub completion_addr: u64,
    pub src1_addr: u64,
    pub src1_size: u32,
    pub word_38: u16,
    pub polynomial: u64,
}

pub open spec fn iax_crc64_fields(b: Seq<u8>) -> IaxCrc64Fields {
    IaxCrc64Fields {
        header: read_u32(b, 4),
        completion_addr: read_u64(b, 8),
        src1_addr: read_u64(b, 16),
        src1_size: read_u32(b, 32),
        word_38: read_u16(b, 38),
        polynomial: read_u64(b, 56),
    }
}

proof fn lemma_keep_u64_at(b: Seq<u8>, off: int, w: Seq<u8>, fo: int)
    requires
        0 <= off,
        off + w.len() <= b.len(),
        0 <= fo,
        fo + 8 <= b.len(),
        fo + 8 <= off || off + w.len() <= fo,
    ensures
        read_u64(put_bytes(b, off, w), fo) == read_u64(b, fo),
{
    lemma_put_outside(b, off, w, fo, fo + 8);
    lemma_read_u64_of_subrange(put_bytes(b, off, w), b, fo);
}

proof fn lemma_keep_u32_at(b: Seq<u8>, off: int, w: Seq<u8>, fo: int)
    requires
        0 <= off,
        off + w.len() <= b.len(),
        0 <= fo,
        fo + 4 <= b.len(),
        fo + 4 <= off || off + w.len() <= fo,
    ensures
        read_u32(put_bytes(b, off, w), fo) == read_u32(b, fo),
{
    lemma_put_outside(b, off, w, fo, fo + 4);
    lemma_read_u32_of_subrange(put_bytes(b, off, w), b, fo);
}

proof fn lemma_keep_u16_at(b: Seq<u8>, off: int, w: Seq<u8>, fo: int)
    requires
        0 <= off,
        off + w.len() <= b.len(),
        0 <= fo,
        fo + 2 <= b.len(),
        fo + 2 <= off || off + w.len() <= fo,
    ensures
        read_u16(put_bytes(b, off, w), fo) == read_u16(b, fo),
{
    lemma_put_outside(b, off, w, fo, fo + 2);
    lemma_read_u16_of_subrange(put_bytes(b, off, w), b, fo);
}

/// A memmove descriptor reads back the memmove opcode in the top byte of
/// its header word, no completion address, its source at byte 16, its
/// destination at byte 24 and its size at byte 32.
pub proof fn law_iax_memmove_fields(src: u64, dst: u64, size: u32)
    ensures
        iax_memmove_image(src, dst, size).len() == 64,
        read_u32(iax_memmove_image(src, dst, size), 4) >> 24u32 == IAX_OPCODE_MEMMOVE as u32,
        read_u64(iax_memmove_image(src, dst, size), 8) == 0,
        read_u64(iax_memmove_image(src, dst, size), 16) == src,
        read_u64(iax_memmove_image(src, dst, size), 24) == dst,
        read_u32(iax_memmove_image(src, dst, size), 32) == size,
{
    let h = iax_header(IAX_OPCODE_MEMMOVE, IAX_FLAG_CC);
    assert(((((IAX_FLAG_RCR | IAX_FLAG_CRAV | IAX_FLAG_CC) & 0x00ff_ffffu32) | ((3u8 as u32)
        << 24u32)) >> 24u32) == 3u32) by (bit_vector);
    let b0 = iax_prepared(IAX_OPCODE_MEMMOVE, IAX_FLAG_CC);
    lemma_read_u32_put(zeros(64), 4, h);
    assert forall|i: int| 8 <= i < 64 implies #[trigger] b0[i] == 0u8 by {
        lemma_put_index(zeros(64), 4, le_bytes_u32(h), i);
    }
    lemma_read_u64_zero(b0, 8);
    let w1 = le_bytes_u64(src);
    let b1 = put_bytes(b0, 16, w1);
    lemma_read_u64_put(b0, 16, src);
    lemma_keep_u32_at(b0, 16, w1, 4);
    lemma_keep_u64_at(b0, 16, w1, 8);
    let w2 = le_bytes_u64(dst);
    let b2 = put_bytes(b1, 24, w2);
    lemma_read_u64_put(b1, 24, dst);
    lemma_keep_u32_at(b1, 24, w2, 4);
    lemma_keep_u64_at(b1, 24, w2, 8);
    lemma_keep_u64_at(b1, 24, w2, 16);
    let w3 = le_bytes_u32(size);
    let b3 = put_bytes(b2, 32, w3);
    lemma_read_u32_put(b2, 32, size);
    lemma_keep_u32_at(b2, 32, w3, 4);
    lemma_keep_u64_at(b2, 32, w3, 8);
    lemma_keep_u64_at(b2, 32, w3, 16);
    lemma_keep_u64_at(b2, 32, w3, 24);
}

/// A CRC64 descriptor reads back the CRC64 opcode, the completion-record
/// flags, no completion address, its source and size, a zero word at
/// offset 38 and the T10-DIF polynomial.
pub proof fn law_crc64_fields(src: u64, size: u32)
    ensures
        iax_crc64_image(src, size).len() == 64,
        iax_crc64_fields(iax_crc64_image(src, size)) == (IaxCrc64Fields {
            header: iax_header(IAX_OPCODE_CRC64, 0),
            completion_addr: 0,
            src1_addr: src,
            src1_size: size,
            word_38: 0,
            polynomial: IAX_CRC64_POLY_T10DIF,
        }),
        iax_header(IAX_OPCODE_CRC64, 0) >> 24 == IAX_OPCODE_CRC64,
        iax_header(IAX_OPCODE_CRC64, 0) & 0x00ff_ffff == IAX_FLAG_RCR | IAX_FLAG_CRAV,
{
    let h = iax_header(IAX_OPCODE_CRC64, 0);
    assert(((((IAX_FLAG_RCR | IAX_FLAG_CRAV | 0u32) & 0x00ff_ffffu32) | ((0x44u8 as u32)
        << 24u32)) >> 24u32) == 0x44u32) by (bit_vector);
    assert(((((IAX_FLAG_RCR | IAX_FLAG_CRAV | 0u32) & 0x00ff_ffffu32) | ((0x44u8 as u32)
        << 24u32)) & 0x00ff_ffffu32) == IAX_FLAG_RCR | IAX_FLAG_CRAV) by (bit_vector);
    let b0 = iax_prepared(IAX_OPCODE_CRC64, 0);
    lemma_read_u32_put(zeros(64), 4, h);
    assert forall|i: int| 8 <= i < 64 implies #[trigger] b0[i] == 0u8 by {
        lemma_put_index(zeros(64), 4, le_bytes_u32(h), i);
    }
    lemma_read_u64_zero(b0, 8);
    let w1 = le_bytes_u64(src);
    let b1 = put_bytes(b0, 16, w1);
    lemma_read_u64_put(b0, 16, src);
    lemma_keep_u32_at(b0, 16, w1, 4);
    lemma_keep_u64_at(b0, 16, w1, 8);
    let w2 = le_bytes_u32(size);
    let b2 = put_bytes(b1, 32, w2);
    lemma_read_u32_put(b1, 32, size);
    lemma_keep_u32_at(b1, 32, w2, 4);
    lemma_keep_u64_at(b1, 32, w2, 8);
    lemma_keep_u64_at(b1, 32, w2, 16);
    let w3 = le_bytes_u16(0);
    let b3 = put_bytes(b2, 38, w3);
    lemma_read_u16_put(b2, 38, 0);
    lemma_keep_u32_at(b2, 38, w3, 4);
    lemma_keep_u64_at(b2, 38, w3, 8);
    lemma_keep_u64_at(b2, 38, w3, 16);
    lemma_keep_u32_at(b2, 38, w3, 32);
    let w4 = le_bytes_u64(IAX_CRC64_POLY_T10DIF);
    lemma_read_u64_put(b3, 56, IAX_CRC64_POLY_T10DIF);
    lemma_keep_u32_at(b3, 56, w4, 4);
    lemma_keep_u64_at(b3, 56, w4, 8);
    lemma_keep_u64_at(b3, 56, w4, 16);
    lemma_keep_u32_at(b3, 56, w4, 32);
    lemma_keep_u16_at(b3, 56, w4, 38);
}

/// A reset IAX completion record reads as not yet completed, with no error
/// code and a zero CRC.
pub proof fn law_iax_reset_reads_none()
    ensures
        zeros(64)[0] == IAX_COMP_NONE,
        zeros(64)[1] == 0,
        read_u64(zeros(64), 32) == 0,
{
    lemma_read_u64_zero(zeros(64), 32);
}

} // verus!
