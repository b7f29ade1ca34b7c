//! DSA descriptors and completion records, laid out as in `linux/idxd.h`.
//!
//! A descriptor is 64 bytes: a header word at offset 4 holding the 24 flag
//! bits and the opcode in its top byte, the completion-record address at 8,
//! the source at 16, the destination at 24, the transfer size at 32 and the
//! operation-specific area from 40. A completion record is 32 bytes whose
//! first byte is the status and whose fault address is at 8.

use vstd::prelude::*;

use crate::layout::{
    le_bytes_u32, le_bytes_u64, lemma_put_outside, lemma_read_u32_of_subrange, lemma_read_u32_put,
    lemma_read_u64_of_subrange, lemma_read_u64_put, load_u32, load_u64, put_bytes, read_u32,
    read_u64, store_u32, store_u64, zeros,
};

verus! {

pub const DSA_COMP_STATUS_MASK: u8 = 0x7f;

pub const DSA_COMP_NONE: u8 = 0;

pub const DSA_COMP_SUCCESS: u8 = 1;

pub const DSA_COMP_PAGE_FAULT_NOBOF: u8 = 3;

pub const DSA_OPCODE_NOOP: u8 = 0;

pub const DSA_OPCODE_BATCH: u8 = 1;

pub const DSA_OPCODE_DRAIN: u8 = 2;

pub const DSA_OPCODE_MEMMOVE: u8 = 3;

pub const DSA_OPCODE_MEMFILL: u8 = 4;

pub const DSA_OPCODE_COMPARE: u8 = 5;

pub const DSA_OPCODE_COMPVAL: u8 = 6;

pub const DSA_OPCODE_DUALCAST: u8 = 9;

pub const DSA_OPCODE_CRCGEN: u8 = 0x10;

pub const DSA_OPCODE_COPY_CRC: u8 = 0x11;

pub const DSA_OPCODE_CFLUSH: u8 = 0x20;

pub const IDXD_OP_FLAG_CRAV: u32 = 0x0004;

pub const IDXD_OP_FLAG_RCR: u32 = 0x0008;

pub const IDXD_OP_FLAG_CC: u32 = 0x0100;

pub const DSA_DESC_BYTES: usize = 64;

pub const DSA_COMPLETION_BYTES: usize = 32;

pub const HEADER_OFFSET: usize = 4;

pub const COMPLETION_ADDR_OFFSET: usize = 8;

pub const SRC_ADDR_OFFSET: usize = 16;

pub const DST_ADDR_OFFSET: usize = 24;

pub const XFER_SIZE_OFFSET: usize = 32;

pub const OP_SPECIFIC_OFFSET: usize = 40;

pub const FAULT_ADDR_OFFSET: usize = 8;

/// Request a completion record, its address valid, with cache control.
pub open spec fn spec_completion_flags() -> u32 {
    IDXD_OP_FLAG_RCR | IDXD_OP_FLAG_CRAV | IDXD_OP_FLAG_CC
}

/// Request a completion record, its address valid, without cache control.
pub open spec fn spec_completion_flags_no_cache_control() -> u32 {
    IDXD_OP_FLAG_RCR | IDXD_OP_FLAG_CRAV
}

pub fn completion_flags() -> (f: u32)
    ensures
        f == spec_completion_flags(),
        f == 0x010c,
{
    assert(IDXD_OP_FLAG_RCR | IDXD_OP_FLAG_CRAV | IDXD_OP_FLAG_CC == 0x010c) by (bit_vector);
    IDXD_OP_FLAG_RCR | IDXD_OP_FLAG_CRAV | IDXD_OP_FLAG_CC
}

pub fn completion_flags_no_cache_control() -> (f: u32)
    ensures
        f == spec_completion_flags_no_cache_control(),
        f == 0x000c,
{
    assert(IDXD_OP_FLAG_RCR | IDXD_OP_FLAG_CRAV == 0x000c) by (bit_vector);
    IDXD_OP_FLAG_RCR | IDXD_OP_FLAG_CRAV
}

/// The status with the reserved top bit cleared.
pub open spec fn spec_status_mask(status: u8) -> u8 {
    status & DSA_COMP_STATUS_MASK
}

pub struct DsaCompletionStatus;

impl DsaCompletionStatus {
    pub fn mask(status: u8) -> (s: u8)
        ensures
            s == spec_status_mask(status),
            s < 0x80,
    {
        assert(status & 0x7f < 0x80) by (bit_vector);
        status & DSA_COMP_STATUS_MASK
    }
}

/// The header word: 24 flag bits under the opcode byte.
pub open spec fn header_word(opcode: u8, flags: u32) -> u32 {
    (flags & 0x00ff_ffff) | ((opcode as u32) << 24)
}

/// A zeroed descriptor carrying only its opcode and flags.
pub open spec fn prepared_image(opcode: u8, flags: u32) -> Seq<u8> {
    put_bytes(zeros(64), HEADER_OFFSET as int, le_bytes_u32(header_word(opcode, flags)))
}

pub open spec fn put_u64_field(b: Seq<u8>, off: usize, v: u64) -> Seq<u8> {
    put_bytes(b, off as int, le_bytes_u64(v))
}

pub open spec fn put_u32_field(b: Seq<u8>, off: usize, v: u32) -> Seq<u8> {
    put_bytes(b, off as int, le_bytes_u32(v))
}

pub open spec fn noop_image() -> Seq<u8> {
    prepared_image(DSA_OPCODE_NOOP, spec_completion_flags())
}

pub open spec fn drain_image(flags: u32) -> Seq<u8> {
    prepared_image(DSA_OPCODE_DRAIN, flags)
}

pub open spec fn memmove_image(src: u64, dst: u64, size: u32) -> Seq<u8> {
    put_u32_field(
        put_u64_field(
            put_u64_field(
                prepared_image(DSA_OPCODE_MEMMOVE, spec_completion_flags()),
                SRC_ADDR_OFFSET,
                src,
            ),
            DST_ADDR_OFFSET,
            dst,
        ),
        XFER_SIZE_OFFSET,
        size,
    )
}

pub open spec fn crc_gen_image(src: u64, size: u32, crc_seed: u32) -> Seq<u8> {
    put_u64_field(
        put_u32_field(
            put_u32_field(
                put_u64_field(
                    prepared_image(DSA_OPCODE_CRCGEN, spec_completion_flags_no_cache_control()),
                    SRC_ADDR_OFFSET,
                    src,
                ),
                XFER_SIZE_OFFSET,
                size,
            ),
            OP_SPECIFIC_OFFSET,
            crc_seed,
        ),
        (OP_SPECIFIC_OFFSET + 8) as usize,
        0,
    )
}

pub open spec fn copy_crc_image(src: u64, dst: u64, size: u32, crc_seed: u32) -> Seq<u8> {
    put_u64_field(
        put_u32_field(
            put_u32_field(
                put_u64_field(
                    put_u64_field(
                        prepared_image(
                            DSA_OPCODE_COPY_CRC,
                            spec_completion_flags_no_cache_control(),
                        ),
                        SRC_ADDR_OFFSET,
                        src,
                    ),
                    DST_ADDR_OFFSET,
                    dst,
                ),
                XFER_SIZE_OFFSET,
                size,
            ),
            OP_SPECIFIC_OFFSET,
            crc_seed,
        ),
        (OP_SPECIFIC_OFFSET + 8) as usize,
        0,
    )
}

pub open spec fn batch_image(desc_list_addr: u64, desc_count: u32) -> Seq<u8> {
    put_u32_field(
        put_u64_field(
            prepared_image(DSA_OPCODE_BATCH, spec_completion_flags()),
            SRC_ADDR_OFFSET,
            desc_list_addr,
        ),
        XFER_SIZE_OFFSET,
        desc_count,
    )
}

/// What the descriptor accessors read from a 64-byte image.
pub ghost struct DescFields {
    pub opcode: u8,
    pub flags: u32,
    pub completion_addr: u64,
    pub src_addr: u64,
    pub dst_addr: u64,
    pub xfer_size: u32,
}

pub open spec fn spec_opcode(b: Seq<u8>) -> u8 {
    b[7]
}

pub open spec fn spec_flags(b: Seq<u8>) -> u32 {
    read_u32(b, HEADER_OFFSET as int) & 0x00ff_ffff
}

pub open spec fn desc_fields(b: Seq<u8>) -> DescFields {
    DescFields {
        opcode: spec_opcode(b),
        flags: spec_flags(b),
        completion_addr: read_u64(b, COMPLETION_ADDR_OFFSET as int),
        src_addr: read_u64(b, SRC_ADDR_OFFSET as int),
        dst_addr: read_u64(b, DST_ADDR_OFFSET as int),
        xfer_size: read_u32(b, XFER_SIZE_OFFSET as int),
    }
}

/// A 64-byte DSA descriptor.
#[derive(Clone, Copy)]
pub struct DsaHwDesc {
    pub bytes: [u8; 64],
}

impl View for DsaHwDesc {
    type V = Seq<u8>;

    open spec fn view(&self) -> Seq<u8> {
        self.bytes@
    }
}

/// A 32-byte DSA completion record.
#[derive(Clone, Copy)]
pub struct DsaCompletionRecord {
    pub bytes: [u8; 32],
}

impl View for DsaCompletionRecord {
    type V = Seq<u8>;

    open spec fn view(&self) -> Seq<u8> {
        self.bytes@
    }
}

impl Default for DsaHwDesc {
    fn default() -> (d: Self)
        ensures
            d@ == zeros(64),
    {
        let d = DsaHwDesc { bytes: [0u8; 64] };
        assert(d@ =~= zeros(64));
        d
    }
}

impl Default for DsaCompletionRecord {
    fn default() -> (c: Self)
        ensures
            c@ == zeros(32),
    {
        let c = DsaCompletionRecord { bytes: [0u8; 32] };
        assert(c@ =~= zeros(32));
        c
    }
}

proof fn lemma_header_fields(opcode: u8, flags: u32)
    ensures
        spec_opcode(prepared_image(opcode, flags)) == opcode,
        spec_flags(prepared_image(opcode, flags)) == flags & 0x00ff_ffff,
        prepared_image(opcode, flags).len() == 64,
        read_u64(prepared_image(opcode, flags), COMPLETION_ADDR_OFFSET as int) == 0,
        read_u64(prepared_image(opcode, flags), SRC_ADDR_OFFSET as int) == 0,
        read_u64(prepared_image(opcode, flags), DST_ADDR_OFFSET as int) == 0,
        read_u32(prepared_image(opcode, flags), XFER_SIZE_OFFSET as int) == 0,
{
    let h = header_word(opcode, flags);
    let img = prepared_image(opcode, flags);
    lemma_read_u32_put(zeros(64), 4, h);
    assert(img[7] == le_bytes_u32(h)[3]);
    assert(((((flags & 0x00ff_ffff) | ((opcode as u32) << 24)) >> 24) & 0xff) as u8 == opcode)
        by (bit_vector);
    assert((((flags & 0x00ff_ffff) | ((opcode as u32) << 24)) & 0x00ff_ffff) == flags
        & 0x00ff_ffff) by (bit_vector);
    assert forall|i: int| 8 <= i < 64 implies #[trigger] img[i] == 0u8 by {
        crate::layout::lemma_put_index(zeros(64), 4, le_bytes_u32(h), i);
    }
    crate::layout::lemma_read_u64_zero(img, 8);
    crate::layout::lemma_read_u64_zero(img, 16);
    crate::layout::lemma_read_u64_zero(img, 24);
    crate::layout::lemma_read_u32_zero(img, 32);
}

proof fn lemma_keep_u64(b: Seq<u8>, off: int, w: Seq<u8>, fo: int)
    requires
        0 <= off,
        off + w.len() <= b.len(),
        0 <= fo,
        fo + 8 <= b.len(),
        fo + 8 <= off || off + w.len() <= fo,
    ensures
        read_u64(put_bytes(b, off, w), fo) == read_u64(b, fo),
{
    lemma_put_outside(b, off, w, fo, fo + 8);
    lemma_read_u64_of_subrange(put_bytes(b, off, w), b, fo);
}

proof fn lemma_keep_u32(b: Seq<u8>, off: int, w: Seq<u8>, fo: int)
    requires
        0 <= off,
        off + w.len() <= b.len(),
        0 <= fo,
        fo + 4 <= b.len(),
        fo + 4 <= off || off + w.len() <= fo,
    ensures
        read_u32(put_bytes(b, off, w), fo) == read_u32(b, fo),
{
    lemma_put_outside(b, off, w, fo, fo + 4);
    lemma_read_u32_of_subrange(put_bytes(b, off, w), b, fo);
}

/// Writing a 64-bit field of a 64-byte image changes only that field.
proof fn lemma_put_u64_fields(b: Seq<u8>, off: usize, v: u64)
    requires
        b.len() == 64,
        off == COMPLETION_ADDR_OFFSET || off == SRC_ADDR_OFFSET || off == DST_ADDR_OFFSET || off
            == OP_SPECIFIC_OFFSET || off == OP_SPECIFIC_OFFSET + 8,
    ensures
        put_u64_field(b, off, v).len() == 64,
        desc_fields(put_u64_field(b, off, v)) == (if off == COMPLETION_ADDR_OFFSET {
            DescFields { completion_addr: v, ..desc_fields(b) }
        } else if off == SRC_ADDR_OFFSET {
            DescFields { src_addr: v, ..desc_fields(b) }
        } else if off == DST_ADDR_OFFSET {
            DescFields { dst_addr: v, ..desc_fields(b) }
        } else {
            desc_fields(b)
        }),
{
    let w = le_bytes_u64(v);
    let o = off as int;
    lemma_read_u64_put(b, o, v);
    crate::layout::lemma_put_index(b, o, w, 7);
    lemma_keep_u32(b, o, w, 4);
    if off != COMPLETION_ADDR_OFFSET {
        lemma_keep_u64(b, o, w, 8);
    }
    if off != SRC_ADDR_OFFSET {
        lemma_keep_u64(b, o, w, 16);
    }
    if off != DST_ADDR_OFFSET {
        lemma_keep_u64(b, o, w, 24);
    }
    lemma_keep_u32(b, o, w, 32);
}

/// Writing a 32-bit field of a 64-byte image changes only that field.
proof fn lemma_put_u32_fields(b: Seq<u8>, off: usize, v: u32)
    requires
        b.len() == 64,
        off == XFER_SIZE_OFFSET || off == OP_SPECIFIC_OFFSET,
    ensures
        put_u32_field(b, off, v).len() == 64,
        desc_fields(put_u32_field(b, off, v)) == (if off == XFER_SIZE_OFFSET {
            DescFields { xfer_size: v, ..desc_fields(b) }
        } else {
            desc_fields(b)
        }),
{
    let w = le_bytes_u32(v);
    let o = off as int;
    lemma_read_u32_put(b, o, v);
    crate::layout::lemma_put_index(b, o, w, 7);
    lemma_keep_u32(b, o, w, 4);
    lemma_keep_u64(b, o, w, 8);
    lemma_keep_u64(b, o, w, 16);
    lemma_keep_u64(b, o, w, 24);
    if off != XFER_SIZE_OFFSET {
        lemma_keep_u32(b, o, w, 32);
    }
}


impl DsaHwDesc {
    /// Clears the descriptor, then writes the opcode and the low 24 flag
    /// bits; a descriptor with only these fields set is complete for a
    /// no-op with chosen flags.
    pub fn prepare(&mut self, opcode: u8, flags: u32)
        ensures
            final(self)@ == prepared_image(opcode, flags),
    {
        *self = Self::default();
        let header: u32 = (flags & 0x00ff_ffff) | ((opcode as u32) << 24);
        store_u32(&mut self.bytes, HEADER_OFFSET, header);
    }

    fn put_u64(&mut self, offset: usize, value: u64)
        requires
            offset + 8 <= 64,
        ensures
            final(self)@ == put_u64_field(old(self)@, offset, value),
    {
        store_u64(&mut self.bytes, offset, value);
    }

    fn put_u32(&mut self, offset: usize, value: u32)
        requires
            offset + 4 <= 64,
        ensures
            final(self)@ == put_u32_field(old(self)@, offset, value),
    {
        store_u32(&mut self.bytes, offset, value);
    }

    fn get_u64(&self, offset: usize) -> (v: u64)
        requires
            offset + 8 <= 64,
        ensures
            v == read_u64(self@, offset as int),
    {
        load_u64(&self.bytes, offset)
    }

    fn get_u32(&self, offset: usize) -> (v: u32)
        requires
            offset + 4 <= 64,
        ensures
            v == read_u32(self@, offset as int),
    {
        load_u32(&self.bytes, offset)
    }

    fn set_src_addr(&mut self, value: u64)
        ensures
            final(self)@ == put_u64_field(old(self)@, SRC_ADDR_OFFSET, value),
    {
        self.put_u64(SRC_ADDR_OFFSET, value);
    }

    fn set_dst_addr(&mut self, value: u64)
        ensures
            final(self)@ == put_u64_field(old(self)@, DST_ADDR_OFFSET, value),
    {
        self.put_u64(DST_ADDR_OFFSET, value);
    }

    fn set_xfer_size(&mut self, value: u32)
        ensures
            final(self)@ == put_u32_field(old(self)@, XFER_SIZE_OFFSET, value),
    {
        self.put_u32(XFER_SIZE_OFFSET, value);
    }

    fn set_op_u32(&mut self, offset: usize, value: u32)
        requires
            offset + 4 <= 24,
        ensures
            final(self)@ == put_u32_field(old(self)@, (OP_SPECIFIC_OFFSET + offset) as usize, value),
    {
        self.put_u32(OP_SPECIFIC_OFFSET + offset, value);
    }

    fn set_op_u64(&mut self, offset: usize, value: u64)
        requires
            offset + 8 <= 24,
        ensures
            final(self)@ == put_u64_field(old(self)@, (OP_SPECIFIC_OFFSET + offset) as usize, value),
    {
        self.put_u64(OP_SPECIFIC_OFFSET + offset, value);
    }

    /// Points the descriptor at the completion record at `completion_addr`.
    pub fn set_completion(&mut self, completion_addr: u64)
        ensures
            final(self)@ == put_u64_field(old(self)@, COMPLETION_ADDR_OFFSET, completion_addr),
    {
        self.put_u64(COMPLETION_ADDR_OFFSET, completion_addr);
    }

    pub fn fill_noop(&mut self)
        ensures
            final(self)@ == noop_image(),
    {
        self.prepare(DSA_OPCODE_NOOP, completion_flags());
    }

    /// A drain descriptor with the given flags.
    pub fn fill_drain(&mut self, flags: u32)
        ensures
            final(self)@ == drain_image(flags),
    {
        self.prepare(DSA_OPCODE_DRAIN, flags);
    }

    pub fn fill_memmove(&mut self, src: u64, dst: u64, size: u32)
        ensures
            final(self)@ == memmove_image(src, dst, size),
    {
        self.prepare(DSA_OPCODE_MEMMOVE, completion_flags());
        self.set_src_addr(src);
        self.set_dst_addr(dst);
        self.set_xfer_size(size);
    }

    pub fn fill_crc_gen(&mut self, src: u64, size: u32, crc_seed: u32)
        ensures
            final(self)@ == crc_gen_image(src, size, crc_seed),
    {
        self.prepare(DSA_OPCODE_CRCGEN, completion_flags_no_cache_control());
        self.set_src_addr(src);
        self.set_xfer_size(size);
        self.set_op_u32(0, crc_seed);
        self.set_op_u64(8, 0);
    }

    pub fn fill_copy_crc(&mut self, src: u64, dst: u64, size: u32, crc_seed: u32)
        ensures
            final(self)@ == copy_crc_image(src, dst, size, crc_seed),
    {
        self.prepare(DSA_OPCODE_COPY_CRC, completion_flags_no_cache_control());
        self.set_src_addr(src);
        self.set_dst_addr(dst);
        self.set_xfer_size(size);
        self.set_op_u32(0, crc_seed);
        self.set_op_u64(8, 0);
    }

    /// A batch descriptor over `desc_count` descriptors at `desc_list_addr`.
    pub fn fill_batch(&mut self, desc_list_addr: u64, desc_count: u32)
        ensures
            final(self)@ == batch_image(desc_list_addr, desc_count),
    {
        self.prepare(DSA_OPCODE_BATCH, completion_flags());
        self.set_src_addr(desc_list_addr);
        self.set_xfer_size(desc_count);
    }

    pub fn opcode(&self) -> (op: u8)
        ensures
            op == spec_opcode(self@),
    {
        self.bytes[7]
    }

    pub fn flags(&self) -> (f: u32)
        ensures
            f == spec_flags(self@),
    {
        self.get_u32(HEADER_OFFSET) & 0x00ff_ffff
    }

    pub fn completion_addr(&self) -> (a: u64)
        ensures
            a == desc_fields(self@).completion_addr,
    {
        self.get_u64(COMPLETION_ADDR_OFFSET)
    }

    pub fn src_addr(&self) -> (a: u64)
        ensures
            a == desc_fields(self@).src_addr,
    {
        self.get_u64(SRC_ADDR_OFFSET)
    }

    pub fn dst_addr(&self) -> (a: u64)
        ensures
            a == desc_fields(self@).dst_addr,
    {
        self.get_u64(DST_ADDR_OFFSET)
    }

    pub fn xfer_size(&self) -> (n: u32)
        ensures
            n == desc_fields(self@).xfer_size,
    {
        self.get_u32(XFER_SIZE_OFFSET)
    }
}

impl DsaCompletionRecord {
    pub fn status(&self) -> (s: u8)
        ensures
            s == self@[0],
    {
        self.bytes[0]
    }

    pub fn fault_addr(&self) -> (a: u64)
        ensures
            a == read_u64(self@, FAULT_ADDR_OFFSET as int),
    {
        load_u64(&self.bytes, FAULT_ADDR_OFFSET)
    }
}

/// Clears a completion record for reuse.
pub fn reset_completion(comp: &mut DsaCompletionRecord)
    ensures
        final(comp)@ == zeros(32),
{
    *comp = DsaCompletionRecord::default();
}

/// A memmove descriptor reads back the opcode, flags, addresses and size
/// it was filled with, and no completion address.
pub proof fn law_memmove_fields(src: u64, dst: u64, size: u32)
    ensures
        memmove_image(src, dst, size).len() == 64,
        desc_fields(memmove_image(src, dst, size)) == (DescFields {
            opcode: DSA_OPCODE_MEMMOVE,
            flags: spec_completion_flags(),
            completion_addr: 0,
            src_addr: src,
            dst_addr: dst,
            xfer_size: size,
        }),
{
    assert(0x010cu32 & 0x00ff_ffff == 0x010c) by (bit_vector);
    assert(IDXD_OP_FLAG_RCR | IDXD_OP_FLAG_CRAV | IDXD_OP_FLAG_CC == 0x010c) by (bit_vector);
    let b0 = prepared_image(DSA_OPCODE_MEMMOVE, spec_completion_flags());
    lemma_header_fields(DSA_OPCODE_MEMMOVE, spec_completion_flags());
    let b1 = put_u64_field(b0, SRC_ADDR_OFFSET, src);
    lemma_put_u64_fields(b0, SRC_ADDR_OFFSET, src);
    let b2 = put_u64_field(b1, DST_ADDR_OFFSET, dst);
    lemma_put_u64_fields(b1, DST_ADDR_OFFSET, dst);
    lemma_put_u32_fields(b2, XFER_SIZE_OFFSET, size);
}

/// A CRC-generation descriptor reads back its opcode, the flags without
/// cache control, its source and its size.
pub proof fn law_crc_gen_fields(src: u64, size: u32, crc_seed: u32)
    ensures
        crc_gen_image(src, size, crc_seed).len() == 64,
        desc_fields(crc_gen_image(src, size, crc_seed)) == (DescFields {
            opcode: DSA_OPCODE_CRCGEN,
            flags: spec_completion_flags_no_cache_control(),
            completion_addr: 0,
            src_addr: src,
            dst_addr: 0,
            xfer_size: size,
        }),
{
    assert(0x000cu32 & 0x00ff_ffff == 0x000c) by (bit_vector);
    assert(IDXD_OP_FLAG_RCR | IDXD_OP_FLAG_CRAV == 0x000c) by (bit_vector);
    let b0 = prepared_image(DSA_OPCODE_CRCGEN, spec_completion_flags_no_cache_control());
    lemma_header_fields(DSA_OPCODE_CRCGEN, spec_completion_flags_no_cache_control());
    let b1 = put_u64_field(b0, SRC_ADDR_OFFSET, src);
    lemma_put_u64_fields(b0, SRC_ADDR_OFFSET, src);
    let b2 = put_u32_field(b1, XFER_SIZE_OFFSET, size);
    lemma_put_u32_fields(b1, XFER_SIZE_OFFSET, size);
    let b3 = put_u32_field(b2, OP_SPECIFIC_OFFSET, crc_seed);
    lemma_put_u32_fields(b2, OP_SPECIFIC_OFFSET, crc_seed);
    lemma_put_u64_fields(b3, (OP_SPECIFIC_OFFSET + 8) as usize, 0);
}

/// A copy-with-CRC descriptor reads back its opcode, the flags without
/// cache control, its source, destination and size.
pub proof fn law_copy_crc_fields(src: u64, dst: u64, size: u32, crc_seed: u32)
    ensures
        copy_crc_image(src, dst, size, crc_seed).len() == 64,
        desc_fields(copy_crc_image(src, dst, size, crc_seed)) == (DescFields {
            opcode: DSA_OPCODE_COPY_CRC,
            flags: spec_completion_flags_no_cache_control(),
            completion_addr: 0,
            src_addr: src,
            dst_addr: dst,
            xfer_size: size,
        }),
{
    assert(0x000cu32 & 0x00ff_ffff == 0x000c) by (bit_vector);
    assert(IDXD_OP_FLAG_RCR | IDXD_OP_FLAG_CRAV == 0x000c) by (bit_vector);
    let b0 = prepared_image(DSA_OPCODE_COPY_CRC, spec_completion_flags_no_cache_control());
    lemma_header_fields(DSA_OPCODE_COPY_CRC, spec_completion_flags_no_cache_control());
    let b1 = put_u64_field(b0, SRC_ADDR_OFFSET, src);
    lemma_put_u64_fields(b0, SRC_ADDR_OFFSET, src);
    let b2 = put_u64_field(b1, DST_ADDR_OFFSET, dst);
    lemma_put_u64_fields(b1, DST_ADDR_OFFSET, dst);
    let b3 = put_u32_field(b2, XFER_SIZE_OFFSET, size);
    lemma_put_u32_fields(b2, XFER_SIZE_OFFSET, size);
    let b4 = put_u32_field(b3, OP_SPECIFIC_OFFSET, crc_seed);
    lemma_put_u32_fields(b3, OP_SPECIFIC_OFFSET, crc_seed);
    lemma_put_u64_fields(b4, (OP_SPECIFIC_OFFSET + 8) as usize, 0);
}

/// A batch descriptor reads back its opcode, flags, list address and count.
pub proof fn law_batch_fields(desc_list_addr: u64, desc_count: u32)
    ensures
        batch_image(desc_list_addr, desc_count).len() == 64,
        desc_fields(batch_image(desc_list_addr, desc_count)) == (DescFields {
            opcode: DSA_OPCODE_BATCH,
            flags: spec_completion_flags(),
            completion_addr: 0,
            src_addr: desc_list_addr,
            dst_addr: 0,
            xfer_size: desc_count,
        }),
{
    assert(0x010cu32 & 0x00ff_ffff == 0x010c) by (bit_vector);
    assert(IDXD_OP_FLAG_RCR | IDXD_OP_FLAG_CRAV | IDXD_OP_FLAG_CC == 0x010c) by (bit_vector);
    let b0 = prepared_image(DSA_OPCODE_BATCH, spec_completion_flags());
    lemma_header_fields(DSA_OPCODE_BATCH, spec_completion_flags());
    let b1 = put_u64_field(b0, SRC_ADDR_OFFSET, desc_list_addr);
    lemma_put_u64_fields(b0, SRC_ADDR_OFFSET, desc_list_addr);
    lemma_put_u32_fields(b1, XFER_SIZE_OFFSET, desc_count);
}

/// No-op and drain descriptors carry their opcode and flags and nothing else.
pub proof fn law_noop_and_drain_fields(flags: u32)
    ensures
        desc_fields(noop_image()) == (DescFields {
            opcode: DSA_OPCODE_NOOP,
            flags: spec_completion_flags(),
            completion_addr: 0,
            src_addr: 0,
            dst_addr: 0,
            xfer_size: 0,
        }),
        desc_fields(drain_image(flags)) == (DescFields {
            opcode: DSA_OPCODE_DRAIN,
            flags: flags & 0x00ff_ffff,
            completion_addr: 0,
            src_addr: 0,
            dst_addr: 0,
            xfer_size: 0,
        }),
{
    assert(0x010cu32 & 0x00ff_ffff == 0x010c) by (bit_vector);
    assert(IDXD_OP_FLAG_RCR | IDXD_OP_FLAG_CRAV | IDXD_OP_FLAG_CC == 0x010c) by (bit_vector);
    lemma_header_fields(DSA_OPCODE_NOOP, spec_completion_flags());
    lemma_header_fields(DSA_OPCODE_DRAIN, flags);
}

/// Setting the completion address changes that field and no other.
pub proof fn law_set_completion_fields(before: Seq<u8>, completion_addr: u64)
    requires
        before.len() == 64,
    ensures
        desc_fields(put_u64_field(before, COMPLETION_ADDR_OFFSET, completion_addr)) == (DescFields {
            completion_addr,
            ..desc_fields(before)
        }),
{
    lemma_put_u64_fields(before, COMPLETION_ADDR_OFFSET, completion_addr);
}

/// A reset completion record reads as not yet completed.
pub proof fn law_reset_reads_none()
    ensures
        zeros(32)[0] == DSA_COMP_NONE,
        spec_status_mask(zeros(32)[0]) == DSA_COMP_NONE,
{
    assert(0u8 & 0x7f == 0) by (bit_vector);
}

} // verus!
