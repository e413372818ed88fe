use vstd::prelude::*;

use crate::config::types::SlotHeader;

verus! {

/// Reflected CRC-32 (IEEE 802.3) polynomial.
pub const CRC32_POLY_REVERSED: u32 = 0xEDB8_8320;

// ---------------------------------------------------------------------------
// Little-endian field encodings
// ---------------------------------------------------------------------------

pub open spec fn le_u16_bytes(x: u16) -> Seq<u8> {
    seq![(x & 0xff) as u8, ((x >> 8u16) & 0xff) as u8]
}

pub open spec fn le_u32_bytes(x: u32) -> Seq<u8> {
    seq![
        (x & 0xff) as u8,
        ((x >> 8u32) & 0xff) as u8,
        ((x >> 16u32) & 0xff) as u8,
        ((x >> 24u32) & 0xff) as u8,
    ]
}

pub open spec fn le_u16_value(b0: u8, b1: u8) -> u16 {
    (b0 as u16) | ((b1 as u16) << 8u16)
}

pub open spec fn le_u32_value(b0: u8, b1: u8, b2: u8, b3: u8) -> u32 {
    (b0 as u32) | ((b1 as u32) << 8u32) | ((b2 as u32) << 16u32) | ((b3 as u32) << 24u32)
}

/// The 28 bytes of an encoded slot header, every field little-endian, in
/// declaration order.
pub open spec fn slot_header_bytes(h: SlotHeader) -> Seq<u8> {
    le_u32_bytes(h.magic) + le_u16_bytes(h.storage_version) + le_u16_bytes(h.config_version)
        + le_u32_bytes(h.payload_len) + le_u32_bytes(h.sequence) + le_u32_bytes(h.payload_crc32)
        + le_u32_bytes(h.header_crc32) + le_u32_bytes(h.flags)
}

/// The header read back from 28 encoded bytes.
pub open spec fn slot_header_from_bytes(b: Seq<u8>) -> SlotHeader {
    SlotHeader {
        magic: le_u32_value(b[0], b[1], b[2], b[3]),
        storage_version: le_u16_value(b[4], b[5]),
        config_version: le_u16_value(b[6], b[7]),
        payload_len: le_u32_value(b[8], b[9], b[10], b[11]),
        sequence: le_u32_value(b[12], b[13], b[14], b[15]),
        payload_crc32: le_u32_value(b[16], b[17], b[18], b[19]),
        header_crc32: le_u32_value(b[20], b[21], b[22], b[23]),
        flags: le_u32_value(b[24], b[25], b[26], b[27]),
    }
}

// ---------------------------------------------------------------------------
// CRC-32 model
// ---------------------------------------------------------------------------

/// One bit of the reflected CRC shift register.
pub open spec fn crc_bit_step(c: u32) -> u32 {
    if c & 1 == 1 {
        (c >> 1u32) ^ CRC32_POLY_REVERSED
    } else {
        c >> 1u32
    }
}

/// `k` bit steps applied to `c`.
pub open spec fn crc_bit_steps(c: u32, k: nat) -> u32
    decreases k,
{
    if k == 0 {
        c
    } else {
        crc_bit_step(crc_bit_steps(c, (k - 1) as nat))
    }
}

/// Register after feeding one byte.
pub open spec fn crc_byte_step(c: u32, b: u8) -> u32 {
    crc_bit_steps(c ^ (b as u32), 8)
}

/// Register after feeding all of `bytes`, starting from all ones.
pub open spec fn crc_register(bytes: Seq<u8>) -> u32
    decreases bytes.len(),
{
    if bytes.len() == 0 {
        0xFFFF_FFFFu32
    } else {
        crc_byte_step(crc_register(bytes.drop_last()), bytes.last())
    }
}

/// CRC-32 of a byte sequence: the final register, inverted.
pub open spec fn spec_crc32(bytes: Seq<u8>) -> u32 {
    !crc_register(bytes)
}

/// The header with its own CRC field set to zero.
pub open spec fn header_without_crc(h: SlotHeader) -> SlotHeader {
    SlotHeader { header_crc32: 0, ..h }
}

/// CRC-32 over the encoding of the header whose own CRC field is zero.
pub open spec fn spec_header_crc32(h: SlotHeader) -> u32 {
    spec_crc32(slot_header_bytes(header_without_crc(h)))
}

/// The header with its CRC field filled in.
pub open spec fn spec_sealed(h: SlotHeader) -> SlotHeader {
    SlotHeader { header_crc32: spec_header_crc32(h), ..h }
}

// ---------------------------------------------------------------------------
// Executable code
// ---------------------------------------------------------------------------

fn write_le_u32(out: &mut [u8; 28], at: usize, x: u32)
    requires
        at + 4 <= 28,
    ensures
        final(out)@ == old(out)@.update(at as int, le_u32_bytes(x)[0]).update(
            at + 1,
            le_u32_bytes(x)[1],
        ).update(at + 2, le_u32_bytes(x)[2]).update(at + 3, le_u32_bytes(x)[3]),
{
    out[at] = (x & 0xff) as u8;
    out[at + 1] = ((x >> 8u32) & 0xff) as u8;
    out[at + 2] = ((x >> 16u32) & 0xff) as u8;
    out[at + 3] = ((x >> 24u32) & 0xff) as u8;
}

fn write_le_u16(out: &mut [u8; 28], at: usize, x: u16)
    requires
        at + 2 <= 28,
    ensures
        final(out)@ == old(out)@.update(at as int, le_u16_bytes(x)[0]).update(
            at + 1,
            le_u16_bytes(x)[1],
        ),
{
    out[at] = (x & 0xff) as u8;
    out[at + 1] = ((x >> 8u16) & 0xff) as u8;
}

/// Writes the little-endian encoding of `header` into `out`.
pub fn slot_header_encode(header: SlotHeader, out: &mut [u8; 28])
    ensures
        final(out)@ == slot_header_bytes(header),
{
    write_le_u32(out, 0, header.magic);
    write_le_u16(out, 4, header.storage_version);
    write_le_u16(out, 6, header.config_version);
    write_le_u32(out, 8, header.payload_len);
    write_le_u32(out, 12, header.sequence);
    write_le_u32(out, 16, header.payload_crc32);
    write_le_u32(out, 20, header.header_crc32);
    write_le_u32(out, 24, header.flags);
    assert(out@ =~= slot_header_bytes(header));
}

fn read_le_u32(b0: u8, b1: u8, b2: u8, b3: u8) -> (r: u32)
    ensures
        r == le_u32_value(b0, b1, b2, b3),
{
    (b0 as u32) | ((b1 as u32) << 8u32) | ((b2 as u32) << 16u32) | ((b3 as u32) << 24u32)
}

fn read_le_u16(b0: u8, b1: u8) -> (r: u16)
    ensures
        r == le_u16_value(b0, b1),
{
    (b0 as u16) | ((b1 as u16) << 8u16)
}

/// Reads a slot header from its 28-byte little-endian encoding.
pub fn slot_header_decode(bytes: &[u8; 28]) -> (h: SlotHeader)
    ensures
        h == slot_header_from_bytes(bytes@),
{
    SlotHeader {
        magic: read_le_u32(bytes[0], bytes[1], bytes[2], bytes[3]),
        storage_version: read_le_u16(bytes[4], bytes[5]),
        config_version: read_le_u16(bytes[6], bytes[7]),
        payload_len: read_le_u32(bytes[8], bytes[9], bytes[10], bytes[11]),
        sequence: read_le_u32(bytes[12], bytes[13], bytes[14], bytes[15]),
        payload_crc32: read_le_u32(bytes[16], bytes[17], bytes[18], bytes[19]),
        header_crc32: read_le_u32(bytes[20], bytes[21], bytes[22], bytes[23]),
        flags: read_le_u32(bytes[24], bytes[25], bytes[26], bytes[27]),
    }
}

/// CRC-32 (reflected, polynomial 0xEDB88320, initial value and final xor all
/// ones) of `bytes`.
pub fn crc32(bytes: &[u8]) -> (crc: u32)
    ensures
        crc == spec_crc32(bytes@),
{
    let mut crc: u32 = 0xFFFF_FFFF;
    let mut i: usize = 0;
    while i < bytes.len()
        invariant
            i <= bytes@.len(),
            crc == crc_register(bytes@.subrange(0, i as int)),
        decreases bytes@.len() - i,
    {
        let byte = bytes[i];
        let start: u32 = crc ^ (byte as u32);
        crc = start;
        let mut k: u32 = 0;
        while k < 8
            invariant
                k <= 8,
                crc == crc_bit_steps(start, k as nat),
            decreases 8 - k,
        {
            if crc & 1 == 1 {
                crc = (crc >> 1u32) ^ CRC32_POLY_REVERSED;
            } else {
                crc = crc >> 1u32;
            }
            k = k + 1;
        }
        proof {
            let prefix = bytes@.subrange(0, i + 1);
            assert(prefix.drop_last() =~= bytes@.subrange(0, i as int));
            assert(prefix.last() == byte);
        }
        i = i + 1;
    }
    proof {
        assert(bytes@.subrange(0, bytes@.len() as int) =~= bytes@);
    }
    !crc
}

/// CRC-32 of the header's encoding with its own CRC field zeroed.
pub fn compute_header_crc32(header: SlotHeader) -> (crc: u32)
    ensures
        crc == spec_header_crc32(header),
{
    let mut bytes = [0u8; 28];
    let mut header_no_crc = header;
    header_no_crc.header_crc32 = 0;
    slot_header_encode(header_no_crc, &mut bytes);
    crc32(&bytes)
}

/// Returns `header` with `header_crc32` filled in.
pub fn seal_header(header: SlotHeader) -> (sealed: SlotHeader)
    ensures
        sealed == spec_sealed(header),
{
    let mut h = header;
    h.header_crc32 = 0;
    h.header_crc32 = compute_header_crc32(h);
    h
}

// ---------------------------------------------------------------------------
// Laws
// ---------------------------------------------------------------------------

proof fn lemma_u32_roundtrip(x: u32)
    ensures
        le_u32_value(
            le_u32_bytes(x)[0],
            le_u32_bytes(x)[1],
            le_u32_bytes(x)[2],
            le_u32_bytes(x)[3],
        ) == x,
{
    let b0 = (x & 0xff) as u8;
    let b1 = ((x >> 8u32) & 0xff) as u8;
    let b2 = ((x >> 16u32) & 0xff) as u8;
    let b3 = ((x >> 24u32) & 0xff) as u8;
    assert((b0 as u32) | ((b1 as u32) << 8u32) | ((b2 as u32) << 16u32) | ((b3 as u32) << 24u32)
        == x) by (bit_vector)
        requires
            b0 == (x & 0xff) as u8,
            b1 == ((x >> 8u32) & 0xff) as u8,
            b2 == ((x >> 16u32) & 0xff) as u8,
            b3 == ((x >> 24u32) & 0xff) as u8,
    ;
}

proof fn lemma_u16_roundtrip(x: u16)
    ensures
        le_u16_value(le_u16_bytes(x)[0], le_u16_bytes(x)[1]) == x,
{
    let b0 = (x & 0xff) as u8;
    let b1 = ((x >> 8u16) & 0xff) as u8;
    assert((b0 as u16) | ((b1 as u16) << 8u16) == x) by (bit_vector)
        requires
            b0 == (x & 0xff) as u8,
            b1 == ((x >> 8u16) & 0xff) as u8,
    ;
}

/// Decoding the encoding of a header gives the header back.
pub proof fn lemma_slot_header_roundtrip(h: SlotHeader)
    ensures
        slot_header_bytes(h).len() == 28,
        slot_header_from_bytes(slot_header_bytes(h)) == h,
{
    lemma_u32_roundtrip(h.magic);
    lemma_u16_roundtrip(h.storage_version);
    lemma_u16_roundtrip(h.config_version);
    lemma_u32_roundtrip(h.payload_len);
    lemma_u32_roundtrip(h.sequence);
    lemma_u32_roundtrip(h.payload_crc32);
    lemma_u32_roundtrip(h.header_crc32);
    lemma_u32_roundtrip(h.flags);
}

/// A sealed header carries the CRC of its own encoding: checking it again
/// succeeds.
pub proof fn lemma_seal_self_consistent(h: SlotHeader)
    ensures
        spec_header_crc32(spec_sealed(h)) == spec_sealed(h).header_crc32,
{
    assert(header_without_crc(spec_sealed(h)) == header_without_crc(h));
}

/// The header CRC does not depend on the value stored in the CRC field.
pub proof fn lemma_header_crc_ignores_crc_field(h: SlotHeader, crc: u32)
    ensures
        spec_header_crc32(SlotHeader { header_crc32: crc, ..h }) == spec_header_crc32(h),
{
    assert(header_without_crc(SlotHeader { header_crc32: crc, ..h }) == header_without_crc(h));
}

} // verus!
