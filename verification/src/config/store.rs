use vstd::prelude::*;

use crate::config::flash_region::FlashRegionInfo;
use crate::config::load::{
    spec_other_index, spec_validate_slot_data, spec_validate_slot_header, ActiveSlot, CheckedSlot,
};
use crate::config::storage::{
    crc32, lemma_seal_self_consistent, lemma_slot_header_roundtrip, seal_header,
    slot_header_bytes, slot_header_encode, slot_header_from_bytes, spec_crc32, spec_sealed,
};
use crate::config::types::{
    ConfigError, SlotHeader, CURRENT_CONFIG_VERSION, CURRENT_STORAGE_VERSION, MAX_PAYLOAD_SIZE,
    SLOT_A_INDEX, SLOT_BUF_SIZE, SLOT_FLAGS_NONE, SLOT_MAGIC,
};

verus! {

/// Where and how the next save goes.
#[derive(Clone, Copy, Debug, PartialEq, Eq, Structural)]
pub struct SavePlan {
    /// The slot written, which becomes the active one.
    pub target: ActiveSlot,
    /// Its flash address.
    pub offset: u32,
    /// The sealed header written in front of the payload.
    pub header: SlotHeader,
}

/// The header a save writes.
pub open spec fn spec_save_header(next_sequence: u32, payload_len: u32, payload_crc32: u32) -> SlotHeader {
    spec_sealed(
        SlotHeader {
            magic: SLOT_MAGIC,
            storage_version: CURRENT_STORAGE_VERSION,
            config_version: CURRENT_CONFIG_VERSION,
            payload_len,
            sequence: next_sequence,
            payload_crc32,
            header_crc32: 0,
            flags: SLOT_FLAGS_NONE,
        },
    )
}

/// The slot a save writes: the inactive one, or slot A when none is active.
pub open spec fn spec_target_index(active_slot: Option<ActiveSlot>) -> usize {
    match active_slot {
        Some(s) => spec_other_index(s),
        None => SLOT_A_INDEX,
    }
}

/// Plans a save: picks the slot that is not in use and seals the header.
pub fn plan_save(
    flash: FlashRegionInfo,
    slot_size: u32,
    active_slot: Option<ActiveSlot>,
    next_sequence: u32,
    payload_len: u32,
    payload_crc32: u32,
) -> (r: Result<SavePlan, ConfigError>)
    requires
        flash.offset + slot_size * spec_target_index(active_slot) <= u32::MAX,
    ensures
        r matches Ok(p) && p.target == (if spec_target_index(active_slot) == SLOT_A_INDEX {
            ActiveSlot::A
        } else {
            ActiveSlot::B
        }) && p.offset == flash.offset + slot_size * spec_target_index(active_slot) && p.header
            == spec_save_header(next_sequence, payload_len, payload_crc32),
{
    let target_index = match active_slot {
        Some(s) => s.inactive_index(),
        None => SLOT_A_INDEX,
    };
    let target = match ActiveSlot::from_index(target_index) {
        Some(t) => t,
        None => {
            return Err(ConfigError::InvalidFlashRegion);
        },
    };
    let offset = match flash.slot_offset(slot_size, target_index) {
        Ok(o) => o,
        Err(e) => {
            return Err(e);
        },
    };
    let header = seal_header(
        SlotHeader {
            magic: SLOT_MAGIC,
            storage_version: CURRENT_STORAGE_VERSION,
            config_version: CURRENT_CONFIG_VERSION,
            payload_len,
            sequence: next_sequence,
            payload_crc32,
            header_crc32: 0,
            flags: SLOT_FLAGS_NONE,
        },
    );
    Ok(SavePlan { target, offset, header })
}

/// The first `slot_len` bytes of a slot image: erased flash (all ones) with
/// the encoded header and then the payload written over it.
pub open spec fn spec_slot_image(
    old_buf: Seq<u8>,
    header: SlotHeader,
    payload: Seq<u8>,
    slot_len: int,
) -> Seq<u8> {
    Seq::new(
        4096,
        |i: int|
            if i < 28 {
                slot_header_bytes(header)[i]
            } else if i < 28 + payload.len() {
                payload[i - 28]
            } else if i < slot_len {
                0xFFu8
            } else {
                old_buf[i]
            },
    )
}

/// Lays out a slot in `slot_buf`: erases its first `slot_size` bytes to all
/// ones, then writes the encoded header and the payload.
pub fn build_slot_image(
    header: SlotHeader,
    payload: &[u8],
    slot_size: u32,
    slot_buf: &mut [u8; 4096],
)
    requires
        slot_size <= SLOT_BUF_SIZE,
        payload@.len() <= MAX_PAYLOAD_SIZE,
    ensures
        final(slot_buf)@ == spec_slot_image(old(slot_buf)@, header, payload@, slot_size as int),
{
    let ghost start = slot_buf@;
    let slot_len = slot_size as usize;
    let mut k: usize = 0;
    while k < slot_len
        invariant
            0 <= k <= slot_len <= 4096,
            forall|i: int| 0 <= i < k ==> slot_buf@[i] == 0xFF,
            forall|i: int| k <= i < 4096 ==> slot_buf@[i] == start[i],
        decreases slot_len - k,
    {
        slot_buf[k] = 0xFF;
        k = k + 1;
    }
    let mut header_bytes = [0u8; 28];
    slot_header_encode(header, &mut header_bytes);
    proof {
        lemma_slot_header_roundtrip(header);
    }
    let mut h: usize = 0;
    while h < 28
        invariant
            0 <= h <= 28,
            slot_len <= 4096,
            header_bytes@ == slot_header_bytes(header),
            slot_header_bytes(header).len() == 28,
            forall|i: int| 0 <= i < h ==> slot_buf@[i] == slot_header_bytes(header)[i],
            forall|i: int| h <= i < slot_len ==> slot_buf@[i] == 0xFF,
            forall|i: int| slot_len <= i < 4096 && i >= h ==> slot_buf@[i] == start[i],
        decreases 28 - h,
    {
        slot_buf[h] = header_bytes[h];
        h = h + 1;
    }
    let mut p: usize = 0;
    while p < payload.len()
        invariant
            0 <= p <= payload@.len() <= MAX_PAYLOAD_SIZE,
            slot_len <= 4096,
            slot_header_bytes(header).len() == 28,
            forall|i: int| 0 <= i < 28 ==> slot_buf@[i] == slot_header_bytes(header)[i],
            forall|i: int| 0 <= i < p ==> slot_buf@[28 + i] == payload@[i],
            forall|i: int| 28 + p <= i < slot_len ==> slot_buf@[i] == 0xFF,
            forall|i: int| slot_len <= i < 4096 && i >= 28 + p ==> slot_buf@[i] == start[i],
        decreases payload@.len() - p,
    {
        slot_buf[28 + p] = payload[p];
        p = p + 1;
    }
    assert(slot_buf@ =~= spec_slot_image(start, header, payload@, slot_size as int));
}

/// Compares what was read back from flash with what was written: the header
/// bytes exactly, the payload by its CRC-32.
pub open spec fn spec_readback_ok(
    buf: Seq<u8>,
    header: SlotHeader,
    payload_len: int,
    payload_crc32: u32,
) -> bool {
    &&& buf.subrange(0, 28) == slot_header_bytes(header)
    &&& spec_crc32(buf.subrange(28, 28 + payload_len)) == payload_crc32
}

pub fn verify_readback(
    slot_buf: &[u8; 4096],
    header: SlotHeader,
    payload_len: usize,
    payload_crc32: u32,
) -> (r: Result<(), ConfigError>)
    requires
        payload_len <= MAX_PAYLOAD_SIZE,
    ensures
        r is Ok == spec_readback_ok(slot_buf@, header, payload_len as int, payload_crc32),
        r is Err ==> r == Err::<(), ConfigError>(ConfigError::ReadbackVerifyFailed),
{
    let mut header_bytes = [0u8; 28];
    slot_header_encode(header, &mut header_bytes);
    let mut k: usize = 0;
    while k < 28
        invariant
            0 <= k <= 28,
            header_bytes@ == slot_header_bytes(header),
            forall|i: int| 0 <= i < k ==> slot_buf@[i] == header_bytes@[i],
        decreases 28 - k,
    {
        if slot_buf[k] != header_bytes[k] {
            proof {
                assert(slot_buf@.subrange(0, 28)[k as int] != slot_header_bytes(header)[k as int]);
            }
            return Err(ConfigError::ReadbackVerifyFailed);
        }
        k = k + 1;
    }
    assert(slot_buf@.subrange(0, 28) =~= slot_header_bytes(header));
    let payload = &slot_buf.as_slice()[28..28 + payload_len];
    if crc32(payload) != payload_crc32 {
        return Err(ConfigError::ReadbackVerifyFailed);
    }
    Ok(())
}

/// What a save writes is what a load accepts: a slot image built from the
/// planned header, a non-empty payload that fits the slot, and the payload's
/// CRC-32 passes every load check and yields the header that was written.
pub proof fn lemma_saved_slot_loads(
    old_buf: Seq<u8>,
    next_sequence: u32,
    payload: Seq<u8>,
    slot_size: u32,
    slot_index: usize,
)
    requires
        old_buf.len() == 4096,
        28 <= slot_size <= SLOT_BUF_SIZE,
        0 < payload.len(),
        28 + payload.len() <= slot_size,
    ensures
        ({
            let header = spec_save_header(next_sequence, payload.len() as u32, spec_crc32(payload));
            let image = spec_slot_image(old_buf, header, payload, slot_size as int);
            &&& spec_validate_slot_data(image, slot_size, slot_index) == Ok::<
                CheckedSlot,
                ConfigError,
            >(CheckedSlot { index: slot_index, header })
            &&& spec_readback_ok(image, header, payload.len() as int, spec_crc32(payload))
        }),
{
    let header = spec_save_header(next_sequence, payload.len() as u32, spec_crc32(payload));
    let image = spec_slot_image(old_buf, header, payload, slot_size as int);
    lemma_slot_header_roundtrip(header);
    let raw = SlotHeader {
        magic: SLOT_MAGIC,
        storage_version: CURRENT_STORAGE_VERSION,
        config_version: CURRENT_CONFIG_VERSION,
        payload_len: payload.len() as u32,
        sequence: next_sequence,
        payload_crc32: spec_crc32(payload),
        header_crc32: 0,
        flags: SLOT_FLAGS_NONE,
    };
    lemma_seal_self_consistent(raw);
    assert(image.subrange(0, 28) =~= slot_header_bytes(header));
    assert(image.subrange(28, 28 + payload.len() as int) =~= payload);
    assert(slot_header_from_bytes(image.subrange(0, 28)) == header);
    // The first header byte is the low byte of the magic, which is not 0xFF.
    assert((SLOT_MAGIC & 0xff) as u8 == 0x56u8) by (bit_vector);
    assert(image.subrange(0, 28)[0] == 0x56u8);
    assert(spec_validate_slot_header(header, slot_size) == Ok::<(), ConfigError>(()));
}

} // verus!
