use vstd::prelude::*;

use crate::config::storage::{
    compute_header_crc32, crc32, slot_header_decode, slot_header_from_bytes, spec_crc32,
    spec_header_crc32,
};
use crate::config::types::{
    ConfigError, SlotHeader, CURRENT_CONFIG_VERSION, CURRENT_STORAGE_VERSION, SLOT_A_INDEX,
    SLOT_BUF_SIZE, SLOT_B_INDEX, SLOT_MAGIC,
};

verus! {

/// Which of the two slots holds the configuration in use.
#[derive(Clone, Copy, Debug, PartialEq, Eq, Structural)]
pub enum ActiveSlot {
    A,
    B,
}

pub open spec fn spec_slot_index(s: ActiveSlot) -> usize {
    match s {
        ActiveSlot::A => SLOT_A_INDEX,
        ActiveSlot::B => SLOT_B_INDEX,
    }
}

pub open spec fn spec_other_index(s: ActiveSlot) -> usize {
    match s {
        ActiveSlot::A => SLOT_B_INDEX,
        ActiveSlot::B => SLOT_A_INDEX,
    }
}

impl ActiveSlot {
    pub fn from_index(index: usize) -> (s: Option<Self>)
        ensures
            index == SLOT_A_INDEX ==> s == Some(ActiveSlot::A),
            index == SLOT_B_INDEX ==> s == Some(ActiveSlot::B),
            index != SLOT_A_INDEX && index != SLOT_B_INDEX ==> s is None,
    {
        if index == SLOT_A_INDEX {
            Some(Self::A)
        } else if index == SLOT_B_INDEX {
            Some(Self::B)
        } else {
            None
        }
    }

    /// Index of the other slot: the one the next save goes to.
    pub fn inactive_index(self) -> (i: usize)
        ensures
            i == spec_other_index(self),
    {
        match self {
            Self::A => SLOT_B_INDEX,
            Self::B => SLOT_A_INDEX,
        }
    }
}

/// A slot that passed every check, with the configuration read from it.
#[derive(Clone, Copy, Debug, PartialEq)]
pub struct ValidSlot<C> {
    pub index: usize,
    pub header: SlotHeader,
    pub config: C,
    pub was_migrated: bool,
}

/// The configuration found in flash and where the next save goes.
#[derive(Clone, Copy, Debug, PartialEq)]
pub struct PersistedConfig<C> {
    pub active_slot: ActiveSlot,
    pub next_sequence: u32,
    pub config: C,
    pub was_migrated: bool,
}

/// A slot whose header and payload checksum are sound. Its payload is the
/// `header.payload_len` bytes after the header.
#[derive(Clone, Copy, Debug, PartialEq, Eq, Structural)]
pub struct CheckedSlot {
    pub index: usize,
    pub header: SlotHeader,
}

/// Payload bytes a slot of `slot_size` bytes leaves after its header.
pub open spec fn spec_payload_capacity(slot_size: u32) -> int {
    if slot_size >= 28 {
        slot_size - 28
    } else {
        0
    }
}

/// Header checks in the order they are made.
pub open spec fn spec_validate_slot_header(header: SlotHeader, slot_size: u32) -> Result<
    (),
    ConfigError,
> {
    if header.magic != SLOT_MAGIC {
        Err(ConfigError::InvalidMagic)
    } else if header.storage_version != CURRENT_STORAGE_VERSION {
        Err(ConfigError::UnsupportedStorageVersion)
    } else if header.payload_len == 0 {
        Err(ConfigError::InvalidPayloadLength)
    } else if header.payload_len > spec_payload_capacity(slot_size) {
        Err(ConfigError::InvalidPayloadLength)
    } else if spec_header_crc32(header) != header.header_crc32 {
        Err(ConfigError::HeaderCrcMismatch)
    } else {
        Ok(())
    }
}

pub fn validate_slot_header(header: SlotHeader, slot_size: u32) -> (r: Result<(), ConfigError>)
    ensures
        r == spec_validate_slot_header(header, slot_size),
{
    if header.magic != SLOT_MAGIC {
        return Err(ConfigError::InvalidMagic);
    }
    if header.storage_version != CURRENT_STORAGE_VERSION {
        return Err(ConfigError::UnsupportedStorageVersion);
    }
    if header.payload_len == 0 {
        return Err(ConfigError::InvalidPayloadLength);
    }
    let slot_payload_capacity = (slot_size as usize).saturating_sub(28);
    if header.payload_len as usize > slot_payload_capacity {
        return Err(ConfigError::InvalidPayloadLength);
    }
    if compute_header_crc32(header) != header.header_crc32 {
        return Err(ConfigError::HeaderCrcMismatch);
    }
    Ok(())
}

/// What stored payloads of configuration version `from_version` turn into:
/// the current version is read as it is; a newer one is refused; no older
/// version can be migrated yet.
pub open spec fn spec_migration(from_version: u16) -> Result<(), ConfigError> {
    if from_version == CURRENT_CONFIG_VERSION {
        Ok(())
    } else if from_version > CURRENT_CONFIG_VERSION {
        Err(ConfigError::UnsupportedConfigVersion)
    } else {
        Err(ConfigError::MigrationFailed)
    }
}

/// Decides how a payload of `from_version` is read. `Ok` means it is parsed
/// as the current configuration.
pub fn migrate_payload(from_version: u16) -> (r: Result<(), ConfigError>)
    ensures
        r == spec_migration(from_version),
{
    let current = CURRENT_CONFIG_VERSION;
    if from_version == current {
        return Ok(());
    }
    if from_version > current {
        return Err(ConfigError::UnsupportedConfigVersion);
    }
    Err(ConfigError::MigrationFailed)
}

pub open spec fn all_erased(b: Seq<u8>) -> bool {
    forall|i: int| 0 <= i < b.len() ==> b[i] == 0xFF
}

/// Checks of a slot image in the order they are made: erased header,
/// header fields, payload checksum, configuration version.
pub open spec fn spec_validate_slot_data(buf: Seq<u8>, slot_size: u32, slot_index: usize) -> Result<
    CheckedSlot,
    ConfigError,
> {
    let header_bytes = buf.subrange(0, 28);
    let header = slot_header_from_bytes(header_bytes);
    if all_erased(header_bytes) {
        Err(ConfigError::StorageEmpty)
    } else if spec_validate_slot_header(header, slot_size) is Err {
        Err(spec_validate_slot_header(header, slot_size)->Err_0)
    } else if spec_crc32(buf.subrange(28, 28 + header.payload_len)) != header.payload_crc32 {
        Err(ConfigError::PayloadCrcMismatch)
    } else if spec_migration(header.config_version) is Err {
        Err(spec_migration(header.config_version)->Err_0)
    } else {
        Ok(CheckedSlot { index: slot_index, header })
    }
}

/// Checks the first `slot_size` bytes of `slot_buf` as a stored slot. On
/// success the payload, still to be parsed, is
/// `slot_buf[28..28 + header.payload_len]`.
pub fn validate_slot_data(slot_buf: &[u8; 4096], slot_size: u32, slot_index: usize) -> (r: Result<
    CheckedSlot,
    ConfigError,
>)
    requires
        28 <= slot_size <= SLOT_BUF_SIZE,
    ensures
        r == spec_validate_slot_data(slot_buf@, slot_size, slot_index),
        r matches Ok(s) ==> 28 + s.header.payload_len <= slot_size,
{
    let mut header_bytes = [0u8; 28];
    let mut k: usize = 0;
    let mut erased = true;
    while k < 28
        invariant
            0 <= k <= 28,
            forall|i: int| 0 <= i < k ==> header_bytes@[i] == slot_buf@[i],
            erased == (forall|i: int| 0 <= i < k ==> slot_buf@[i] == 0xFF),
        decreases 28 - k,
    {
        header_bytes[k] = slot_buf[k];
        if slot_buf[k] != 0xFF {
            erased = false;
        }
        k = k + 1;
    }
    assert(header_bytes@ =~= slot_buf@.subrange(0, 28));
    if erased {
        return Err(ConfigError::StorageEmpty);
    }

    let header = slot_header_decode(&header_bytes);
    match validate_slot_header(header, slot_size) {
        Ok(()) => {},
        Err(e) => {
            return Err(e);
        },
    }

    let payload_len = header.payload_len as usize;
    let payload = &slot_buf.as_slice()[28..28 + payload_len];
    if crc32(payload) != header.payload_crc32 {
        return Err(ConfigError::PayloadCrcMismatch);
    }

    match migrate_payload(header.config_version) {
        Ok(()) => {},
        Err(e) => {
            return Err(e);
        },
    }

    Ok(CheckedSlot { index: slot_index, header })
}

/// The slot with the higher sequence number; on a tie, slot A.
pub open spec fn spec_pick<C>(a: Option<ValidSlot<C>>, b: Option<ValidSlot<C>>) -> Option<
    ValidSlot<C>,
> {
    match (a, b) {
        (Some(a), Some(b)) => if b.header.sequence > a.header.sequence {
            Some(b)
        } else {
            Some(a)
        },
        (Some(a), None) => Some(a),
        (None, Some(b)) => Some(b),
        (None, None) => None,
    }
}

pub fn pick_active_slot<C>(slot_a: Option<ValidSlot<C>>, slot_b: Option<ValidSlot<C>>) -> (r:
    Option<ValidSlot<C>>)
    ensures
        r == spec_pick(slot_a, slot_b),
{
    match (slot_a, slot_b) {
        (Some(a), Some(b)) => {
            if b.header.sequence > a.header.sequence {
                Some(b)
            } else {
                Some(a)
            }
        },
        (Some(a), None) => Some(a),
        (None, Some(b)) => Some(b),
        (None, None) => None,
    }
}

/// Chooses between the two slots read back. Fails with `StorageEmpty` when
/// neither is valid, and with `InvalidFlashRegion` when the chosen slot's
/// index names no slot.
pub fn select_persisted_config<C>(slot_a: Option<ValidSlot<C>>, slot_b: Option<ValidSlot<C>>) -> (r:
    Result<PersistedConfig<C>, ConfigError>)
    ensures
        spec_pick(slot_a, slot_b) is None ==> r == Err::<PersistedConfig<C>, ConfigError>(
            ConfigError::StorageEmpty,
        ),
        spec_pick(slot_a, slot_b) matches Some(s) ==> {
            if s.index == SLOT_A_INDEX || s.index == SLOT_B_INDEX {
                r == Ok::<PersistedConfig<C>, ConfigError>(
                    PersistedConfig {
                        active_slot: if s.index == SLOT_A_INDEX {
                            ActiveSlot::A
                        } else {
                            ActiveSlot::B
                        },
                        next_sequence: s.header.sequence.wrapping_add(1),
                        config: s.config,
                        was_migrated: s.was_migrated,
                    },
                )
            } else {
                r == Err::<PersistedConfig<C>, ConfigError>(ConfigError::InvalidFlashRegion)
            }
        },
{
    let selected = match pick_active_slot(slot_a, slot_b) {
        Some(s) => s,
        None => {
            return Err(ConfigError::StorageEmpty);
        },
    };
    let active_slot = match ActiveSlot::from_index(selected.index) {
        Some(s) => s,
        None => {
            return Err(ConfigError::InvalidFlashRegion);
        },
    };
    Ok(
        PersistedConfig {
            active_slot,
            next_sequence: selected.header.sequence.wrapping_add(1),
            config: selected.config,
            was_migrated: selected.was_migrated,
        },
    )
}

/// The newer of two valid slots wins; on equal sequence numbers slot A.
pub proof fn lemma_pick_prefers_newer<C>(a: ValidSlot<C>, b: ValidSlot<C>)
    ensures
        spec_pick(Some(a), Some(b)) == (if a.header.sequence >= b.header.sequence {
            Some(a)
        } else {
            Some(b)
        }),
{
}

} // verus!
