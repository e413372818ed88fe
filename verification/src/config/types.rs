use vstd::prelude::*;

verus! {

/// Version of the slot layout written by this firmware.
pub const CURRENT_STORAGE_VERSION: u16 = 1;

/// Version of the configuration payload written by this firmware.
pub const CURRENT_CONFIG_VERSION: u16 = 1;

/// Number of flash slots used for the double-buffered configuration.
pub const SLOT_COUNT: usize = 2;

pub const SLOT_A_INDEX: usize = 0;

pub const SLOT_B_INDEX: usize = 1;

/// Magic number that opens every valid slot header.
pub const SLOT_MAGIC: u32 = 0x4746_4356;

pub const SLOT_FLAGS_NONE: u32 = 0;

/// Size of the RAM buffer that holds one whole slot.
pub const SLOT_BUF_SIZE: usize = 4096;

/// Length in bytes of an encoded slot header.
pub const SLOT_HEADER_LEN: usize = 28;

/// Largest payload that fits in a slot next to its header.
pub const MAX_PAYLOAD_SIZE: usize = 4068;

/// Header stored at the start of each configuration slot.
#[derive(Clone, Copy, Debug, PartialEq, Eq, Structural)]
pub struct SlotHeader {
    pub magic: u32,
    pub storage_version: u16,
    pub config_version: u16,
    pub payload_len: u32,
    pub sequence: u32,
    pub payload_crc32: u32,
    pub header_crc32: u32,
    pub flags: u32,
}

impl SlotHeader {
    pub const ENCODED_LEN: usize = 28;
}

#[derive(Clone, Copy, Debug, PartialEq, Eq, Structural)]
pub enum ConfigError {
    EncodeFailed,
    PayloadTooLarge,
    StorageEmpty,
    DeserializeFailed,
    ValidationFailed,
    StorageUnavailable,
    InvalidFlashRegion,
    HeaderCrcMismatch,
    PayloadCrcMismatch,
    InvalidMagic,
    UnsupportedStorageVersion,
    UnsupportedConfigVersion,
    InvalidPayloadLength,
    FlashEraseFailed,
    FlashWriteFailed,
    ReadbackVerifyFailed,
    MigrationFailed,
    WriteSessionBusy,
    WriteSessionNotActive,
    WriteSequenceMismatch,
}

#[derive(Clone, Copy, Debug, PartialEq, Eq, Structural)]
pub enum SaveOutcome {
    Noop,
    Saved,
}

} // verus!
