use void_pointer_core::config::flash_region::{validate_flash_region, FlashRegionInfo};
use void_pointer_core::config::load::{
    migrate_payload, pick_active_slot, select_persisted_config, validate_slot_data,
    validate_slot_header, ActiveSlot, PersistedConfig, ValidSlot,
};
use void_pointer_core::config::storage::{
    compute_header_crc32, crc32, seal_header, slot_header_decode, slot_header_encode,
};
use void_pointer_core::config::store::{build_slot_image, plan_save, verify_readback};
use void_pointer_core::config::types::{
    ConfigError, SaveOutcome, SlotHeader, CURRENT_CONFIG_VERSION, CURRENT_STORAGE_VERSION, MAX_PAYLOAD_SIZE,
    SLOT_A_INDEX, SLOT_BUF_SIZE, SLOT_B_INDEX, SLOT_COUNT, SLOT_MAGIC,
};
use void_pointer_core::config::persist::PersistState;
use void_pointer_core::config::write_session::WriteSession;

fn make_region() -> FlashRegionInfo {
    FlashRegionInfo {
        offset: 0x1000,
        length: 0x2000,
        page_size: 256,
        write_alignment: 4,
    }
}

#[test]
fn slot_offset_zero() {
    let r = make_region();
    assert_eq!(r.slot_offset(0x1000, 0).unwrap(), 0x1000);
}

#[test]
fn slot_offset_first() {
    let r = make_region();
    assert_eq!(r.slot_offset(0x1000, 1).unwrap(), 0x2000);
}

#[test]
fn slot_offset_invalid_index() {
    let r = make_region();
    assert_eq!(
        r.slot_offset(0x1000, SLOT_COUNT),
        Err(ConfigError::InvalidFlashRegion)
    );
}

#[test]
fn flash_region_validation() {
    assert_eq!(validate_flash_region(make_region()), Ok(make_region()));
    let mut odd = make_region();
    odd.length = 0x2001;
    assert_eq!(validate_flash_region(odd), Err(ConfigError::InvalidFlashRegion));
    assert_eq!(
        validate_flash_region(FlashRegionInfo::default()),
        Err(ConfigError::InvalidFlashRegion)
    );
}

#[test]
fn crc32_known_vector() {
    assert_eq!(crc32(b"hello"), 0x3610a686);
}

#[test]
fn crc32_empty_input() {
    assert_eq!(crc32(b""), 0x0000_0000);
}

#[test]
fn crc32_check_value() {
    assert_eq!(crc32(b"123456789"), 0xCBF4_3926);
}

#[test]
fn header_encode_decode_roundtrip() {
    let h = SlotHeader {
        magic: SLOT_MAGIC,
        storage_version: 1,
        config_version: 2,
        payload_len: 100,
        sequence: 42,
        payload_crc32: 0x1234_5678,
        header_crc32: 0x8765_4321,
        flags: 0xFF,
    };
    let mut buf = [0u8; SlotHeader::ENCODED_LEN];
    slot_header_encode(h, &mut buf);
    assert_eq!(slot_header_decode(&buf), h);
}

#[test]
fn header_encoding_is_little_endian() {
    let h = SlotHeader {
        magic: 0x0403_0201,
        storage_version: 0x0605,
        config_version: 0x0807,
        payload_len: 0,
        sequence: 0,
        payload_crc32: 0,
        header_crc32: 0,
        flags: 0x1C1B_1A19,
    };
    let mut buf = [0u8; SlotHeader::ENCODED_LEN];
    slot_header_encode(h, &mut buf);
    assert_eq!(&buf[0..8], &[1, 2, 3, 4, 5, 6, 7, 8]);
    assert_eq!(&buf[24..28], &[0x19, 0x1A, 0x1B, 0x1C]);
}

#[test]
fn seal_self_consistent() {
    let h = SlotHeader {
        magic: SLOT_MAGIC,
        storage_version: 1,
        config_version: 1,
        payload_len: 50,
        sequence: 1,
        payload_crc32: 0xDEAD_BEEF,
        header_crc32: 0,
        flags: 0,
    };
    let sealed = seal_header(h);
    assert_eq!(compute_header_crc32(sealed), sealed.header_crc32);
}

#[test]
fn header_crc_ignores_stored_crc() {
    let mut h = SlotHeader {
        magic: SLOT_MAGIC,
        storage_version: 1,
        config_version: 1,
        payload_len: 50,
        sequence: 1,
        payload_crc32: 7,
        header_crc32: 0,
        flags: 0,
    };
    let a = compute_header_crc32(h);
    h.header_crc32 = 0x1234_5678;
    assert_eq!(compute_header_crc32(h), a);
    assert_ne!(a, 0);
}

#[test]
fn slot_header_encoded_len() {
    assert_eq!(SlotHeader::ENCODED_LEN, 28);
}

#[test]
fn max_payload_size_positive() {
    assert!(MAX_PAYLOAD_SIZE > 0);
    assert!(MAX_PAYLOAD_SIZE >= SLOT_BUF_SIZE - SlotHeader::ENCODED_LEN);
}

fn header(magic: u32, storage_version: u16, payload_len: u32, header_crc32: u32) -> SlotHeader {
    SlotHeader {
        magic,
        storage_version,
        config_version: CURRENT_CONFIG_VERSION,
        payload_len,
        sequence: 1,
        payload_crc32: 0,
        header_crc32,
        flags: 0,
    }
}

#[test]
fn validate_header_seal_passes() {
    let h = SlotHeader {
        magic: SLOT_MAGIC,
        storage_version: CURRENT_STORAGE_VERSION,
        config_version: CURRENT_CONFIG_VERSION,
        payload_len: 30,
        sequence: 5,
        payload_crc32: 0,
        header_crc32: 0,
        flags: 0,
    };
    let sealed = seal_header(h);
    assert!(validate_slot_header(sealed, 4096).is_ok());
}

#[test]
fn validate_header_bad_magic() {
    let h = header(0xDEAD_BEEF, CURRENT_STORAGE_VERSION, 10, 0);
    assert_eq!(validate_slot_header(h, 4096), Err(ConfigError::InvalidMagic));
}

#[test]
fn validate_header_zero_len() {
    let h = header(SLOT_MAGIC, CURRENT_STORAGE_VERSION, 0, 0);
    assert_eq!(
        validate_slot_header(h, 4096),
        Err(ConfigError::InvalidPayloadLength)
    );
}

#[test]
fn validate_header_oversize_payload() {
    let h = header(SLOT_MAGIC, CURRENT_STORAGE_VERSION, 5000, 0);
    assert_eq!(
        validate_slot_header(h, 4096),
        Err(ConfigError::InvalidPayloadLength)
    );
}

#[test]
fn validate_header_unsupported_storage_version() {
    let h = header(SLOT_MAGIC, 99, 10, 0);
    assert_eq!(
        validate_slot_header(h, 4096),
        Err(ConfigError::UnsupportedStorageVersion)
    );
}

#[test]
fn validate_header_crc_mismatch() {
    let h = header(SLOT_MAGIC, CURRENT_STORAGE_VERSION, 10, 0xDEAD_BEEF);
    assert_eq!(
        validate_slot_header(h, 4096),
        Err(ConfigError::HeaderCrcMismatch)
    );
}

#[test]
fn validate_header_small_slot_has_no_room() {
    let sealed = seal_header(header(SLOT_MAGIC, CURRENT_STORAGE_VERSION, 1, 0));
    assert_eq!(
        validate_slot_header(sealed, 20),
        Err(ConfigError::InvalidPayloadLength)
    );
    assert!(validate_slot_header(sealed, 29).is_ok());
}

#[test]
fn active_slot_from_index_a() {
    assert_eq!(ActiveSlot::from_index(SLOT_A_INDEX), Some(ActiveSlot::A));
}

#[test]
fn active_slot_from_index_b() {
    assert_eq!(ActiveSlot::from_index(SLOT_B_INDEX), Some(ActiveSlot::B));
}

#[test]
fn active_slot_from_index_out_of_range() {
    assert_eq!(ActiveSlot::from_index(99), None);
}

#[test]
fn active_slot_inactive_a_returns_b() {
    assert_eq!(ActiveSlot::A.inactive_index(), SLOT_B_INDEX);
}

#[test]
fn active_slot_inactive_b_returns_a() {
    assert_eq!(ActiveSlot::B.inactive_index(), SLOT_A_INDEX);
}

fn make_valid_slot(index: usize, sequence: u32) -> ValidSlot<u32> {
    ValidSlot {
        index,
        header: SlotHeader {
            magic: SLOT_MAGIC,
            storage_version: CURRENT_STORAGE_VERSION,
            config_version: CURRENT_CONFIG_VERSION,
            payload_len: 10,
            sequence,
            payload_crc32: 0,
            header_crc32: 0,
            flags: 0,
        },
        config: 7,
        was_migrated: false,
    }
}

#[test]
fn pick_both_none() {
    assert!(pick_active_slot::<u32>(None, None).is_none());
}

#[test]
fn pick_only_a() {
    assert_eq!(
        pick_active_slot(Some(make_valid_slot(0, 1)), None)
            .unwrap()
            .index,
        0
    );
}

#[test]
fn pick_b_wins_by_higher_sequence() {
    let a = make_valid_slot(0, 10);
    let b = make_valid_slot(1, 20);
    assert_eq!(pick_active_slot(Some(a), Some(b)).unwrap().index, 1);
}

#[test]
fn pick_a_wins_by_higher_sequence() {
    let a = make_valid_slot(0, 30);
    let b = make_valid_slot(1, 20);
    assert_eq!(pick_active_slot(Some(a), Some(b)).unwrap().index, 0);
}

#[test]
fn pick_only_b() {
    assert_eq!(
        pick_active_slot(None, Some(make_valid_slot(1, 5)))
            .unwrap()
            .index,
        1
    );
}

#[test]
fn pick_equal_sequence_prefers_a() {
    let a = make_valid_slot(0, 42);
    let b = make_valid_slot(1, 42);
    assert_eq!(pick_active_slot(Some(a), Some(b)).unwrap().index, 0);
}

#[test]
fn select_persisted_config_both_none() {
    assert_eq!(
        select_persisted_config::<u32>(None, None),
        Err(ConfigError::StorageEmpty)
    );
}

#[test]
fn select_persisted_config_chooses_a() {
    let a = make_valid_slot(0, 10);
    let result = select_persisted_config(Some(a), None).unwrap();
    assert_eq!(result.active_slot, ActiveSlot::A);
    assert_eq!(result.next_sequence, 11);
}

#[test]
fn select_persisted_config_chooses_b() {
    let b = make_valid_slot(1, 20);
    let result = select_persisted_config(None, Some(b)).unwrap();
    assert_eq!(result.active_slot, ActiveSlot::B);
    assert_eq!(result.next_sequence, 21);
}

#[test]
fn select_persisted_config_invalid_index() {
    let bad = make_valid_slot(99, 1);
    assert_eq!(
        select_persisted_config(Some(bad), None),
        Err(ConfigError::InvalidFlashRegion)
    );
}

#[test]
fn select_persisted_config_sequence_wraps() {
    let a = make_valid_slot(0, u32::MAX);
    assert_eq!(select_persisted_config(Some(a), None).unwrap().next_sequence, 0);
}

#[test]
fn migrate_from_future_version_errors() {
    assert_eq!(
        migrate_payload(CURRENT_CONFIG_VERSION + 1),
        Err(ConfigError::UnsupportedConfigVersion)
    );
}

#[test]
fn migrate_unimplemented_version_errors() {
    assert_eq!(migrate_payload(0), Err(ConfigError::MigrationFailed));
}

#[test]
fn migrate_same_version_reads_directly() {
    assert_eq!(migrate_payload(CURRENT_CONFIG_VERSION), Ok(()));
}

fn write_slot(slot_buf: &mut [u8; SLOT_BUF_SIZE], h: SlotHeader, payload: &[u8]) {
    let mut header_bytes = [0u8; SlotHeader::ENCODED_LEN];
    slot_header_encode(h, &mut header_bytes);
    slot_buf[..SlotHeader::ENCODED_LEN].copy_from_slice(&header_bytes);
    slot_buf[SlotHeader::ENCODED_LEN..SlotHeader::ENCODED_LEN + payload.len()]
        .copy_from_slice(payload);
}

#[test]
fn validate_slot_data_bad_magic() {
    let mut slot_buf = [0u8; SLOT_BUF_SIZE];
    let sealed = seal_header(header(0xDEAD_BEEF, CURRENT_STORAGE_VERSION, 10, 0));
    write_slot(&mut slot_buf, sealed, &[]);
    assert_eq!(
        validate_slot_data(&slot_buf, 4096, 0),
        Err(ConfigError::InvalidMagic)
    );
}

#[test]
fn validate_slot_data_empty_returns_storage_empty() {
    let slot_buf = [0xFFu8; SLOT_BUF_SIZE];
    assert_eq!(
        validate_slot_data(&slot_buf, 4096, 0),
        Err(ConfigError::StorageEmpty)
    );
}

fn sealed_for(payload: &[u8], config_version: u16) -> SlotHeader {
    seal_header(SlotHeader {
        magic: SLOT_MAGIC,
        storage_version: CURRENT_STORAGE_VERSION,
        config_version,
        payload_len: payload.len() as u32,
        sequence: 1,
        payload_crc32: crc32(payload),
        header_crc32: 0,
        flags: 0,
    })
}

#[test]
fn validate_slot_data_valid_slot() {
    let mut slot_buf = [0u8; SLOT_BUF_SIZE];
    let payload = [1u8, 2, 3, 4, 5];
    let h = sealed_for(&payload, CURRENT_CONFIG_VERSION);
    write_slot(&mut slot_buf, h, &payload);
    let checked = validate_slot_data(&slot_buf, 4096, 1).unwrap();
    assert_eq!(checked.index, 1);
    assert_eq!(checked.header, h);
}

#[test]
fn validate_slot_data_crc_mismatch() {
    let mut slot_buf = [0u8; SLOT_BUF_SIZE];
    let payload = [1u8, 2, 3, 4, 5];
    write_slot(&mut slot_buf, sealed_for(&payload, CURRENT_CONFIG_VERSION), &payload);
    slot_buf[SlotHeader::ENCODED_LEN] ^= 0xFF;
    assert_eq!(
        validate_slot_data(&slot_buf, 4096, 0),
        Err(ConfigError::PayloadCrcMismatch)
    );
}

#[test]
fn validate_slot_data_unsupported_config_version() {
    let mut slot_buf = [0u8; SLOT_BUF_SIZE];
    let payload = [9u8; 12];
    write_slot(&mut slot_buf, sealed_for(&payload, CURRENT_CONFIG_VERSION + 1), &payload);
    assert_eq!(
        validate_slot_data(&slot_buf, 4096, 0),
        Err(ConfigError::UnsupportedConfigVersion)
    );
}

#[test]
fn validate_slot_data_old_version_cannot_migrate() {
    let mut slot_buf = [0u8; SLOT_BUF_SIZE];
    let payload = [9u8; 12];
    write_slot(&mut slot_buf, sealed_for(&payload, 0), &payload);
    assert_eq!(
        validate_slot_data(&slot_buf, 4096, 0),
        Err(ConfigError::MigrationFailed)
    );
}

#[test]
fn saved_slot_is_loaded_back() {
    let region = make_region();
    let payload = [0x10u8, 0x20, 0x30, 0x40];
    let crc = crc32(&payload);
    let plan = plan_save(region, 0x1000, Some(ActiveSlot::A), 41, payload.len() as u32, crc).unwrap();
    assert_eq!(plan.target, ActiveSlot::B);
    assert_eq!(plan.offset, 0x2000);
    assert_eq!(plan.header.sequence, 41);
    let mut slot_buf = [0u8; SLOT_BUF_SIZE];
    build_slot_image(plan.header, &payload, 0x1000, &mut slot_buf);
    assert_eq!(slot_buf[100], 0xFF);
    assert_eq!(verify_readback(&slot_buf, plan.header, payload.len(), crc), Ok(()));
    let checked = validate_slot_data(&slot_buf, 0x1000, 1).unwrap();
    assert_eq!(checked.header, plan.header);
    slot_buf[SlotHeader::ENCODED_LEN + 1] ^= 1;
    assert_eq!(
        verify_readback(&slot_buf, plan.header, payload.len(), crc),
        Err(ConfigError::ReadbackVerifyFailed)
    );
}

#[test]
fn first_save_goes_to_slot_a() {
    let plan = plan_save(make_region(), 0x1000, None, 0, 4, 0).unwrap();
    assert_eq!(plan.target, ActiveSlot::A);
    assert_eq!(plan.offset, 0x1000);
    assert_eq!(compute_header_crc32(plan.header), plan.header.header_crc32);
}

#[test]
fn write_session_chunked_upload() {
    let payload = [1u8, 2, 3, 4, 5, 6, 7];
    let mut staging = [0xAAu8; MAX_PAYLOAD_SIZE];
    let mut s = WriteSession::new();
    assert!(!s.is_active());
    assert_eq!(s.write_chunk(&mut staging, 0, &payload), Err(ConfigError::WriteSessionNotActive));
    s.begin(&mut staging, payload.len() as u32, crc32(&payload)).unwrap();
    assert!(staging.iter().all(|b| *b == 0));
    assert_eq!(s.begin(&mut staging, 3, 0), Err(ConfigError::WriteSessionBusy));
    assert_eq!(s.write_chunk(&mut staging, 1, &payload[..3]), Err(ConfigError::WriteSequenceMismatch));
    s.write_chunk(&mut staging, 0, &payload[..3]).unwrap();
    assert_eq!(s.verify_payload(&staging), Err(ConfigError::WriteSequenceMismatch));
    assert_eq!(s.write_chunk(&mut staging, 3, &[0u8; 5]), Err(ConfigError::InvalidPayloadLength));
    s.write_chunk(&mut staging, 3, &payload[3..]).unwrap();
    assert_eq!(&staging[..7], &payload);
    assert_eq!(s.verify_payload(&staging), Ok(7));
    assert_eq!(s.commit(&staging, Err::<u8, _>(ConfigError::DeserializeFailed)), Err(ConfigError::DeserializeFailed));
    assert!(s.is_active());
    assert_eq!(s.commit(&staging, Ok(5u8)), Ok(5));
    assert!(!s.is_active());
}

#[test]
fn write_session_rejects_bad_crc_and_length() {
    let mut staging = [0u8; MAX_PAYLOAD_SIZE];
    let mut s = WriteSession::default();
    assert_eq!(s.begin(&mut staging, 0, 0), Err(ConfigError::InvalidPayloadLength));
    assert_eq!(
        s.begin(&mut staging, MAX_PAYLOAD_SIZE as u32 + 1, 0),
        Err(ConfigError::InvalidPayloadLength)
    );
    s.begin(&mut staging, 2, 0).unwrap();
    s.write_chunk(&mut staging, 0, &[1, 2]).unwrap();
    assert_eq!(s.verify_payload(&staging), Err(ConfigError::PayloadCrcMismatch));
    s.abort();
    assert!(!s.is_active());
}

#[test]
fn save_noop_when_clean() {
    let s = PersistState::new();
    assert!(!s.is_dirty());
    assert_eq!(s.save_needed(), Some(SaveOutcome::Noop));
}

#[test]
fn dirty_flag_lifecycle() {
    let mut s = PersistState::new();
    assert!(!s.is_dirty());
    s.mark_dirty();
    assert!(s.is_dirty());
    assert_eq!(s.save_needed(), None);
    s.clear_dirty();
    assert!(!s.is_dirty());
}

#[test]
fn on_save_success_updates_state() {
    let mut s = PersistState::new();
    s.next_sequence = 100;
    s.mark_dirty();
    assert_eq!(s.on_save_success(ActiveSlot::B), SaveOutcome::Saved);
    assert_eq!(s.active_slot, Some(ActiveSlot::B));
    assert_eq!(s.next_sequence, 101);
    assert!(!s.is_dirty());
}

#[test]
fn save_sequence_wraps() {
    let mut s = PersistState::new();
    s.next_sequence = u32::MAX;
    s.on_save_success(ActiveSlot::A);
    assert_eq!(s.next_sequence, 0);
}

#[test]
fn apply_persisted_updates_state() {
    let mut s = PersistState::new();
    let persisted = PersistedConfig { active_slot: ActiveSlot::B, next_sequence: 42, config: 7u8, was_migrated: false };
    s.apply_persisted(&persisted);
    assert_eq!(s.active_slot, Some(ActiveSlot::B));
    assert_eq!(s.next_sequence, 42);
    assert!(!s.is_dirty());
}

#[test]
fn apply_persisted_migrated_marks_dirty() {
    let mut s = PersistState::new();
    let persisted = PersistedConfig { active_slot: ActiveSlot::A, next_sequence: 10, config: 7u8, was_migrated: true };
    s.apply_persisted(&persisted);
    assert!(s.is_dirty());
    assert_eq!(s.active_slot, Some(ActiveSlot::A));
}

#[test]
fn saves_alternate_between_slots() {
    let region = FlashRegionInfo { offset: 0x1000, length: 0x2000, page_size: 0x100, write_alignment: 4 };
    let mut s = PersistState::new();
    let first = plan_save(region, 0x1000, s.active_slot, s.next_sequence, 4, 0).unwrap();
    assert_eq!(first.target, ActiveSlot::A);
    s.on_save_success(first.target);
    let second = plan_save(region, 0x1000, s.active_slot, s.next_sequence, 4, 0).unwrap();
    assert_eq!(second.target, ActiveSlot::B);
    assert_eq!(second.offset, 0x2000);
    assert_eq!(second.header.sequence, 1);
    s.on_save_success(second.target);
    let third = plan_save(region, 0x1000, s.active_slot, s.next_sequence, 4, 0).unwrap();
    assert_eq!(third.target, ActiveSlot::A);
}
