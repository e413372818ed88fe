use vstd::prelude::*;

use crate::config::types::{ConfigError, SLOT_COUNT};

verus! {

/// The flash area reserved for configuration slots.
#[derive(Clone, Copy, Debug, PartialEq, Eq, Structural)]
pub struct FlashRegionInfo {
    pub offset: u32,
    pub length: u32,
    pub page_size: u32,
    pub write_alignment: u32,
}

impl Default for FlashRegionInfo {
    fn default() -> (r: Self)
        ensures
            r == (FlashRegionInfo { offset: 0, length: 0, page_size: 0, write_alignment: 0 }),
    {
        FlashRegionInfo { offset: 0, length: 0, page_size: 0, write_alignment: 0 }
    }
}

/// A region the slots can be laid out in: non-empty, split evenly into the
/// slots, with a page size and write alignment.
pub open spec fn spec_region_usable(r: FlashRegionInfo) -> bool {
    &&& r.length != 0
    &&& r.length % (SLOT_COUNT as u32) == 0
    &&& r.page_size != 0
    &&& r.write_alignment != 0
}

impl FlashRegionInfo {
    /// Flash address of slot `slot_index` when each slot is `slot_size`
    /// bytes long.
    pub fn slot_offset(&self, slot_size: u32, slot_index: usize) -> (r: Result<u32, ConfigError>)
        requires
            slot_index < SLOT_COUNT ==> self.offset + slot_size * slot_index <= u32::MAX,
        ensures
            slot_index >= SLOT_COUNT ==> r == Err::<u32, ConfigError>(ConfigError::InvalidFlashRegion),
            slot_index < SLOT_COUNT ==> r == Ok::<u32, ConfigError>(
                (self.offset + slot_size * slot_index) as u32,
            ),
    {
        if slot_index >= SLOT_COUNT {
            return Err(ConfigError::InvalidFlashRegion);
        }
        Ok(self.offset + slot_size * slot_index as u32)
    }
}

/// Checks the region the board reports.
pub fn validate_flash_region(region: FlashRegionInfo) -> (r: Result<FlashRegionInfo, ConfigError>)
    ensures
        spec_region_usable(region) ==> r == Ok::<FlashRegionInfo, ConfigError>(region),
        !spec_region_usable(region) ==> r == Err::<FlashRegionInfo, ConfigError>(
            ConfigError::InvalidFlashRegion,
        ),
{
    if region.length == 0 || region.length % (SLOT_COUNT as u32) != 0 || region.page_size == 0
        || region.write_alignment == 0 {
        return Err(ConfigError::InvalidFlashRegion);
    }
    Ok(region)
}

/// Size of each slot in `region`: its length split evenly into the slots, or
/// zero for a region too small to hold them.
pub fn slot_size_of(region: FlashRegionInfo) -> (size: u32)
    ensures
        region.length >= SLOT_COUNT ==> size == region.length / (SLOT_COUNT as u32),
        region.length < SLOT_COUNT ==> size == 0,
{
    if region.length >= SLOT_COUNT as u32 {
        region.length / SLOT_COUNT as u32
    } else {
        0
    }
}

} // verus!
