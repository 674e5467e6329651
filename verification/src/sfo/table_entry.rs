//! The entries of the index table.

use crate::bytes::{u16_at, u16_le, u32_at, u32_le};
use crate::error::SfoMalformed;
use vstd::prelude::*;

verus! {

/// The size of an index entry in bytes.
pub const SFO_INDEX_ENTRY_SIZE: usize = 0x10;

/// One entry of the index table. `key_offset` counts from the start of the
/// key table and `data_offset` from the start of the data table;
/// `data_max_length` is the capacity reserved for the value.
#[derive(Debug, Clone, Copy, PartialEq, Eq, Structural)]
pub struct SFOIndexTableEntry {
    pub key_offset: u16,
    pub data_format: u16,
    pub data_length: u32,
    pub data_max_length: u32,
    pub data_offset: u32,
}

impl SFOIndexTableEntry {
    /// The entry that sixteen bytes hold: five little-endian numbers.
    pub open spec fn spec_parse(data: Seq<u8>) -> Result<SFOIndexTableEntry, SfoMalformed> {
        if data.len() < SFO_INDEX_ENTRY_SIZE {
            Err(SfoMalformed::Truncated)
        } else {
            Ok(
                SFOIndexTableEntry {
                    key_offset: u16_le(data.subrange(0, 2)),
                    data_format: u16_le(data.subrange(2, 4)),
                    data_length: u32_le(data.subrange(4, 8)),
                    data_max_length: u32_le(data.subrange(8, 12)),
                    data_offset: u32_le(data.subrange(12, 16)),
                },
            )
        }
    }

    /// Reads an entry from the front of `data`.
    pub fn parse(data: &[u8]) -> (r: Result<SFOIndexTableEntry, SfoMalformed>)
        ensures
            r == Self::spec_parse(data@),
    {
        if data.len() < SFO_INDEX_ENTRY_SIZE {
            return Err(SfoMalformed::Truncated);
        }
        let key_offset = u16_at(data, 0);
        let data_format = u16_at(data, 2);
        let data_length = u32_at(data, 4);
        let data_max_length = u32_at(data, 8);
        let data_offset = u32_at(data, 12);
        Ok(SFOIndexTableEntry { key_offset, data_format, data_length, data_max_length, data_offset })
    }
}

} // verus!
