//! The fixed header of a parameter table.

use crate::bytes::{u32_at, u32_le};
use crate::error::SfoMalformed;
use vstd::prelude::*;

verus! {

/// The size of the header in bytes.
pub const SFO_HEADER_SIZE: usize = 0x14;

/// The version that a parameter table declares.
pub const SFO_VERSION: u32 = 0x0000_0101;

/// The four bytes that open a parameter table: a zero byte and `PSF`.
pub open spec fn sfo_magic() -> Seq<u8> {
    seq![0x00u8, 0x50u8, 0x53u8, 0x46u8]
}

/// The header of a parameter table. Both offsets count from the start of the
/// buffer.
#[derive(Debug, Clone, Copy, PartialEq, Eq, Structural)]
pub struct SFOHeader {
    pub version: u32,
    pub key_table_offset: u32,
    pub data_table_offset: u32,
    pub entries_count: u32,
}

impl SFOHeader {
    /// The header that a buffer begins with: the magic, and four
    /// little-endian numbers of which the first is the version
    /// `0x00000101`.
    pub open spec fn spec_parse(data: Seq<u8>) -> Result<SFOHeader, SfoMalformed> {
        if data.len() < SFO_HEADER_SIZE {
            Err(SfoMalformed::Truncated)
        } else if data.subrange(0, 4) != sfo_magic() {
            Err(SfoMalformed::BadMagic)
        } else if u32_le(data.subrange(4, 8)) != SFO_VERSION {
            Err(SfoMalformed::BadVersion)
        } else {
            Ok(
                SFOHeader {
                    version: SFO_VERSION,
                    key_table_offset: u32_le(data.subrange(8, 12)),
                    data_table_offset: u32_le(data.subrange(12, 16)),
                    entries_count: u32_le(data.subrange(16, 20)),
                },
            )
        }
    }

    /// Reads the header from the front of `data`.
    pub fn parse(data: &[u8]) -> (r: Result<SFOHeader, SfoMalformed>)
        ensures
            r == Self::spec_parse(data@),
    {
        if data.len() < SFO_HEADER_SIZE {
            return Err(SfoMalformed::Truncated);
        }
        if data[0] != 0x00 || data[1] != 0x50 || data[2] != 0x53 || data[3] != 0x46 {
            assert(data@.subrange(0, 4)[0] == data@[0]);
            assert(data@.subrange(0, 4)[1] == data@[1]);
            assert(data@.subrange(0, 4)[2] == data@[2]);
            assert(data@.subrange(0, 4)[3] == data@[3]);
            return Err(SfoMalformed::BadMagic);
        }
        assert(data@.subrange(0, 4) =~= sfo_magic());
        let version = u32_at(data, 4);
        if version != SFO_VERSION {
            return Err(SfoMalformed::BadVersion);
        }
        let key_table_offset = u32_at(data, 8);
        let data_table_offset = u32_at(data, 12);
        let entries_count = u32_at(data, 16);
        Ok(SFOHeader { version, key_table_offset, data_table_offset, entries_count })
    }
}

} // verus!
