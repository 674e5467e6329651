//! The decoder of the `param.sfo` parameter table.
//!
//! A table is a header, an index table of sixteen-byte entries, a key table
//! of null-terminated keys and a data table of values. Every offset that the
//! index names is checked against the buffer before it is followed.

use crate::bytes::{find_nul, nul_position, until_nul};
use crate::error::SfoMalformed;
use crate::sfo::data::SFOParamData;
use crate::sfo::header::{SFOHeader, SFO_HEADER_SIZE};
use crate::sfo::param::{
    has_key, lemma_lookup_absent, lemma_lookup_first, lookup, params_view, unique_keys, ParamView,
    SFOParam,
};
use crate::sfo::table_entry::{SFOIndexTableEntry, SFO_INDEX_ENTRY_SIZE};
use crate::utils::text::{same_text, string_from_utf8};
use vstd::prelude::*;
use vstd::slice::*;
use vstd::string::*;
use vstd::utf8::*;

pub mod data;
pub mod header;
pub mod param;
pub mod table_entry;

verus! {

/// A decoded parameter table: its header and its parameters in the order of
/// the index table.
#[derive(Debug, Clone, PartialEq, Eq)]
pub struct SFOFile {
    pub header: SFOHeader,
    pub params: Vec<SFOParam>,
}

/// A parameter table as mathematical data.
pub ghost struct SfoTable {
    pub header: SFOHeader,
    pub params: Seq<ParamView>,
}

impl View for SFOFile {
    type V = SfoTable;

    open spec fn view(&self) -> SfoTable {
        SfoTable { header: self.header, params: params_view(self.params@) }
    }
}

/// The view of a decoding result.
pub open spec fn table_view(r: Result<SFOFile, SfoMalformed>) -> Result<SfoTable, SfoMalformed> {
    match r {
        Ok(file) => Ok(file@),
        Err(reason) => Err(reason),
    }
}

/// The key that starts at `start`: the bytes up to the next zero byte, read
/// as UTF-8. A key that the buffer ends in has no terminator and is
/// truncated.
pub open spec fn spec_key(data: Seq<u8>, start: int) -> Result<Seq<char>, SfoMalformed> {
    if start > data.len() {
        Err(SfoMalformed::OutOfRange)
    } else {
        let rest = data.subrange(start, data.len() as int);
        if nul_position(rest) == rest.len() {
            Err(SfoMalformed::Truncated)
        } else if !valid_utf8(until_nul(rest)) {
            Err(SfoMalformed::InvalidUtf8)
        } else {
            Ok(decode_utf8(until_nul(rest)))
        }
    }
}

/// The `capacity` bytes that start at `start`.
pub open spec fn spec_window(data: Seq<u8>, start: int, capacity: int) -> Result<
    Seq<u8>,
    SfoMalformed,
> {
    if start + capacity > data.len() {
        Err(SfoMalformed::OutOfRange)
    } else {
        Ok(data.subrange(start, start + capacity))
    }
}

/// The index entry of the parameter `index`.
pub open spec fn spec_entry(data: Seq<u8>, index: int) -> Result<SFOIndexTableEntry, SfoMalformed> {
    let at = SFO_HEADER_SIZE + SFO_INDEX_ENTRY_SIZE * index;
    if at + SFO_INDEX_ENTRY_SIZE > data.len() {
        Err(SfoMalformed::Truncated)
    } else {
        SFOIndexTableEntry::spec_parse(data.subrange(at, at + SFO_INDEX_ENTRY_SIZE))
    }
}

/// The parameter `index` of the table: its index entry, then its key, then
/// the window of its value, then the value. The first of these that fails
/// gives the failure.
pub open spec fn spec_param(data: Seq<u8>, header: SFOHeader, index: int) -> Result<
    ParamView,
    SfoMalformed,
> {
    match spec_entry(data, index) {
        Err(reason) => Err(reason),
        Ok(entry) => match spec_key(data, header.key_table_offset + entry.key_offset) {
            Err(reason) => Err(reason),
            Ok(key) => match spec_window(
                data,
                header.data_table_offset + entry.data_offset,
                entry.data_max_length as int,
            ) {
                Err(reason) => Err(reason),
                Ok(window) => match SFOParamData::spec_parse(
                    window,
                    entry.data_format,
                    entry.data_length,
                ) {
                    Err(reason) => Err(reason),
                    Ok(value) => Ok(ParamView { key, data: value }),
                },
            },
        }
    }
}

/// The first `count` parameters of the table, in the order of the index. The
/// first parameter that fails gives the failure; a key that an earlier
/// parameter carries is a failure too.
pub open spec fn spec_params(data: Seq<u8>, header: SFOHeader, count: nat) -> Result<
    Seq<ParamView>,
    SfoMalformed,
>
    decreases count,
{
    if count == 0 {
        Ok(Seq::empty())
    } else {
        match spec_params(data, header, (count - 1) as nat) {
            Err(reason) => Err(reason),
            Ok(before) => match spec_param(data, header, count - 1) {
                Err(reason) => Err(reason),
                Ok(param) => if has_key(before, param.key) {
                    Err(SfoMalformed::DuplicateKey)
                } else {
                    Ok(before.push(param))
                },
            },
        }
    }
}

/// The table that a `param.sfo` buffer holds.
pub open spec fn spec_parse(data: Seq<u8>) -> Result<SfoTable, SfoMalformed> {
    match SFOHeader::spec_parse(data) {
        Err(reason) => Err(reason),
        Ok(header) => match spec_params(data, header, header.entries_count as nat) {
            Err(reason) => Err(reason),
            Ok(params) => Ok(SfoTable { header, params }),
        },
    }
}

/// A failure among the first parameters is the failure of every longer run.
pub proof fn lemma_params_failure_persists(
    data: Seq<u8>,
    header: SFOHeader,
    failed: nat,
    count: nat,
)
    requires
        failed <= count,
        spec_params(data, header, failed) is Err,
    ensures
        spec_params(data, header, count) == spec_params(data, header, failed),
    decreases count,
{
    if failed < count {
        lemma_params_failure_persists(data, header, failed, (count - 1) as nat);
    }
}

/// Parameters that were decoded together carry different keys, one for each
/// index entry.
pub proof fn lemma_params_unique(data: Seq<u8>, header: SFOHeader, count: nat)
    requires
        spec_params(data, header, count) is Ok,
    ensures
        unique_keys(spec_params(data, header, count)->Ok_0),
        spec_params(data, header, count)->Ok_0.len() == count,
    decreases count,
{
    if count > 0 {
        lemma_params_unique(data, header, (count - 1) as nat);
        let before = spec_params(data, header, (count - 1) as nat)->Ok_0;
        let param = spec_param(data, header, count - 1)->Ok_0;
        let all = before.push(param);
        assert(!has_key(before, param.key));
        assert forall|i: int, j: int| 0 <= i < j < all.len() implies all[i].key != all[j].key by {
            if j == before.len() {
                assert(before[i].key != param.key);
            } else {
                assert(before[i].key != before[j].key);
            }
        }
    }
}

/// Decoding is a function of the buffer: two decodings of one buffer give the
/// same table, or fail for the same reason.
pub proof fn lemma_parse_deterministic(
    data: Seq<u8>,
    first: Result<SFOFile, SfoMalformed>,
    second: Result<SFOFile, SfoMalformed>,
)
    requires
        table_view(first) == spec_parse(data),
        table_view(second) == spec_parse(data),
    ensures
        table_view(first) == table_view(second),
{
}

impl SFOFile {
    /// Tells whether the table is one that a buffer can hold: no key occurs
    /// twice, and the header counts the parameters. The list of parameters
    /// stands for a map from key to value that keeps the order of the index.
    pub open spec fn wf(&self) -> bool {
        &&& unique_keys(self@.params)
        &&& self@.params.len() == self.header.entries_count
    }

    /// Decodes a `param.sfo` buffer.
    ///
    /// Succeeds exactly where `spec_parse` gives a table, with that table;
    /// fails with the reason that `spec_parse` gives otherwise. A decoded
    /// table is well-formed.
    pub fn parse(data: &[u8]) -> (r: Result<SFOFile, SfoMalformed>)
        ensures
            table_view(r) == spec_parse(data@),
            r matches Ok(file) ==> file.wf(),
    {
        let header = match SFOHeader::parse(data) {
            Ok(header) => header,
            Err(reason) => return Err(reason),
        };
        let mut params: Vec<SFOParam> = Vec::new();
        let mut index: u32 = 0;
        assert(params_view(params@) =~= Seq::<ParamView>::empty());
        while index < header.entries_count
            invariant
                index <= header.entries_count,
                SFOHeader::spec_parse(data@) == Ok::<SFOHeader, SfoMalformed>(header),
                spec_params(data@, header, index as nat) == Ok::<Seq<ParamView>, SfoMalformed>(
                    params_view(params@),
                ),
            decreases header.entries_count - index,
        {
            let ghost before = params_view(params@);
            match read_param(data, &header, index) {
                Err(reason) => {
                    proof {
                        lemma_params_failure_persists(
                            data@,
                            header,
                            (index + 1) as nat,
                            header.entries_count as nat,
                        );
                    }
                    return Err(reason);
                },
                Ok(param) => {
                    if contains_key(&params, param.key.as_str()) {
                        proof {
                            lemma_params_failure_persists(
                                data@,
                                header,
                                (index + 1) as nat,
                                header.entries_count as nat,
                            );
                        }
                        return Err(SfoMalformed::DuplicateKey);
                    }
                    params.push(param);
                    assert(params_view(params@) =~= before.push(param@));
                },
            }
            index += 1;
        }
        proof {
            lemma_params_unique(data@, header, header.entries_count as nat);
        }
        Ok(SFOFile { header, params })
    }

    /// Looks up the value of the first parameter that carries `key`.
    pub fn get(&self, key: &str) -> (r: Option<&SFOParamData>)
        ensures
            match r {
                Some(value) => lookup(self@.params, key@) == Some(value@),
                None => lookup(self@.params, key@) is None,
            },
    {
        let mut index: usize = 0;
        while index < self.params.len()
            invariant
                index <= self.params@.len(),
                forall|j: int| 0 <= j < index ==> self@.params[j].key != key@,
            decreases self.params@.len() - index,
        {
            if same_text(self.params[index].key.as_str(), key) {
                proof {
                    lemma_lookup_first(self@.params, key@, index as int);
                }
                return Some(&self.params[index].data);
            }
            index += 1;
        }
        proof {
            lemma_lookup_absent(self@.params, key@);
        }
        None
    }
}

/// Tells whether one of `params` carries `key`.
fn contains_key(params: &Vec<SFOParam>, key: &str) -> (r: bool)
    ensures
        r == has_key(params_view(params@), key@),
{
    let mut index: usize = 0;
    while index < params.len()
        invariant
            index <= params@.len(),
            forall|j: int| 0 <= j < index ==> params_view(params@)[j].key != key@,
        decreases params@.len() - index,
    {
        if same_text(params[index].key.as_str(), key) {
            assert(params_view(params@)[index as int].key == key@);
            return true;
        }
        index += 1;
    }
    false
}

/// Reads the key that starts at `start`.
fn read_key(data: &[u8], start: u64) -> (r: Result<String, SfoMalformed>)
    ensures
        match r {
            Ok(key) => spec_key(data@, start as int) == Ok::<Seq<char>, SfoMalformed>(key@),
            Err(reason) => spec_key(data@, start as int) == Err::<Seq<char>, SfoMalformed>(reason),
        },
{
    if start > data.len() as u64 {
        return Err(SfoMalformed::OutOfRange);
    }
    let rest = slice_subrange(data, start as usize, data.len());
    let end = find_nul(rest);
    if end == rest.len() {
        return Err(SfoMalformed::Truncated);
    }
    match string_from_utf8(slice_to_vec(slice_subrange(rest, 0, end))) {
        Some(key) => Ok(key),
        None => Err(SfoMalformed::InvalidUtf8),
    }
}

/// Reads the parameter `index` of the table.
fn read_param(data: &[u8], header: &SFOHeader, index: u32) -> (r: Result<SFOParam, SfoMalformed>)
    ensures
        match r {
            Ok(param) => spec_param(data@, *header, index as int) == Ok::<ParamView, SfoMalformed>(
                param@,
            ),
            Err(reason) => spec_param(data@, *header, index as int) == Err::<
                ParamView,
                SfoMalformed,
            >(reason),
        },
{
    let at: u64 = SFO_HEADER_SIZE as u64 + SFO_INDEX_ENTRY_SIZE as u64 * index as u64;
    if at + SFO_INDEX_ENTRY_SIZE as u64 > data.len() as u64 {
        return Err(SfoMalformed::Truncated);
    }
    let entry = match SFOIndexTableEntry::parse(
        slice_subrange(data, at as usize, at as usize + SFO_INDEX_ENTRY_SIZE),
    ) {
        Ok(entry) => entry,
        Err(reason) => return Err(reason),
    };
    let key = match read_key(data, header.key_table_offset as u64 + entry.key_offset as u64) {
        Ok(key) => key,
        Err(reason) => return Err(reason),
    };
    let start: u64 = header.data_table_offset as u64 + entry.data_offset as u64;
    if start + entry.data_max_length as u64 > data.len() as u64 {
        return Err(SfoMalformed::OutOfRange);
    }
    let window = slice_subrange(
        data,
        start as usize,
        start as usize + entry.data_max_length as usize,
    );
    match SFOParamData::parse(window, entry.data_format, entry.data_length) {
        Ok(value) => Ok(SFOParam { key, data: value }),
        Err(reason) => Err(reason),
    }
}

} // verus!
