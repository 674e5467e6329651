//! Parameter values.

use crate::bytes::{find_nul, lemma_nul_position, u32_at, u32_le, until_nul};
use crate::error::SfoMalformed;
use crate::sfo::data::format::{SFODataFormat, UTF8_FORMAT};
use crate::utils::fmt::{debug_vec, debug_vec_text, decimal, decimal_string};
use crate::utils::text::{debug_str, quoted, string_from_utf8};
use vstd::prelude::*;
use vstd::slice::*;
use vstd::string::*;
use vstd::utf8::*;

pub mod format;

verus! {

/// The value of a parameter.
#[derive(Debug, Clone, PartialEq, Eq)]
pub enum SFOParamData {
    /// An opaque byte buffer of the declared length.
    SpecialMode(Vec<u8>),
    /// A text, without its terminator and padding.
    Utf8(String),
    /// A 32-bit unsigned integer.
    Int(u32),
}

/// A parameter value as mathematical data.
pub ghost enum SfoValue {
    SpecialMode(Seq<u8>),
    Utf8(Seq<char>),
    Int(u32),
}

impl View for SFOParamData {
    type V = SfoValue;

    open spec fn view(&self) -> SfoValue {
        match self {
            SFOParamData::SpecialMode(bytes) => SfoValue::SpecialMode(bytes@),
            SFOParamData::Utf8(text) => SfoValue::Utf8(text@),
            SFOParamData::Int(value) => SfoValue::Int(*value),
        }
    }
}

/// The view of a decoding result.
pub open spec fn value_view(r: Result<SFOParamData, SfoMalformed>) -> Result<
    SfoValue,
    SfoMalformed,
> {
    match r {
        Ok(value) => Ok(value@),
        Err(reason) => Err(reason),
    }
}

/// The text that shows a value: a byte buffer as `debug_vec` writes it, a
/// text quoted and escaped, an integer in decimal.
pub open spec fn debug_text(value: SfoValue) -> Seq<char> {
    match value {
        SfoValue::SpecialMode(bytes) => debug_vec_text(bytes),
        SfoValue::Utf8(text) => quoted(text),
        SfoValue::Int(number) => decimal(number as nat),
    }
}

/// A text whose window holds no zero byte is the whole window: the
/// terminator may be missing where the text fills its capacity. The declared
/// length plays no part.
pub proof fn lemma_text_without_terminator(window: Seq<u8>, length: u32)
    requires
        forall|i: int| 0 <= i < window.len() ==> window[i] != 0,
        valid_utf8(window),
    ensures
        SFOParamData::spec_parse(window, UTF8_FORMAT, length) == Ok::<SfoValue, SfoMalformed>(
            SfoValue::Utf8(decode_utf8(window)),
        ),
        encode_utf8(decode_utf8(window)) == window,
{
    lemma_nul_position(window, window.len() as int);
    assert(until_nul(window) =~= window);
    decode_utf8_encode_utf8(window);
}

impl SFOParamData {
    /// The value that a window of the data table holds. `window` spans the
    /// capacity of the value, `format_type` is its format code and `length`
    /// its declared length.
    ///
    /// - A byte buffer is the first `length` bytes of the window.
    /// - A text is the bytes before the first zero byte, or the whole window
    ///   where it holds none, read as UTF-8.
    /// - An integer is the first four bytes in little-endian order.
    pub open spec fn spec_parse(window: Seq<u8>, format_type: u16, length: u32) -> Result<
        SfoValue,
        SfoMalformed,
    > {
        match SFODataFormat::spec_from_code(format_type) {
            None => Err(SfoMalformed::UnknownFormat),
            Some(SFODataFormat::SpecialMode) => {
                if length > window.len() {
                    Err(SfoMalformed::OutOfRange)
                } else {
                    Ok(SfoValue::SpecialMode(window.subrange(0, length as int)))
                }
            },
            Some(SFODataFormat::Utf8) => {
                if valid_utf8(until_nul(window)) {
                    Ok(SfoValue::Utf8(decode_utf8(until_nul(window))))
                } else {
                    Err(SfoMalformed::InvalidUtf8)
                }
            },
            Some(SFODataFormat::Int) => {
                if window.len() < 4 {
                    Err(SfoMalformed::Truncated)
                } else {
                    Ok(SfoValue::Int(u32_le(window.subrange(0, 4))))
                }
            },
        }
    }

    /// Decodes the value that the window `data` holds.
    pub fn parse(data: &[u8], format_type: u16, length: u32) -> (r: Result<
        SFOParamData,
        SfoMalformed,
    >)
        ensures
            value_view(r) == Self::spec_parse(data@, format_type, length),
    {
        match SFODataFormat::from_code(format_type) {
            None => Err(SfoMalformed::UnknownFormat),
            Some(SFODataFormat::SpecialMode) => {
                if length as u64 > data.len() as u64 {
                    Err(SfoMalformed::OutOfRange)
                } else {
                    Ok(SFOParamData::SpecialMode(slice_to_vec(slice_subrange(data, 0, length as usize))))
                }
            },
            Some(SFODataFormat::Utf8) => {
                let end = find_nul(data);
                match string_from_utf8(slice_to_vec(slice_subrange(data, 0, end))) {
                    Some(text) => Ok(SFOParamData::Utf8(text)),
                    None => Err(SfoMalformed::InvalidUtf8),
                }
            },
            Some(SFODataFormat::Int) => {
                if data.len() < 4 {
                    Err(SfoMalformed::Truncated)
                } else {
                    Ok(SFOParamData::Int(u32_at(data, 0)))
                }
            },
        }
    }

    /// Writes the value for a log: a long byte buffer is cut short.
    pub fn debug_string(&self) -> (r: String)
        ensures
            r@ == debug_text(self@),
    {
        match self {
            SFOParamData::SpecialMode(bytes) => debug_vec(bytes),
            SFOParamData::Utf8(text) => debug_str(text.as_str()),
            SFOParamData::Int(number) => decimal_string(*number),
        }
    }
}

} // verus!
