//! The format codes of parameter values.

use vstd::prelude::*;

verus! {

/// Format code of an opaque byte buffer.
pub const SPECIAL_MODE_FORMAT: u16 = 0x0004;

/// Format code of a null-terminated UTF-8 text.
pub const UTF8_FORMAT: u16 = 0x0204;

/// Format code of a 32-bit unsigned integer.
pub const INTEGER_FORMAT: u16 = 0x0404;

/// The kind of a parameter value, as the 16-bit format code of its index
/// entry tells it.
#[derive(Debug, Clone, Copy, PartialEq, Eq, Structural)]
pub enum SFODataFormat {
    SpecialMode,
    Utf8,
    Int,
}

impl SFODataFormat {
    /// The kind that a format code stands for, if any.
    pub open spec fn spec_from_code(code: u16) -> Option<SFODataFormat> {
        if code == SPECIAL_MODE_FORMAT {
            Some(SFODataFormat::SpecialMode)
        } else if code == UTF8_FORMAT {
            Some(SFODataFormat::Utf8)
        } else if code == INTEGER_FORMAT {
            Some(SFODataFormat::Int)
        } else {
            None
        }
    }

    /// The format code of a kind.
    pub open spec fn spec_code(self) -> u16 {
        match self {
            SFODataFormat::SpecialMode => SPECIAL_MODE_FORMAT,
            SFODataFormat::Utf8 => UTF8_FORMAT,
            SFODataFormat::Int => INTEGER_FORMAT,
        }
    }

    /// Tells the kind that a format code stands for.
    pub fn from_code(code: u16) -> (r: Option<SFODataFormat>)
        ensures
            r == Self::spec_from_code(code),
    {
        if code == SPECIAL_MODE_FORMAT {
            Some(SFODataFormat::SpecialMode)
        } else if code == UTF8_FORMAT {
            Some(SFODataFormat::Utf8)
        } else if code == INTEGER_FORMAT {
            Some(SFODataFormat::Int)
        } else {
            None
        }
    }

    /// Gives the format code of a kind.
    pub fn code(self) -> (r: u16)
        ensures
            r == self.spec_code(),
            Self::spec_from_code(r) == Some(self),
    {
        match self {
            SFODataFormat::SpecialMode => SPECIAL_MODE_FORMAT,
            SFODataFormat::Utf8 => UTF8_FORMAT,
            SFODataFormat::Int => INTEGER_FORMAT,
        }
    }
}

} // verus!
