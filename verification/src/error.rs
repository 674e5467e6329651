//! The failures that the codecs and the metadata resolution report.

use crate::utils::text::{debug_str, quoted};
use vstd::prelude::*;
use vstd::string::*;

verus! {

/// Why a `param.sfo` buffer is not a parameter table.
#[derive(Debug, Clone, Copy, PartialEq, Eq, Structural)]
pub enum SfoMalformed {
    /// The buffer does not begin with the bytes `00 50 53 46`.
    BadMagic,
    /// The version field is not `0x00000101`.
    BadVersion,
    /// The buffer ends inside the header, the index table, a key or an
    /// integer value.
    Truncated,
    /// A key or a value window lies outside the buffer, or a declared length
    /// exceeds its capacity.
    OutOfRange,
    /// An index entry carries a format code other than `0x0004`, `0x0204`
    /// and `0x0404`.
    UnknownFormat,
    /// A key or a text value is not well-formed UTF-8.
    InvalidUtf8,
    /// Two index entries carry the same key.
    DuplicateKey,
}

/// The parameters that a save descriptor must carry.
#[derive(Debug, Clone, Copy, PartialEq, Eq, Structural)]
pub enum SfoKey {
    Category,
    MainTitle,
    SubTitle,
    SaveDataDirectory,
    SaveDataListParam,
}

/// Why a well-formed parameter table does not describe a save.
#[derive(Debug, Clone, PartialEq, Eq)]
pub enum SfoSemantic {
    /// The parameter is absent or holds a value of another kind.
    MissingParam(SfoKey),
    /// `CATEGORY` holds the given text instead of `sd`.
    InvalidCategory(String),
}

/// Why a buffer is not a `GGDS` container.
#[derive(Debug, Clone, Copy, PartialEq, Eq, Structural)]
pub enum SaveMalformed {
    /// The buffer does not begin with `GGDS`.
    BadMagic,
    /// The buffer ends before the header, the payload or the image does.
    Truncated,
    /// A text field holds no zero byte.
    UnterminatedText,
    /// A text field is not well-formed UTF-8.
    InvalidUtf8,
    /// Bytes follow the image.
    TrailingBytes,
}

/// A failure of the library.
#[derive(Debug, Clone, PartialEq, Eq)]
pub enum Error {
    SfoMalformed(SfoMalformed),
    SfoSemantic(SfoSemantic),
    /// The encoder of the blank icon reported a failure.
    ImageIO,
    /// The title needs 128 bytes or more, or the sub-title 256 or more.
    MetadataTooLong,
    /// The payload or the image is longer than a 32-bit length field can say.
    LengthOverflow,
    SaveMalformed(SaveMalformed),
}

/// `SfoSemantic` with its text as a sequence of characters.
pub ghost enum SfoSemanticView {
    MissingParam(SfoKey),
    InvalidCategory(Seq<char>),
}

/// `Error` with its text as a sequence of characters.
pub ghost enum ErrorView {
    SfoMalformed(SfoMalformed),
    SfoSemantic(SfoSemanticView),
    ImageIO,
    MetadataTooLong,
    LengthOverflow,
    SaveMalformed(SaveMalformed),
}

impl View for SfoSemantic {
    type V = SfoSemanticView;

    open spec fn view(&self) -> SfoSemanticView {
        match self {
            SfoSemantic::MissingParam(key) => SfoSemanticView::MissingParam(*key),
            SfoSemantic::InvalidCategory(found) => SfoSemanticView::InvalidCategory(found@),
        }
    }
}

impl View for Error {
    type V = ErrorView;

    open spec fn view(&self) -> ErrorView {
        match self {
            Error::SfoMalformed(reason) => ErrorView::SfoMalformed(*reason),
            Error::SfoSemantic(reason) => ErrorView::SfoSemantic(reason@),
            Error::ImageIO => ErrorView::ImageIO,
            Error::MetadataTooLong => ErrorView::MetadataTooLong,
            Error::LengthOverflow => ErrorView::LengthOverflow,
            Error::SaveMalformed(reason) => ErrorView::SaveMalformed(*reason),
        }
    }
}

/// The view of a result: the view of what it holds on either side.
pub open spec fn result_view<T: View>(r: Result<T, Error>) -> Result<T::V, ErrorView> {
    match r {
        Ok(value) => Ok(value@),
        Err(error) => Err(error@),
    }
}

impl SfoKey {
    /// The key as the parameter table spells it.
    pub open spec fn spec_name(self) -> Seq<char> {
        match self {
            SfoKey::Category => "CATEGORY"@,
            SfoKey::MainTitle => "MAINTITLE"@,
            SfoKey::SubTitle => "SUBTITLE"@,
            SfoKey::SaveDataDirectory => "SAVEDATA_DIRECTORY"@,
            SfoKey::SaveDataListParam => "SAVEDATA_LIST_PARAM"@,
        }
    }

    /// The key as the parameter table spells it.
    pub fn name(self) -> (r: &'static str)
        ensures
            r@ == self.spec_name(),
    {
        match self {
            SfoKey::Category => "CATEGORY",
            SfoKey::MainTitle => "MAINTITLE",
            SfoKey::SubTitle => "SUBTITLE",
            SfoKey::SaveDataDirectory => "SAVEDATA_DIRECTORY",
            SfoKey::SaveDataListParam => "SAVEDATA_LIST_PARAM",
        }
    }
}

impl SfoMalformed {
    /// What `message` says of this reason.
    pub open spec fn spec_message(self) -> Seq<char> {
        match self {
            SfoMalformed::BadMagic => "invalid SFO file, bad magic"@,
            SfoMalformed::BadVersion => "invalid SFO file, unsupported version"@,
            SfoMalformed::Truncated => "invalid SFO file, unexpected end of file"@,
            SfoMalformed::OutOfRange => "invalid SFO file, offset out of range"@,
            SfoMalformed::UnknownFormat => "invalid SFO file, unknown format type"@,
            SfoMalformed::InvalidUtf8 => "invalid SFO file, invalid UTF-8"@,
            SfoMalformed::DuplicateKey => "invalid SFO file, duplicate key"@,
        }
    }

    /// A sentence for the user.
    pub fn message(self) -> (r: &'static str)
        ensures
            r@ == self.spec_message(),
    {
        match self {
            SfoMalformed::BadMagic => "invalid SFO file, bad magic",
            SfoMalformed::BadVersion => "invalid SFO file, unsupported version",
            SfoMalformed::Truncated => "invalid SFO file, unexpected end of file",
            SfoMalformed::OutOfRange => "invalid SFO file, offset out of range",
            SfoMalformed::UnknownFormat => "invalid SFO file, unknown format type",
            SfoMalformed::InvalidUtf8 => "invalid SFO file, invalid UTF-8",
            SfoMalformed::DuplicateKey => "invalid SFO file, duplicate key",
        }
    }
}

impl SaveMalformed {
    /// What `message` says of this reason.
    pub open spec fn spec_message(self) -> Seq<char> {
        match self {
            SaveMalformed::BadMagic => "invalid save file, bad magic"@,
            SaveMalformed::Truncated => "invalid save file, unexpected end of file"@,
            SaveMalformed::UnterminatedText => "invalid save file, text without terminator"@,
            SaveMalformed::InvalidUtf8 => "invalid save file, invalid UTF-8"@,
            SaveMalformed::TrailingBytes => "invalid save file, trailing bytes"@,
        }
    }

    /// A sentence for the user.
    pub fn message(self) -> (r: &'static str)
        ensures
            r@ == self.spec_message(),
    {
        match self {
            SaveMalformed::BadMagic => "invalid save file, bad magic",
            SaveMalformed::Truncated => "invalid save file, unexpected end of file",
            SaveMalformed::UnterminatedText => "invalid save file, text without terminator",
            SaveMalformed::InvalidUtf8 => "invalid save file, invalid UTF-8",
            SaveMalformed::TrailingBytes => "invalid save file, trailing bytes",
        }
    }
}

/// What `Error::message` says of a failure.
pub open spec fn message_of(error: ErrorView) -> Seq<char> {
    match error {
        ErrorView::SfoMalformed(reason) => reason.spec_message(),
        ErrorView::SfoSemantic(SfoSemanticView::MissingParam(key)) => {
            "invalid SFO file, missing or invalid "@ + key.spec_name() + " param"@
        },
        ErrorView::SfoSemantic(SfoSemanticView::InvalidCategory(found)) => {
            "invalid SFO file, expected category to be \"sd\" but found "@ + quoted(found)
        },
        ErrorView::ImageIO => "failed to generate the blank image"@,
        ErrorView::MetadataTooLong => "save title or sub-title is too long"@,
        ErrorView::LengthOverflow => "save data or image is too large"@,
        ErrorView::SaveMalformed(reason) => reason.spec_message(),
    }
}

impl Error {
    /// A sentence for the user. A category that is not `sd` is shown as
    /// `{:?}` prints it.
    pub fn message(&self) -> (r: String)
        ensures
            r@ == message_of(self@),
    {
        match self {
            Error::SfoMalformed(reason) => String::from_str(reason.message()),
            Error::SfoSemantic(SfoSemantic::MissingParam(key)) => {
                let text = String::from_str("invalid SFO file, missing or invalid ");
                text.concat(key.name()).concat(" param")
            },
            Error::SfoSemantic(SfoSemantic::InvalidCategory(found)) => {
                let text = String::from_str(
                    "invalid SFO file, expected category to be \"sd\" but found ",
                );
                let shown = debug_str(found.as_str());
                text.concat(shown.as_str())
            },
            Error::ImageIO => String::from_str("failed to generate the blank image"),
            Error::MetadataTooLong => String::from_str("save title or sub-title is too long"),
            Error::LengthOverflow => String::from_str("save data or image is too large"),
            Error::SaveMalformed(reason) => String::from_str(reason.message()),
        }
    }
}

} // verus!
