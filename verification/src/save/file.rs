//! The `GGDS` container.
//!
//! The container opens with `GGDS`, the version, the checksum and the lengths
//! of the payload and of the image, all 32-bit little-endian. The title
//! follows in 128 bytes and the sub-title in 256, each as UTF-8 with at least
//! one zero byte after it. Then come the payload and the image.

use crate::bytes::{
    append_bytes, append_zeros, find_nul, lemma_nul_position, lemma_u32_le_of_bytes, nul_position,
    u32_at, u32_le, u32_le_bytes, until_nul, write_u32_le, zeros,
};
use crate::error::{Error, ErrorView, SaveMalformed};
use crate::save::metadata::SaveMetadata;
use crate::utils::text::{lemma_encoded_without_nul, string_from_utf8, without_nul};
use vstd::prelude::*;
use vstd::slice::*;
use vstd::string::*;
use vstd::utf8::*;

verus! {

/// The version that a container declares.
pub const SAVE_VERSION: u32 = 1;

/// The bytes reserved for the title.
pub const SAVE_TITLE_SIZE: usize = 0x80;

/// The bytes reserved for the sub-title.
pub const SAVE_SUB_TITLE_SIZE: usize = 0x100;

/// The bytes before the payload.
pub const SAVE_HEADER_SIZE: usize = 0x194;

/// The four bytes that open a container: `GGDS`.
pub open spec fn save_magic() -> Seq<u8> {
    seq![0x47u8, 0x47u8, 0x44u8, 0x53u8]
}

/// The parts of a container.
#[derive(Debug, Clone, PartialEq, Eq)]
pub struct SaveFile {
    pub version: u32,
    pub checksum: u32,
    pub title: String,
    pub sub_title: String,
    pub data: Vec<u8>,
    pub image: Vec<u8>,
}

/// The parts of a container as mathematical data.
pub ghost struct SaveFileView {
    pub version: u32,
    pub checksum: u32,
    pub title: Seq<char>,
    pub sub_title: Seq<char>,
    pub data: Seq<u8>,
    pub image: Seq<u8>,
}

impl View for SaveFile {
    type V = SaveFileView;

    open spec fn view(&self) -> SaveFileView {
        SaveFileView {
            version: self.version,
            checksum: self.checksum,
            title: self.title@,
            sub_title: self.sub_title@,
            data: self.data@,
            image: self.image@,
        }
    }
}

/// The view of an encoding result.
pub open spec fn bytes_view(r: Result<Vec<u8>, Error>) -> Result<Seq<u8>, ErrorView> {
    match r {
        Ok(bytes) => Ok(bytes@),
        Err(error) => Err(error@),
    }
}

/// The view of a decoding result.
pub open spec fn file_view(r: Result<SaveFile, SaveMalformed>) -> Result<
    SaveFileView,
    SaveMalformed,
> {
    match r {
        Ok(file) => Ok(file@),
        Err(reason) => Err(reason),
    }
}

/// A text field: the text, then zero bytes up to the capacity.
pub open spec fn padded(text: Seq<u8>, capacity: int) -> Seq<u8> {
    text + zeros(capacity - text.len())
}

/// Tells whether both texts leave room for a terminator in their fields.
pub open spec fn texts_fit(file: SaveFileView) -> bool {
    &&& encode_utf8(file.title).len() < SAVE_TITLE_SIZE
    &&& encode_utf8(file.sub_title).len() < SAVE_SUB_TITLE_SIZE
}

/// Tells whether both lengths can be said in 32 bits.
pub open spec fn lengths_fit(file: SaveFileView) -> bool {
    &&& file.data.len() <= u32::MAX
    &&& file.image.len() <= u32::MAX
}

/// The bytes of the container that holds `file`. The version written is
/// always `SAVE_VERSION`.
pub open spec fn container(file: SaveFileView) -> Seq<u8> {
    save_magic() + u32_le_bytes(SAVE_VERSION) + u32_le_bytes(file.checksum) + u32_le_bytes(
        file.data.len() as u32,
    ) + u32_le_bytes(file.image.len() as u32) + padded(
        encode_utf8(file.title),
        SAVE_TITLE_SIZE as int,
    ) + padded(encode_utf8(file.sub_title), SAVE_SUB_TITLE_SIZE as int) + file.data + file.image
}

/// What encoding `file` gives: the container, unless a text or a length does
/// not fit.
pub open spec fn spec_generate(file: SaveFileView) -> Result<Seq<u8>, ErrorView> {
    if !texts_fit(file) {
        Err(ErrorView::MetadataTooLong)
    } else if !lengths_fit(file) {
        Err(ErrorView::LengthOverflow)
    } else {
        Ok(container(file))
    }
}

/// The text of a field: the bytes before its first zero byte, read as UTF-8.
pub open spec fn spec_text(field: Seq<u8>) -> Result<Seq<char>, SaveMalformed> {
    if nul_position(field) == field.len() {
        Err(SaveMalformed::UnterminatedText)
    } else if !valid_utf8(until_nul(field)) {
        Err(SaveMalformed::InvalidUtf8)
    } else {
        Ok(decode_utf8(until_nul(field)))
    }
}

/// The parts of the container that `bytes` hold. The header is read first,
/// then the title and the sub-title, then the payload and the image by their
/// declared lengths, which must account for every byte.
pub open spec fn spec_open(bytes: Seq<u8>) -> Result<SaveFileView, SaveMalformed> {
    if bytes.len() < 4 {
        Err(SaveMalformed::Truncated)
    } else if bytes.subrange(0, 4) != save_magic() {
        Err(SaveMalformed::BadMagic)
    } else if bytes.len() < SAVE_HEADER_SIZE {
        Err(SaveMalformed::Truncated)
    } else {
        let data_length = u32_le(bytes.subrange(0x0C, 0x10)) as int;
        let image_length = u32_le(bytes.subrange(0x10, 0x14)) as int;
        match spec_text(bytes.subrange(0x14, 0x94)) {
            Err(reason) => Err(reason),
            Ok(title) => match spec_text(bytes.subrange(0x94, 0x194)) {
                Err(reason) => Err(reason),
                Ok(sub_title) => if bytes.len() < SAVE_HEADER_SIZE + data_length + image_length {
                    Err(SaveMalformed::Truncated)
                } else if bytes.len() > SAVE_HEADER_SIZE + data_length + image_length {
                    Err(SaveMalformed::TrailingBytes)
                } else {
                    Ok(
                        SaveFileView {
                            version: u32_le(bytes.subrange(0x04, 0x08)),
                            checksum: u32_le(bytes.subrange(0x08, 0x0C)),
                            title,
                            sub_title,
                            data: bytes.subrange(0x194, 0x194 + data_length),
                            image: bytes.subrange(
                                0x194 + data_length,
                                0x194 + data_length + image_length,
                            ),
                        },
                    )
                },
            },
        }
    }
}

/// Every container opens with `GGDS` and the version 1.
pub proof fn lemma_container_prefix(file: SaveFileView, out: Seq<u8>)
    requires
        spec_generate(file) == Ok::<Seq<u8>, ErrorView>(out),
    ensures
        out.subrange(0, 4) == save_magic(),
        out.subrange(4, 8) == seq![0x01u8, 0x00u8, 0x00u8, 0x00u8],
{
    assert(out.subrange(0, 4) =~= save_magic());
    assert(out.subrange(4, 8) =~= u32_le_bytes(SAVE_VERSION));
    assert(u32_le_bytes(SAVE_VERSION) =~= seq![0x01u8, 0x00u8, 0x00u8, 0x00u8]);
}

/// The checksum of the metadata stands at offset 8 as it is.
pub proof fn lemma_container_checksum(file: SaveFileView, out: Seq<u8>)
    requires
        spec_generate(file) == Ok::<Seq<u8>, ErrorView>(out),
    ensures
        u32_le(out.subrange(0x08, 0x0C)) == file.checksum,
{
    assert(out.subrange(0x08, 0x0C) =~= u32_le_bytes(file.checksum));
    lemma_u32_le_of_bytes(file.checksum);
}

/// The length fields say how long the payload and the image are.
pub proof fn lemma_container_lengths(file: SaveFileView, out: Seq<u8>)
    requires
        spec_generate(file) == Ok::<Seq<u8>, ErrorView>(out),
    ensures
        u32_le(out.subrange(0x0C, 0x10)) == file.data.len(),
        u32_le(out.subrange(0x10, 0x14)) == file.image.len(),
        out.len() == SAVE_HEADER_SIZE + file.data.len() + file.image.len(),
{
    assert(out.subrange(0x0C, 0x10) =~= u32_le_bytes(file.data.len() as u32));
    assert(out.subrange(0x10, 0x14) =~= u32_le_bytes(file.image.len() as u32));
    lemma_u32_le_of_bytes(file.data.len() as u32);
    lemma_u32_le_of_bytes(file.image.len() as u32);
}

/// Each text field holds the UTF-8 bytes of its text and after them zero
/// bytes alone, at least one.
pub proof fn lemma_container_texts(file: SaveFileView, out: Seq<u8>)
    requires
        spec_generate(file) == Ok::<Seq<u8>, ErrorView>(out),
    ensures
        out.subrange(0x14, 0x94) == encode_utf8(file.title) + zeros(
            SAVE_TITLE_SIZE - encode_utf8(file.title).len(),
        ),
        out.subrange(0x94, 0x194) == encode_utf8(file.sub_title) + zeros(
            SAVE_SUB_TITLE_SIZE - encode_utf8(file.sub_title).len(),
        ),
        encode_utf8(file.title).len() < SAVE_TITLE_SIZE,
        encode_utf8(file.sub_title).len() < SAVE_SUB_TITLE_SIZE,
{
    assert(out.subrange(0x14, 0x94) =~= padded(encode_utf8(file.title), SAVE_TITLE_SIZE as int));
    assert(out.subrange(0x94, 0x194) =~= padded(
        encode_utf8(file.sub_title),
        SAVE_SUB_TITLE_SIZE as int,
    ));
}

/// The payload and the image follow the header as they are.
pub proof fn lemma_container_body(file: SaveFileView, out: Seq<u8>)
    requires
        spec_generate(file) == Ok::<Seq<u8>, ErrorView>(out),
    ensures
        out.subrange(0x194, 0x194 + file.data.len() as int) == file.data,
        out.subrange(0x194 + file.data.len() as int, out.len() as int) == file.image,
{
    assert(out.subrange(0x194, 0x194 + file.data.len() as int) =~= file.data);
    assert(out.subrange(0x194 + file.data.len() as int, out.len() as int) =~= file.image);
}

/// The text of a field that was padded from a text without U+0000 is that
/// text.
pub proof fn lemma_text_of_padded(text: Seq<char>, capacity: int)
    requires
        encode_utf8(text).len() < capacity,
        without_nul(text),
    ensures
        spec_text(padded(encode_utf8(text), capacity)) == Ok::<Seq<char>, SaveMalformed>(text),
{
    let bytes = encode_utf8(text);
    let field = padded(bytes, capacity);
    lemma_encoded_without_nul(text);
    lemma_nul_position(field, bytes.len() as int);
    assert(until_nul(field) =~= bytes);
    encode_utf8_valid_utf8(text);
    encode_utf8_decode_utf8(text);
}

/// Decoding what was encoded gives the parts back, with the version 1,
/// provided that neither text holds U+0000: a field ends at its first zero
/// byte.
pub proof fn lemma_open_generate(file: SaveFileView, out: Seq<u8>)
    requires
        spec_generate(file) == Ok::<Seq<u8>, ErrorView>(out),
        without_nul(file.title),
        without_nul(file.sub_title),
    ensures
        spec_open(out) == Ok::<SaveFileView, SaveMalformed>(
            SaveFileView { version: SAVE_VERSION, ..file },
        ),
{
    lemma_container_prefix(file, out);
    lemma_container_checksum(file, out);
    lemma_container_lengths(file, out);
    lemma_container_texts(file, out);
    lemma_container_body(file, out);
    lemma_text_of_padded(file.title, SAVE_TITLE_SIZE as int);
    lemma_text_of_padded(file.sub_title, SAVE_SUB_TITLE_SIZE as int);
    lemma_u32_le_of_bytes(SAVE_VERSION);
    assert(out.subrange(4, 8) =~= u32_le_bytes(SAVE_VERSION));
}

impl SaveFile {
    /// Puts the metadata and the payload of a save together.
    pub fn new(metadata: SaveMetadata, data: Vec<u8>) -> (r: SaveFile)
        ensures
            r@ == (SaveFileView {
                version: SAVE_VERSION,
                checksum: metadata.checksum,
                title: metadata.title@,
                sub_title: metadata.sub_title@,
                data: data@,
                image: metadata.image@,
            }),
    {
        SaveFile {
            version: SAVE_VERSION,
            checksum: metadata.checksum,
            title: metadata.title,
            sub_title: metadata.sub_title,
            data,
            image: metadata.image,
        }
    }

    /// Encodes the container.
    ///
    /// Fails with `MetadataTooLong` exactly where the title needs 128 bytes
    /// or more or the sub-title 256 or more, and else with `LengthOverflow`
    /// exactly where the payload or the image is longer than `u32::MAX`.
    pub fn generate(&self) -> (r: Result<Vec<u8>, Error>)
        ensures
            bytes_view(r) == spec_generate(self@),
    {
        let title = self.title.as_str().as_bytes();
        let sub_title = self.sub_title.as_str().as_bytes();
        if title.len() >= SAVE_TITLE_SIZE || sub_title.len() >= SAVE_SUB_TITLE_SIZE {
            return Err(Error::MetadataTooLong);
        }
        if self.data.len() as u64 > u32::MAX as u64 || self.image.len() as u64 > u32::MAX as u64 {
            return Err(Error::LengthOverflow);
        }
        let mut out: Vec<u8> = Vec::new();
        out.push(0x47u8);
        out.push(0x47u8);
        out.push(0x44u8);
        out.push(0x53u8);
        assert(out@ =~= save_magic());
        write_u32_le(&mut out, SAVE_VERSION);
        write_u32_le(&mut out, self.checksum);
        write_u32_le(&mut out, self.data.len() as u32);
        write_u32_le(&mut out, self.image.len() as u32);
        append_bytes(&mut out, title);
        append_zeros(&mut out, SAVE_TITLE_SIZE - title.len());
        append_bytes(&mut out, sub_title);
        append_zeros(&mut out, SAVE_SUB_TITLE_SIZE - sub_title.len());
        append_bytes(&mut out, self.data.as_slice());
        append_bytes(&mut out, self.image.as_slice());
        assert(out@ =~= container(self@));
        Ok(out)
    }

    /// Decodes a container.
    pub fn open(data: &[u8]) -> (r: Result<SaveFile, SaveMalformed>)
        ensures
            file_view(r) == spec_open(data@),
    {
        if data.len() < 4 {
            return Err(SaveMalformed::Truncated);
        }
        if data[0] != 0x47 || data[1] != 0x47 || data[2] != 0x44 || data[3] != 0x53 {
            assert(data@.subrange(0, 4)[0] == data@[0]);
            assert(data@.subrange(0, 4)[1] == data@[1]);
            assert(data@.subrange(0, 4)[2] == data@[2]);
            assert(data@.subrange(0, 4)[3] == data@[3]);
            return Err(SaveMalformed::BadMagic);
        }
        assert(data@.subrange(0, 4) =~= save_magic());
        if data.len() < SAVE_HEADER_SIZE {
            return Err(SaveMalformed::Truncated);
        }
        let version = u32_at(data, 0x04);
        let checksum = u32_at(data, 0x08);
        let data_length = u32_at(data, 0x0C);
        let image_length = u32_at(data, 0x10);
        let title = match read_text(slice_subrange(data, 0x14, 0x94)) {
            Ok(text) => text,
            Err(reason) => return Err(reason),
        };
        let sub_title = match read_text(slice_subrange(data, 0x94, 0x194)) {
            Ok(text) => text,
            Err(reason) => return Err(reason),
        };
        let end: u64 = SAVE_HEADER_SIZE as u64 + data_length as u64 + image_length as u64;
        if (data.len() as u64) < end {
            return Err(SaveMalformed::Truncated);
        }
        if data.len() as u64 > end {
            return Err(SaveMalformed::TrailingBytes);
        }
        let image_start: usize = SAVE_HEADER_SIZE + data_length as usize;
        let payload = slice_to_vec(slice_subrange(data, SAVE_HEADER_SIZE, image_start));
        let image = slice_to_vec(slice_subrange(data, image_start, data.len()));
        Ok(SaveFile { version, checksum, title, sub_title, data: payload, image })
    }
}

/// Reads the text of a field.
fn read_text(field: &[u8]) -> (r: Result<String, SaveMalformed>)
    ensures
        match r {
            Ok(text) => spec_text(field@) == Ok::<Seq<char>, SaveMalformed>(text@),
            Err(reason) => spec_text(field@) == Err::<Seq<char>, SaveMalformed>(reason),
        },
{
    let end = find_nul(field);
    if end == field.len() {
        return Err(SaveMalformed::UnterminatedText);
    }
    match string_from_utf8(slice_to_vec(slice_subrange(field, 0, end))) {
        Some(text) => Ok(text),
        None => Err(SaveMalformed::InvalidUtf8),
    }
}

} // verus!
