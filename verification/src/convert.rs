//! The conversion of a PS4 save as a whole, on bytes that are in memory.

use crate::cli::OverrideArgs;
use crate::error::{Error, ErrorView, SfoMalformed};
use crate::save::file::{spec_generate, SaveFile, SaveFileView, SAVE_VERSION};
use crate::save::metadata::{base_image, resolved, MetadataView, SaveMetadata};
use crate::sfo::{spec_parse, SFOFile, SfoTable};
use vstd::prelude::*;
use vstd::string::*;

verus! {

/// The extension of the output file, with its dot.
pub const OUTPUT_EXTENSION: &'static str = ".dat";

/// A converted save: the name of the file to write and what to write in it.
#[derive(Debug, Clone, PartialEq, Eq)]
pub struct Conversion {
    pub file_name: String,
    pub contents: Vec<u8>,
}

/// A converted save as mathematical data.
pub ghost struct ConversionView {
    pub file_name: Seq<char>,
    pub contents: Seq<u8>,
}

impl View for Conversion {
    type V = ConversionView;

    open spec fn view(&self) -> ConversionView {
        ConversionView { file_name: self.file_name@, contents: self.contents@ }
    }
}

/// The view of a conversion result.
pub open spec fn conversion_view(r: Result<Conversion, Error>) -> Result<ConversionView, ErrorView> {
    match r {
        Ok(conversion) => Ok(conversion@),
        Err(error) => Err(error@),
    }
}

/// The bytes behind an optional reference.
pub open spec fn bytes_of(sfo: Option<&[u8]>) -> Option<Seq<u8>> {
    match sfo {
        Some(bytes) => Some(bytes@),
        None => None,
    }
}

/// The parts of the container for a save.
pub open spec fn save_file(metadata: MetadataView, save_data: Seq<u8>) -> SaveFileView {
    SaveFileView {
        version: SAVE_VERSION,
        checksum: metadata.checksum,
        title: metadata.title,
        sub_title: metadata.sub_title,
        data: save_data,
        image: metadata.image,
    }
}

/// The converted save with the metadata as resolved.
pub open spec fn encoded(metadata: MetadataView, save_data: Seq<u8>) -> Result<
    ConversionView,
    ErrorView,
> {
    match spec_generate(save_file(metadata, save_data)) {
        Err(error) => Err(error),
        Ok(contents) => Ok(
            ConversionView { file_name: metadata.file_name + OUTPUT_EXTENSION@, contents },
        ),
    }
}

/// The conversion of the payload `save_data` of a save whose icon is `image`.
/// The parameter table is decoded where there is one, the metadata is
/// resolved, and the container is encoded; the file is named after the
/// metadata. The first step that fails gives the failure.
pub open spec fn converted(
    save_data: Seq<u8>,
    sfo: Option<Seq<u8>>,
    image: Seq<u8>,
    overrides: OverrideArgs,
) -> Result<ConversionView, ErrorView> {
    match sfo {
        None => match resolved(None, image, overrides) {
            Err(reason) => Err(ErrorView::SfoSemantic(reason)),
            Ok(metadata) => encoded(metadata, save_data),
        },
        Some(bytes) => match spec_parse(bytes) {
            Err(reason) => Err(ErrorView::SfoMalformed(reason)),
            Ok(table) => match resolved(Some(table), image, overrides) {
                Err(reason) => Err(ErrorView::SfoSemantic(reason)),
                Ok(metadata) => encoded(metadata, save_data),
            },
        },
    }
}

/// Decodes the parameter table of a save where it has one.
fn parse_sfo(sfo: Option<&[u8]>) -> (r: Result<Option<SFOFile>, Error>)
    ensures
        match (r, sfo) {
            (Ok(None), None) => true,
            (Ok(Some(file)), Some(bytes)) => spec_parse(bytes@) == Ok::<SfoTable, SfoMalformed>(
                file@,
            ),
            (Err(error), Some(bytes)) => spec_parse(bytes@) matches Err(reason) && error@
                == ErrorView::SfoMalformed(reason),
            _ => false,
        },
{
    match sfo {
        None => Ok(None),
        Some(bytes) => match SFOFile::parse(bytes) {
            Ok(file) => Ok(Some(file)),
            Err(reason) => Err(Error::SfoMalformed(reason)),
        },
    }
}

/// Names the file and encodes the container of a save.
fn encode(metadata: SaveMetadata, save_data: Vec<u8>) -> (r: Result<Conversion, Error>)
    ensures
        conversion_view(r) == encoded(metadata@, save_data@),
{
    let file_name = metadata.file_name.clone().concat(OUTPUT_EXTENSION);
    let file = SaveFile::new(metadata, save_data);
    match file.generate() {
        Ok(contents) => Ok(Conversion { file_name, contents }),
        Err(error) => Err(error),
    }
}

/// Converts a save whose icon is `image`: the icon of the PS4 save or, where
/// it has none, the blank one.
pub fn convert_with_image(
    save_data: Vec<u8>,
    sfo: Option<&[u8]>,
    image: Vec<u8>,
    overrides: OverrideArgs,
) -> (r: Result<Conversion, Error>)
    ensures
        conversion_view(r) == converted(save_data@, bytes_of(sfo), image@, overrides),
{
    let table = match parse_sfo(sfo) {
        Ok(table) => table,
        Err(error) => return Err(error),
    };
    let metadata = match SaveMetadata::resolve_with_image(table.as_ref(), image, overrides) {
        Ok(metadata) => metadata,
        Err(reason) => return Err(Error::SfoSemantic(reason)),
    };
    encode(metadata, save_data)
}

/// Converts a save from its payload, its parameter table, if it has one, its
/// icon, if it has one, and the overrides. The result is that of
/// `convert_with_image` with the image that `base_image` names.
pub fn convert(
    save_data: Vec<u8>,
    sfo: Option<&[u8]>,
    icon: Option<Vec<u8>>,
    overrides: OverrideArgs,
) -> (r: Result<Conversion, Error>)
    ensures
        conversion_view(r) == converted(
            save_data@,
            bytes_of(sfo),
            base_image(icon, overrides),
            overrides,
        ),
{
    let table = match parse_sfo(sfo) {
        Ok(table) => table,
        Err(error) => return Err(error),
    };
    let metadata = match SaveMetadata::resolve(table.as_ref(), icon, overrides) {
        Ok(metadata) => metadata,
        Err(error) => return Err(error),
    };
    encode(metadata, save_data)
}

} // verus!
