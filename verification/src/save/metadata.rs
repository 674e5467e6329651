//! The metadata of a save and how it is resolved.
//!
//! The metadata comes from four layers, each field taken from the last layer
//! that has it: the defaults, the parameter table of the PS4 save, the icon
//! of the PS4 save, and the overrides of the user.

use crate::cli::OverrideArgs;
use crate::error::{result_view, Error, ErrorView, SfoKey, SfoSemantic, SfoSemanticView};
use crate::save::kind::SaveType;
use crate::sfo::data::{SFOParamData, SfoValue};
use crate::sfo::param::{lookup, ParamView};
use crate::sfo::{SFOFile, SfoTable};
use crate::utils::{blank_image, generate_blank_image};
use crate::utils::text::{
    ascii_lowercase, lemma_lowercase_ascii, lowercase, same_text, strip_prefix, to_lowercase,
    without_prefix,
};
use vstd::prelude::*;
use vstd::string::*;
use vstd::utf8::is_ascii_chars;

verus! {

/// The checksum of a save without a parameter table.
pub const DEFAULT_CHECKSUM: u32 = 105182377;

/// The category of a save descriptor.
pub const SFO_SAVE_DATA_CATEGORY: &'static str = "sd";

/// What real descriptors put in front of the sub-title: the game's name with
/// its trade mark sign read in the wrong code page.
pub const SUBTITLE_PREFIX: &'static str = "Horizon Forbidden West\u{e2}\u{201e}\u{a2} - ";

/// The reconciled record of a save.
#[derive(Debug, Clone, PartialEq, Eq)]
pub struct SaveMetadata {
    /// The name of the output file without its extension.
    pub file_name: String,
    /// The title that the game shows.
    pub title: String,
    /// The short descriptor that the game shows.
    pub sub_title: String,
    /// An opaque tag that the container carries.
    pub checksum: u32,
    /// The icon as a PNG stream.
    pub image: Vec<u8>,
    /// The label of the save.
    pub save_type: SaveType,
}

/// The metadata of a save as mathematical data.
pub ghost struct MetadataView {
    pub file_name: Seq<char>,
    pub title: Seq<char>,
    pub sub_title: Seq<char>,
    pub checksum: u32,
    pub image: Seq<u8>,
    pub save_type: SaveType,
}

impl View for SaveMetadata {
    type V = MetadataView;

    open spec fn view(&self) -> MetadataView {
        MetadataView {
            file_name: self.file_name@,
            title: self.title@,
            sub_title: self.sub_title@,
            checksum: self.checksum,
            image: self.image@,
            save_type: self.save_type,
        }
    }
}

/// The view of a result of `from_sfo` or `resolve_with_image`.
pub open spec fn semantic_view(r: Result<SaveMetadata, SfoSemantic>) -> Result<
    MetadataView,
    SfoSemanticView,
> {
    match r {
        Ok(metadata) => Ok(metadata@),
        Err(reason) => Err(reason@),
    }
}

/// The metadata of a save of which nothing is known but its icon.
pub open spec fn default_metadata(image: Seq<u8>) -> MetadataView {
    MetadataView {
        file_name: "autosave0"@,
        title: "Reach For The Stars - Level 1 - 00:00:00"@,
        sub_title: "Autosave"@,
        checksum: DEFAULT_CHECKSUM,
        image,
        save_type: SaveType::Autosave,
    }
}

/// The text that the parameter `key` holds, if it is there and is a text.
pub open spec fn text_param(params: Seq<ParamView>, key: SfoKey) -> Option<Seq<char>> {
    match lookup(params, key.spec_name()) {
        Some(SfoValue::Utf8(text)) => Some(text),
        _ => None,
    }
}

/// The number that the parameter `key` holds, if it is there and is an
/// integer.
pub open spec fn int_param(params: Seq<ParamView>, key: SfoKey) -> Option<u32> {
    match lookup(params, key.spec_name()) {
        Some(SfoValue::Int(value)) => Some(value),
        _ => None,
    }
}

/// The metadata that a parameter table describes.
///
/// `CATEGORY` must be the text `sd`. `MAINTITLE` is the title, `SUBTITLE`
/// without `SUBTITLE_PREFIX` the sub-title, `SAVEDATA_DIRECTORY` in lowercase
/// the file name and `SAVEDATA_LIST_PARAM` the checksum. The parameters are
/// asked for in this order, and the first that is absent or of another kind
/// gives the failure.
pub open spec fn sfo_metadata(params: Seq<ParamView>, image: Seq<u8>) -> Result<
    MetadataView,
    SfoSemanticView,
> {
    match text_param(params, SfoKey::Category) {
        None => Err(SfoSemanticView::MissingParam(SfoKey::Category)),
        Some(category) => if category != SFO_SAVE_DATA_CATEGORY@ {
            Err(SfoSemanticView::InvalidCategory(category))
        } else {
            match text_param(params, SfoKey::MainTitle) {
                None => Err(SfoSemanticView::MissingParam(SfoKey::MainTitle)),
                Some(title) => match text_param(params, SfoKey::SubTitle) {
                    None => Err(SfoSemanticView::MissingParam(SfoKey::SubTitle)),
                    Some(sub_title) => match text_param(params, SfoKey::SaveDataDirectory) {
                        None => Err(SfoSemanticView::MissingParam(SfoKey::SaveDataDirectory)),
                        Some(directory) => match int_param(params, SfoKey::SaveDataListParam) {
                            None => Err(
                                SfoSemanticView::MissingParam(SfoKey::SaveDataListParam),
                            ),
                            Some(checksum) => Ok(
                                MetadataView {
                                    file_name: lowercase(directory),
                                    title,
                                    sub_title: without_prefix(sub_title, SUBTITLE_PREFIX@),
                                    checksum,
                                    image,
                                    save_type: SaveType::of_file_name(directory),
                                },
                            ),
                        },
                    },
                },
            }
        },
    }
}

/// The metadata with the overrides laid over it. A name is taken in
/// lowercase; the label is the overriding one, else that of the overriding
/// name, else the one that was there.
pub open spec fn with_overrides(metadata: MetadataView, overrides: OverrideArgs) -> MetadataView {
    MetadataView {
        file_name: match overrides.name {
            Some(name) => lowercase(name@),
            None => metadata.file_name,
        },
        title: match overrides.title {
            Some(title) => title@,
            None => metadata.title,
        },
        sub_title: match overrides.sub_title {
            Some(sub_title) => sub_title@,
            None => metadata.sub_title,
        },
        checksum: metadata.checksum,
        image: match overrides.image {
            Some(image) => image@,
            None => metadata.image,
        },
        save_type: match overrides.save_type {
            Some(save_type) => save_type,
            None => match overrides.name {
                Some(name) => SaveType::of_file_name(name@),
                None => metadata.save_type,
            },
        },
    }
}

/// The metadata of a save with the icon `image`: the defaults, or what the
/// parameter table describes where there is one, with the overrides laid
/// over it.
pub open spec fn resolved(sfo: Option<SfoTable>, image: Seq<u8>, overrides: OverrideArgs) -> Result<
    MetadataView,
    SfoSemanticView,
> {
    match sfo {
        None => Ok(with_overrides(default_metadata(image), overrides)),
        Some(table) => match sfo_metadata(table.params, image) {
            Err(reason) => Err(reason),
            Ok(metadata) => Ok(with_overrides(metadata, overrides)),
        },
    }
}

/// The image under the overrides: the icon of the save, else the blank icon;
/// nothing where an overriding image makes it irrelevant.
pub open spec fn base_image(icon: Option<Vec<u8>>, overrides: OverrideArgs) -> Seq<u8> {
    match icon {
        Some(image) => image@,
        None => if overrides.image is Some {
            Seq::empty()
        } else {
            blank_image()
        },
    }
}

/// The table behind an optional reference.
pub open spec fn table_of(sfo: Option<&SFOFile>) -> Option<SfoTable> {
    match sfo {
        Some(file) => Some(file@),
        None => None,
    }
}

/// The sub-title of a save that is resolved from a parameter table, without
/// an override for it, is the `SUBTITLE` of the table, less
/// `SUBTITLE_PREFIX` where it begins with it.
pub proof fn lemma_subtitle_cleanup(
    table: SfoTable,
    image: Seq<u8>,
    overrides: OverrideArgs,
    raw: Seq<char>,
)
    requires
        resolved(Some(table), image, overrides) is Ok,
        overrides.sub_title is None,
        text_param(table.params, SfoKey::SubTitle) == Some(raw),
    ensures
        SUBTITLE_PREFIX@.is_prefix_of(raw) ==> resolved(
            Some(table),
            image,
            overrides,
        )->Ok_0.sub_title == raw.subrange(SUBTITLE_PREFIX@.len() as int, raw.len() as int),
        !SUBTITLE_PREFIX@.is_prefix_of(raw) ==> resolved(
            Some(table),
            image,
            overrides,
        )->Ok_0.sub_title == raw,
{
}

/// The text that the file name of a resolved save is made from: the
/// overriding name, else the `SAVEDATA_DIRECTORY` of the parameter table,
/// else the default name.
pub open spec fn file_name_source(sfo: Option<SfoTable>, overrides: OverrideArgs) -> Seq<char> {
    match (overrides.name, sfo) {
        (Some(name), _) => name@,
        (None, Some(table)) => text_param(table.params, SfoKey::SaveDataDirectory)->Some_0,
        (None, None) => "autosave0"@,
    }
}

/// The file name of a resolved save is the lowercase form of the text it is
/// made from. Where that text is ASCII, the file name is its own lowercase
/// form.
pub proof fn lemma_file_name_lowercase(
    sfo: Option<SfoTable>,
    image: Seq<u8>,
    overrides: OverrideArgs,
)
    requires
        resolved(sfo, image, overrides) is Ok,
    ensures
        resolved(sfo, image, overrides)->Ok_0.file_name == lowercase(
            file_name_source(sfo, overrides),
        ),
        is_ascii_chars(file_name_source(sfo, overrides)) ==> lowercase(
            resolved(sfo, image, overrides)->Ok_0.file_name,
        ) == resolved(sfo, image, overrides)->Ok_0.file_name,
{
    let source = file_name_source(sfo, overrides);
    if overrides.name is None && sfo is None {
        reveal_strlit("autosave0");
        assert(is_ascii_chars(source));
        assert(ascii_lowercase(source) =~= source);
    }
    if is_ascii_chars(source) {
        lemma_lowercase_ascii(source);
    }
}

/// Unless the label itself is overridden, a resolved save is an autosave
/// exactly where its file name begins with `autosave`.
pub proof fn lemma_save_type_follows_file_name(
    sfo: Option<SfoTable>,
    image: Seq<u8>,
    overrides: OverrideArgs,
)
    requires
        resolved(sfo, image, overrides) is Ok,
        overrides.save_type is None,
    ensures
        resolved(sfo, image, overrides)->Ok_0.save_type == SaveType::Autosave
            <==> "autosave"@.is_prefix_of(resolved(sfo, image, overrides)->Ok_0.file_name),
{
    if overrides.name is None && sfo is None {
        reveal_strlit("autosave0");
        reveal_strlit("autosave");
        assert("autosave"@ =~= "autosave0"@.subrange(0, 8));
    }
}

impl SaveMetadata {
    /// Makes a record of the given fields, with the label of the file name.
    /// The file name is kept as it is given.
    pub fn new(file_name: &str, title: &str, sub_title: &str, checksum: u32, image: Vec<u8>) -> (r:
        SaveMetadata)
        ensures
            r@ == (MetadataView {
                file_name: file_name@,
                title: title@,
                sub_title: sub_title@,
                checksum,
                image: image@,
                save_type: SaveType::of_file_name(file_name@),
            }),
    {
        SaveMetadata {
            file_name: file_name.to_owned(),
            title: title.to_owned(),
            sub_title: sub_title.to_owned(),
            checksum,
            image,
            save_type: SaveType::from_file_name(file_name),
        }
    }

    /// The metadata of a save of which nothing is known but its icon.
    pub fn defaults(image: Vec<u8>) -> (r: SaveMetadata)
        ensures
            r@ == default_metadata(image@),
    {
        SaveMetadata {
            file_name: "autosave0".to_owned(),
            title: "Reach For The Stars - Level 1 - 00:00:00".to_owned(),
            sub_title: "Autosave".to_owned(),
            checksum: DEFAULT_CHECKSUM,
            image,
            save_type: SaveType::Autosave,
        }
    }

    /// Reads the metadata that a parameter table describes.
    pub fn from_sfo(sfo: &SFOFile, image: Vec<u8>) -> (r: Result<SaveMetadata, SfoSemantic>)
        ensures
            semantic_view(r) == sfo_metadata(sfo@.params, image@),
    {
        let category = match text_of(sfo, SfoKey::Category) {
            Some(text) => text,
            None => return Err(SfoSemantic::MissingParam(SfoKey::Category)),
        };
        if !same_text(category, SFO_SAVE_DATA_CATEGORY) {
            return Err(SfoSemantic::InvalidCategory(category.to_owned()));
        }
        let title = match text_of(sfo, SfoKey::MainTitle) {
            Some(text) => text,
            None => return Err(SfoSemantic::MissingParam(SfoKey::MainTitle)),
        };
        let sub_title = match text_of(sfo, SfoKey::SubTitle) {
            Some(text) => strip_prefix(text, SUBTITLE_PREFIX),
            None => return Err(SfoSemantic::MissingParam(SfoKey::SubTitle)),
        };
        let file_name = match text_of(sfo, SfoKey::SaveDataDirectory) {
            Some(text) => to_lowercase(text),
            None => return Err(SfoSemantic::MissingParam(SfoKey::SaveDataDirectory)),
        };
        let checksum = match sfo.get(SfoKey::SaveDataListParam.name()) {
            Some(SFOParamData::Int(value)) => *value,
            _ => return Err(SfoSemantic::MissingParam(SfoKey::SaveDataListParam)),
        };
        let save_type = SaveType::from_lowercase_name(file_name.as_str());
        Ok(SaveMetadata { file_name, title: title.to_owned(), sub_title, checksum, image, save_type })
    }

    /// Lays the overrides over the record.
    pub fn apply(self, overrides: OverrideArgs) -> (r: SaveMetadata)
        ensures
            r@ == with_overrides(self@, overrides),
    {
        let mut metadata = self;
        if let Some(save_type) = overrides.save_type {
            metadata.save_type = save_type;
        }
        if let Some(name) = overrides.name {
            metadata.file_name = to_lowercase(name.as_str());
            if overrides.save_type.is_none() {
                metadata.save_type = SaveType::from_lowercase_name(metadata.file_name.as_str());
            }
        }
        if let Some(title) = overrides.title {
            metadata.title = title;
        }
        if let Some(sub_title) = overrides.sub_title {
            metadata.sub_title = sub_title;
        }
        if let Some(image) = overrides.image {
            metadata.image = image;
        }
        metadata
    }

    /// Resolves the metadata of a save whose icon is `image`: the icon of the
    /// PS4 save or, where it has none, the blank one.
    pub fn resolve_with_image(sfo: Option<&SFOFile>, image: Vec<u8>, overrides: OverrideArgs) -> (r:
        Result<SaveMetadata, SfoSemantic>)
        ensures
            semantic_view(r) == resolved(table_of(sfo), image@, overrides),
    {
        let metadata = match sfo {
            None => SaveMetadata::defaults(image),
            Some(file) => match SaveMetadata::from_sfo(file, image) {
                Ok(metadata) => metadata,
                Err(reason) => return Err(reason),
            },
        };
        Ok(metadata.apply(overrides))
    }

    /// Resolves the metadata of a save from its parameter table, if it has
    /// one, its icon, if it has one, and the overrides. The result is that
    /// of `resolve_with_image` with the image that `base_image` names.
    pub fn resolve(sfo: Option<&SFOFile>, icon: Option<Vec<u8>>, overrides: OverrideArgs) -> (r:
        Result<SaveMetadata, Error>)
        ensures
            result_view(r) == lift(
                resolved(table_of(sfo), base_image(icon, overrides), overrides),
            ),
    {
        let mut metadata = match sfo {
            None => SaveMetadata::defaults(Vec::new()),
            Some(file) => match SaveMetadata::from_sfo(file, Vec::new()) {
                Ok(metadata) => metadata,
                Err(reason) => return Err(Error::SfoSemantic(reason)),
            },
        };
        metadata.image = match icon {
            Some(image) => image,
            None => if overrides.image.is_some() {
                Vec::new()
            } else {
                match generate_blank_image() {
                    Ok(image) => image,
                    Err(error) => return Err(error),
                }
            },
        };
        Ok(metadata.apply(overrides))
    }
}

/// A result of the resolution as a result of the library.
pub open spec fn lift(r: Result<MetadataView, SfoSemanticView>) -> Result<MetadataView, ErrorView> {
    match r {
        Ok(metadata) => Ok(metadata),
        Err(reason) => Err(ErrorView::SfoSemantic(reason)),
    }
}

/// Looks up the text that the parameter `key` holds.
fn text_of<'a>(sfo: &'a SFOFile, key: SfoKey) -> (r: Option<&'a str>)
    ensures
        match r {
            Some(text) => text_param(sfo@.params, key) == Some(text@),
            None => text_param(sfo@.params, key) is None,
        },
{
    match sfo.get(key.name()) {
        Some(SFOParamData::Utf8(text)) => Some(text.as_str()),
        _ => None,
    }
}

} // verus!
