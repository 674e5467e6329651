use hfw_save_converter::cli::OverrideArgs;
use hfw_save_converter::error::{Error, SfoKey, SfoSemantic};
use hfw_save_converter::save::metadata::{DEFAULT_CHECKSUM, SFO_SAVE_DATA_CATEGORY, SUBTITLE_PREFIX};
use hfw_save_converter::save::{SaveMetadata, SaveType};
use hfw_save_converter::sfo::data::SFOParamData;
use hfw_save_converter::sfo::header::SFOHeader;
use hfw_save_converter::sfo::param::SFOParam;
use hfw_save_converter::sfo::SFOFile;

fn text(key: &str, value: &str) -> SFOParam {
    SFOParam { key: key.to_string(), data: SFOParamData::Utf8(value.to_string()) }
}

fn number(key: &str, value: u32) -> SFOParam {
    SFOParam { key: key.to_string(), data: SFOParamData::Int(value) }
}

fn table(params: Vec<SFOParam>) -> SFOFile {
    SFOFile {
        header: SFOHeader {
            version: 0x0101,
            key_table_offset: 0,
            data_table_offset: 0,
            entries_count: params.len() as u32,
        },
        params,
    }
}

fn descriptor(category: &str, sub_title: &str, directory: &str) -> SFOFile {
    table(vec![
        text("CATEGORY", category),
        text("MAINTITLE", "Demo"),
        text("SUBTITLE", sub_title),
        text("SAVEDATA_DIRECTORY", directory),
        number("SAVEDATA_LIST_PARAM", 0x0644F4A9),
    ])
}

fn without(key: &str) -> SFOFile {
    let mut file = descriptor("sd", "Autosave", "AUTOSAVE0");
    file.params.retain(|param| param.key != key);
    file
}

#[test]
fn constants_of_the_resolution() {
    assert_eq!(DEFAULT_CHECKSUM, 0x0644F4A9);
    assert_eq!(DEFAULT_CHECKSUM, 105182377);
    assert_eq!(SFO_SAVE_DATA_CATEGORY, "sd");
    assert_eq!(
        SUBTITLE_PREFIX.as_bytes(),
        &[
            b'H', b'o', b'r', b'i', b'z', b'o', b'n', b' ', b'F', b'o', b'r', b'b', b'i', b'd',
            b'd', b'e', b'n', b' ', b'W', b'e', b's', b't', 0xC3, 0xA2, 0xE2, 0x80, 0x9E, 0xC2,
            0xA2, b' ', b'-', b' ',
        ]
    );
}

#[test]
fn new_keeps_the_fields_and_labels_the_save() {
    let metadata = SaveMetadata::new("autosave7", "Title", "Sub", 42, vec![1, 2, 3]);
    assert_eq!(metadata.file_name, "autosave7");
    assert_eq!(metadata.title, "Title");
    assert_eq!(metadata.sub_title, "Sub");
    assert_eq!(metadata.checksum, 42);
    assert_eq!(metadata.image, vec![1, 2, 3]);
    assert_eq!(metadata.save_type, SaveType::Autosave);
    let metadata = SaveMetadata::new("manualsave3", "", "", 0, vec![]);
    assert_eq!(metadata.file_name, "manualsave3");
    assert_eq!(metadata.save_type, SaveType::Manual);
}

#[test]
fn defaults_of_a_save_without_descriptor() {
    let metadata = SaveMetadata::defaults(vec![9, 9]);
    assert_eq!(
        metadata,
        SaveMetadata {
            file_name: "autosave0".to_string(),
            title: "Reach For The Stars - Level 1 - 00:00:00".to_string(),
            sub_title: "Autosave".to_string(),
            checksum: 105182377,
            image: vec![9, 9],
            save_type: SaveType::Autosave,
        }
    );
}

#[test]
fn save_type_follows_the_file_name() {
    assert_eq!(SaveType::from_file_name("autosave"), SaveType::Autosave);
    assert_eq!(SaveType::from_file_name("autosave12"), SaveType::Autosave);
    assert_eq!(SaveType::from_file_name("autosav"), SaveType::Manual);
    assert_eq!(SaveType::from_file_name("manualsave0"), SaveType::Manual);
    assert_eq!(SaveType::from_file_name("quicksave_autosave"), SaveType::Manual);
    assert_eq!(SaveType::from_file_name(""), SaveType::Manual);
}

#[test]
fn save_type_disregards_the_case_of_the_file_name() {
    assert_eq!(SaveType::from_file_name("AUTOSAVE0"), SaveType::Autosave);
    assert_eq!(SaveType::from_file_name("AutoSave12"), SaveType::Autosave);
    assert_eq!(SaveType::from_file_name("aUTOSAV"), SaveType::Manual);
    assert_eq!(SaveType::from_file_name("MANUALSAVE0"), SaveType::Manual);
    assert_eq!(SaveType::from_lowercase_name("autosave0"), SaveType::Autosave);
    assert_eq!(SaveType::from_lowercase_name("AUTOSAVE0"), SaveType::Manual);
    assert_eq!(SaveType::from_lowercase_name("manualsave0"), SaveType::Manual);
}

#[test]
fn new_labels_a_name_with_capitals_by_its_lowercase_form() {
    let metadata = SaveMetadata::new("AUTOSAVE0", "Title", "Sub", 1, vec![]);
    assert_eq!(metadata.file_name, "AUTOSAVE0");
    assert_eq!(metadata.save_type, SaveType::Autosave);
    let metadata = SaveMetadata::new("Manual_AUTOSAVE", "Title", "Sub", 1, vec![]);
    assert_eq!(metadata.file_name, "Manual_AUTOSAVE");
    assert_eq!(metadata.save_type, SaveType::Manual);
}

#[test]
fn resolved_label_follows_the_resolved_file_name() {
    for (directory, label) in [
        ("AUTOSAVE0", SaveType::Autosave),
        ("AutoSave_3", SaveType::Autosave),
        ("MANUALSAVE1", SaveType::Manual),
        ("QUICK_AUTOSAVE", SaveType::Manual),
    ] {
        let file = descriptor("sd", "Autosave", directory);
        let metadata = SaveMetadata::resolve(Some(&file), Some(vec![1]), OverrideArgs::none()).unwrap();
        assert_eq!(metadata.save_type, label);
        assert_eq!(metadata.save_type == SaveType::Autosave, metadata.file_name.starts_with("autosave"));
    }
}

#[test]
fn save_type_names() {
    assert_eq!(SaveType::Autosave.to_string(), "Autosave");
    assert_eq!(SaveType::Manual.to_string(), "Manual");
}

#[test]
fn descriptor_gives_the_metadata() {
    let file = descriptor("sd", "Autosave", "AUTOSAVE0");
    let metadata = SaveMetadata::from_sfo(&file, vec![5]).unwrap();
    assert_eq!(
        metadata,
        SaveMetadata {
            file_name: "autosave0".to_string(),
            title: "Demo".to_string(),
            sub_title: "Autosave".to_string(),
            checksum: 0x0644F4A9,
            image: vec![5],
            save_type: SaveType::Autosave,
        }
    );
}

#[test]
fn sub_title_loses_the_game_name() {
    let file = descriptor(
        "sd",
        "Horizon Forbidden West\u{e2}\u{201e}\u{a2} - Chapter 3",
        "AUTOSAVE0",
    );
    let metadata = SaveMetadata::from_sfo(&file, vec![]).unwrap();
    assert_eq!(metadata.sub_title, "Chapter 3");
}

#[test]
fn sub_title_that_is_only_the_prefix_becomes_empty() {
    let file = descriptor("sd", "Horizon Forbidden West\u{e2}\u{201e}\u{a2} - ", "AUTOSAVE0");
    let metadata = SaveMetadata::from_sfo(&file, vec![]).unwrap();
    assert_eq!(metadata.sub_title, "");
}

#[test]
fn sub_title_without_the_prefix_stays() {
    for raw in [
        "Autosave",
        "",
        "Horizon Forbidden West",
        "Horizon Forbidden West\u{2122} - Chapter 3",
        "horizon forbidden west\u{e2}\u{201e}\u{a2} - Chapter 3",
    ] {
        let file = descriptor("sd", raw, "AUTOSAVE0");
        let metadata = SaveMetadata::from_sfo(&file, vec![]).unwrap();
        assert_eq!(metadata.sub_title, raw);
    }
}

#[test]
fn sub_title_keeps_the_prefix_elsewhere() {
    let raw = "Quest: Horizon Forbidden West\u{e2}\u{201e}\u{a2} - Chapter 3";
    let file = descriptor("sd", raw, "AUTOSAVE0");
    let metadata = SaveMetadata::from_sfo(&file, vec![]).unwrap();
    assert_eq!(metadata.sub_title, raw);
}

#[test]
fn sub_title_loses_the_prefix_once() {
    let prefix = "Horizon Forbidden West\u{e2}\u{201e}\u{a2} - ";
    let raw = format!("{}{}Chapter 3", prefix, prefix);
    let file = descriptor("sd", &raw, "AUTOSAVE0");
    let metadata = SaveMetadata::from_sfo(&file, vec![]).unwrap();
    assert_eq!(metadata.sub_title, format!("{}Chapter 3", prefix));
}

#[test]
fn file_name_is_lowercased() {
    let file = descriptor("sd", "Autosave", "MANUALSAVE_3");
    let metadata = SaveMetadata::from_sfo(&file, vec![]).unwrap();
    assert_eq!(metadata.file_name, "manualsave_3");
    assert_eq!(metadata.file_name, metadata.file_name.to_lowercase());
    assert_eq!(metadata.save_type, SaveType::Manual);
    let file = descriptor("sd", "Autosave", "AutoSave\u{c0}\u{3a3}");
    let metadata = SaveMetadata::from_sfo(&file, vec![]).unwrap();
    assert_eq!(metadata.file_name, "autosave\u{e0}\u{3c2}");
    assert_eq!(metadata.file_name, metadata.file_name.to_lowercase());
    assert_eq!(metadata.save_type, SaveType::Autosave);
}

#[test]
fn other_category_is_refused() {
    let file = descriptor("gd", "Autosave", "AUTOSAVE0");
    let result = SaveMetadata::from_sfo(&file, vec![]);
    assert_eq!(result, Err(SfoSemantic::InvalidCategory("gd".to_string())));
    let error = Error::SfoSemantic(result.unwrap_err());
    assert_eq!(
        error.message(),
        "invalid SFO file, expected category to be \"sd\" but found \"gd\""
    );
}

#[test]
fn category_is_compared_exactly() {
    for category in ["SD", "sd ", "s", "", "sdx"] {
        let file = descriptor(category, "Autosave", "AUTOSAVE0");
        assert_eq!(
            SaveMetadata::from_sfo(&file, vec![]),
            Err(SfoSemantic::InvalidCategory(category.to_string()))
        );
    }
}

#[test]
fn missing_parameters_are_named() {
    assert_eq!(
        SaveMetadata::from_sfo(&without("CATEGORY"), vec![]),
        Err(SfoSemantic::MissingParam(SfoKey::Category))
    );
    assert_eq!(
        SaveMetadata::from_sfo(&without("MAINTITLE"), vec![]),
        Err(SfoSemantic::MissingParam(SfoKey::MainTitle))
    );
    assert_eq!(
        SaveMetadata::from_sfo(&without("SUBTITLE"), vec![]),
        Err(SfoSemantic::MissingParam(SfoKey::SubTitle))
    );
    assert_eq!(
        SaveMetadata::from_sfo(&without("SAVEDATA_DIRECTORY"), vec![]),
        Err(SfoSemantic::MissingParam(SfoKey::SaveDataDirectory))
    );
    assert_eq!(
        SaveMetadata::from_sfo(&without("SAVEDATA_LIST_PARAM"), vec![]),
        Err(SfoSemantic::MissingParam(SfoKey::SaveDataListParam))
    );
    assert_eq!(
        SaveMetadata::from_sfo(&table(vec![]), vec![]),
        Err(SfoSemantic::MissingParam(SfoKey::Category))
    );
}

#[test]
fn parameters_of_another_kind_count_as_missing() {
    let mut file = descriptor("sd", "Autosave", "AUTOSAVE0");
    file.params[1] = number("MAINTITLE", 1);
    assert_eq!(
        SaveMetadata::from_sfo(&file, vec![]),
        Err(SfoSemantic::MissingParam(SfoKey::MainTitle))
    );
    let mut file = descriptor("sd", "Autosave", "AUTOSAVE0");
    file.params[4] = text("SAVEDATA_LIST_PARAM", "105182377");
    assert_eq!(
        SaveMetadata::from_sfo(&file, vec![]),
        Err(SfoSemantic::MissingParam(SfoKey::SaveDataListParam))
    );
    let mut file = descriptor("sd", "Autosave", "AUTOSAVE0");
    file.params[0] =
        SFOParam { key: "CATEGORY".to_string(), data: SFOParamData::SpecialMode(vec![b's', b'd']) };
    assert_eq!(
        SaveMetadata::from_sfo(&file, vec![]),
        Err(SfoSemantic::MissingParam(SfoKey::Category))
    );
}

#[test]
fn the_category_is_asked_for_first() {
    let mut file = descriptor("gd", "Autosave", "AUTOSAVE0");
    file.params.truncate(1);
    assert_eq!(
        SaveMetadata::from_sfo(&file, vec![]),
        Err(SfoSemantic::InvalidCategory("gd".to_string()))
    );
}

#[test]
fn semantic_messages() {
    let keys = [
        (SfoKey::Category, "CATEGORY"),
        (SfoKey::MainTitle, "MAINTITLE"),
        (SfoKey::SubTitle, "SUBTITLE"),
        (SfoKey::SaveDataDirectory, "SAVEDATA_DIRECTORY"),
        (SfoKey::SaveDataListParam, "SAVEDATA_LIST_PARAM"),
    ];
    for (key, name) in keys {
        assert_eq!(key.name(), name);
        assert_eq!(
            Error::SfoSemantic(SfoSemantic::MissingParam(key)).message(),
            format!("invalid SFO file, missing or invalid {} param", name)
        );
    }
    assert_eq!(
        Error::SfoSemantic(SfoSemantic::InvalidCategory("a\"b".to_string())).message(),
        "invalid SFO file, expected category to be \"sd\" but found \"a\\\"b\""
    );
}

#[test]
fn apply_without_overrides_changes_nothing() {
    let metadata = SaveMetadata::new("manualsave1", "T", "S", 7, vec![1]).apply(OverrideArgs::none());
    assert_eq!(metadata, SaveMetadata::new("manualsave1", "T", "S", 7, vec![1]));
}

#[test]
fn apply_lays_each_override_over_its_field() {
    let overrides = OverrideArgs {
        save_type: None,
        name: Some("AutoSave9".to_string()),
        title: Some("New title".to_string()),
        sub_title: Some("New sub".to_string()),
        image: Some(vec![4, 5, 6]),
    };
    let metadata = SaveMetadata::new("manualsave1", "T", "S", 7, vec![1]).apply(overrides);
    assert_eq!(
        metadata,
        SaveMetadata {
            file_name: "autosave9".to_string(),
            title: "New title".to_string(),
            sub_title: "New sub".to_string(),
            checksum: 7,
            image: vec![4, 5, 6],
            save_type: SaveType::Autosave,
        }
    );
}

#[test]
fn apply_prefers_the_overriding_label() {
    let mut overrides = OverrideArgs::none();
    overrides.save_type = Some(SaveType::Manual);
    overrides.name = Some("autosave1".to_string());
    let metadata = SaveMetadata::defaults(vec![]).apply(overrides);
    assert_eq!(metadata.file_name, "autosave1");
    assert_eq!(metadata.save_type, SaveType::Manual);
    let mut overrides = OverrideArgs::none();
    overrides.save_type = Some(SaveType::Manual);
    let metadata = SaveMetadata::defaults(vec![]).apply(overrides);
    assert_eq!(metadata.file_name, "autosave0");
    assert_eq!(metadata.save_type, SaveType::Manual);
}

#[test]
fn apply_keeps_the_label_without_a_new_name() {
    let mut metadata = SaveMetadata::defaults(vec![]);
    metadata.save_type = SaveType::Manual;
    let mut overrides = OverrideArgs::none();
    overrides.title = Some("T".to_string());
    let metadata = metadata.apply(overrides);
    assert_eq!(metadata.save_type, SaveType::Manual);
    assert_eq!(metadata.title, "T");
}

#[test]
fn resolve_with_image_uses_the_defaults_without_descriptor() {
    let metadata =
        SaveMetadata::resolve_with_image(None, vec![1, 2], OverrideArgs::none()).unwrap();
    assert_eq!(metadata, SaveMetadata::defaults(vec![1, 2]));
}

#[test]
fn resolve_with_image_reads_the_descriptor() {
    let file = descriptor("sd", "Autosave", "AUTOSAVE0");
    let mut overrides = OverrideArgs::none();
    overrides.title = Some("Mine".to_string());
    let metadata = SaveMetadata::resolve_with_image(Some(&file), vec![1, 2], overrides).unwrap();
    assert_eq!(metadata.file_name, "autosave0");
    assert_eq!(metadata.title, "Mine");
    assert_eq!(metadata.sub_title, "Autosave");
    assert_eq!(metadata.checksum, 0x0644F4A9);
    assert_eq!(metadata.image, vec![1, 2]);
}

#[test]
fn resolve_with_image_fails_on_the_descriptor_whatever_the_overrides() {
    let file = descriptor("gd", "Autosave", "AUTOSAVE0");
    let overrides = OverrideArgs {
        save_type: Some(SaveType::Manual),
        name: Some("n".to_string()),
        title: Some("t".to_string()),
        sub_title: Some("s".to_string()),
        image: Some(vec![1]),
    };
    assert_eq!(
        SaveMetadata::resolve_with_image(Some(&file), vec![], overrides),
        Err(SfoSemantic::InvalidCategory("gd".to_string()))
    );
}

#[test]
fn resolve_takes_the_icon_of_the_save() {
    let file = descriptor("sd", "Autosave", "AUTOSAVE0");
    let metadata =
        SaveMetadata::resolve(Some(&file), Some(vec![7, 7, 7]), OverrideArgs::none()).unwrap();
    assert_eq!(metadata.image, vec![7, 7, 7]);
    assert_eq!(metadata.title, "Demo");
}

#[test]
fn resolve_prefers_the_overriding_image() {
    let mut overrides = OverrideArgs::none();
    overrides.image = Some(vec![8]);
    let metadata = SaveMetadata::resolve(None, Some(vec![7, 7, 7]), overrides).unwrap();
    assert_eq!(metadata.image, vec![8]);
    let mut overrides = OverrideArgs::none();
    overrides.image = Some(vec![8]);
    let metadata = SaveMetadata::resolve(None, None, overrides).unwrap();
    assert_eq!(metadata.image, vec![8]);
}

#[test]
fn resolve_falls_back_to_the_blank_icon() {
    let metadata = SaveMetadata::resolve(None, None, OverrideArgs::none()).unwrap();
    assert_eq!(metadata.file_name, "autosave0");
    assert_eq!(metadata.checksum, 0x0644F4A9);
    assert_eq!(
        &metadata.image[..8],
        &[0x89, b'P', b'N', b'G', 0x0D, 0x0A, 0x1A, 0x0A]
    );
    let blank = hfw_save_converter::utils::generate_blank_image().unwrap();
    assert_eq!(metadata.image, blank);
}

#[test]
fn resolve_reports_the_descriptor_before_the_icon() {
    let file = descriptor("gd", "Autosave", "AUTOSAVE0");
    assert_eq!(
        SaveMetadata::resolve(Some(&file), None, OverrideArgs::none()),
        Err(Error::SfoSemantic(SfoSemantic::InvalidCategory("gd".to_string())))
    );
}

#[test]
fn file_name_is_its_own_lowercase_for_every_character() {
    for code in 0u32..=0x10FFFF {
        if let Some(c) = char::from_u32(code) {
            let mut overrides = OverrideArgs::none();
            overrides.name = Some(format!("Save{}X", c));
            let metadata = SaveMetadata::defaults(vec![]).apply(overrides);
            assert_eq!(metadata.file_name, metadata.file_name.to_lowercase());
        }
    }
}
