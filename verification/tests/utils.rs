use hfw_save_converter::bytes::{append_bytes, append_zeros, find_nul, u16_at, u32_at};
use hfw_save_converter::utils::fmt::{debug_vec, decimal_string, VEC_DEBUG_LIMIT};
use hfw_save_converter::utils::text::{same_text, starts_with, strip_prefix, to_lowercase};
use hfw_save_converter::utils::{generate_blank_image, DEFAULT_IMAGE_HEIGHT, DEFAULT_IMAGE_WIDTH};
use image::ImageFormat;

#[test]
fn debug_vec_of_few_items() {
    assert_eq!(debug_vec(&vec![]), "[]");
    assert_eq!(debug_vec(&vec![7]), "[7]");
    assert_eq!(debug_vec(&vec![1, 2, 3]), "[1, 2, 3]");
    assert_eq!(debug_vec(&vec![0, 10, 100, 255]), "[0, 10, 100, 255]");
}

#[test]
fn debug_vec_matches_the_standard_text_up_to_the_limit() {
    for len in 0..=10usize {
        let items: Vec<u8> = (0..len as u8).map(|i| i.wrapping_mul(37)).collect();
        assert_eq!(debug_vec(&items), format!("{:?}", items));
    }
}

#[test]
fn debug_vec_cuts_long_vectors_short() {
    assert_eq!(VEC_DEBUG_LIMIT, 10);
    let items: Vec<u8> = (0..11).collect();
    assert_eq!(debug_vec(&items), "[0, 1, 2, 3, 4, 5, 6, 7, 8, 9, ...]");
    let items: Vec<u8> = vec![255; 4096];
    assert_eq!(
        debug_vec(&items),
        "[255, 255, 255, 255, 255, 255, 255, 255, 255, 255, ...]"
    );
}

#[test]
fn decimal_string_of_numbers() {
    assert_eq!(decimal_string(0), "0");
    assert_eq!(decimal_string(9), "9");
    assert_eq!(decimal_string(10), "10");
    assert_eq!(decimal_string(105182377), "105182377");
    assert_eq!(decimal_string(1_000_000_000), "1000000000");
    assert_eq!(decimal_string(u32::MAX), "4294967295");
}

#[test]
fn blank_image_is_a_black_png_of_480_by_270() {
    assert_eq!(DEFAULT_IMAGE_WIDTH, 480);
    assert_eq!(DEFAULT_IMAGE_HEIGHT, 270);
    let png = generate_blank_image().unwrap();
    assert_eq!(&png[..8], &[0x89, b'P', b'N', b'G', 0x0D, 0x0A, 0x1A, 0x0A]);
    // the header chunk: width, height, 8 bits, colour type 2 (RGB)
    assert_eq!(&png[12..16], b"IHDR");
    assert_eq!(&png[16..20], &480u32.to_be_bytes());
    assert_eq!(&png[20..24], &270u32.to_be_bytes());
    assert_eq!(png[24], 8);
    assert_eq!(png[25], 2);
    assert!(png.len() < 480 * 270 * 3);
    let picture = image::load_from_memory_with_format(&png, ImageFormat::Png).unwrap();
    assert_eq!(picture.width(), 480);
    assert_eq!(picture.height(), 270);
    let pixels = picture.to_rgb8();
    assert_eq!(pixels.as_raw().len(), 480 * 270 * 3);
    assert!(pixels.as_raw().iter().all(|byte| *byte == 0));
}

#[test]
fn blank_image_is_always_there() {
    for _ in 0..3 {
        assert!(generate_blank_image().is_ok());
    }
}

#[test]
fn blank_image_is_the_same_each_time() {
    assert_eq!(generate_blank_image().unwrap(), generate_blank_image().unwrap());
}

#[test]
fn same_text_compares_characters() {
    assert!(same_text("", ""));
    assert!(same_text("sd", "sd"));
    assert!(!same_text("sd", "sD"));
    assert!(!same_text("sd", "sd "));
    assert!(!same_text("sd", ""));
    assert!(same_text("Zo\u{eb}", "Zo\u{eb}"));
    assert!(!same_text("Zo\u{eb}", "Zoe"));
}

#[test]
fn starts_with_compares_the_front() {
    assert!(starts_with("autosave0", "autosave"));
    assert!(starts_with("autosave", "autosave"));
    assert!(starts_with("autosave", ""));
    assert!(starts_with("", ""));
    assert!(!starts_with("autosav", "autosave"));
    assert!(!starts_with("Autosave0", "autosave"));
    assert!(!starts_with("", "a"));
    assert!(starts_with("\u{e2}\u{201e}\u{a2}x", "\u{e2}\u{201e}"));
}

#[test]
fn strip_prefix_removes_the_front_once() {
    assert_eq!(strip_prefix("abcabc", "abc"), "abc");
    assert_eq!(strip_prefix("abc", "abc"), "");
    assert_eq!(strip_prefix("abc", ""), "abc");
    assert_eq!(strip_prefix("xabc", "abc"), "xabc");
    assert_eq!(strip_prefix("ab", "abc"), "ab");
    assert_eq!(strip_prefix("\u{e2}\u{201e}\u{a2} - Chapter", "\u{e2}\u{201e}\u{a2} - "), "Chapter");
}

#[test]
fn little_endian_numbers_at_an_offset() {
    let bytes: Vec<u8> = vec![0xFF, 0x34, 0x12, 0xA9, 0xF4, 0x44, 0x06, 0xFF];
    assert_eq!(u16_at(&bytes, 1), 0x1234);
    assert_eq!(u16_at(&bytes, 6), 0xFF06);
    assert_eq!(u32_at(&bytes, 3), 0x0644F4A9);
    assert_eq!(u32_at(&bytes, 0), 0xA91234FF);
    assert_eq!(u32_at(&bytes, 4), 0xFF0644F4);
}

#[test]
fn find_nul_gives_the_first_zero_or_the_length() {
    assert_eq!(find_nul(&[]), 0);
    assert_eq!(find_nul(&[0]), 0);
    assert_eq!(find_nul(&[1, 2, 0, 3, 0]), 2);
    assert_eq!(find_nul(&[1, 2, 3]), 3);
}

#[test]
fn append_helpers_grow_the_vector() {
    let mut out: Vec<u8> = vec![1];
    append_bytes(&mut out, &[2, 3]);
    append_zeros(&mut out, 3);
    append_bytes(&mut out, &[]);
    append_zeros(&mut out, 0);
    assert_eq!(out, vec![1, 2, 3, 0, 0, 0]);
}

#[test]
fn to_lowercase_of_ascii_texts() {
    assert_eq!(to_lowercase(""), "");
    assert_eq!(to_lowercase("AUTOSAVE0"), "autosave0");
    assert_eq!(to_lowercase("ManualSave_12"), "manualsave_12");
    assert_eq!(to_lowercase("@AZ[`az{"), "@az[`az{");
    let every: String = (0u8..128).map(|byte| byte as char).collect();
    assert_eq!(to_lowercase(&every), every.to_lowercase());
    assert_eq!(to_lowercase(&every), every.to_ascii_lowercase());
}

#[test]
fn to_lowercase_of_other_texts() {
    assert_eq!(to_lowercase("\u{c0}B\u{c7}"), "\u{e0}b\u{e7}");
    assert_eq!(to_lowercase("\u{39f}\u{394}\u{3a3}"), "\u{3bf}\u{3b4}\u{3c2}");
    assert_eq!(to_lowercase("\u{130}"), "i\u{307}");
    assert_eq!(to_lowercase("Save\u{2122}"), "save\u{2122}");
}

#[test]
fn to_lowercase_agrees_with_the_standard_library_on_every_character() {
    for code in 0u32..=0x10FFFF {
        if let Some(c) = char::from_u32(code) {
            let text = format!("A{}Z", c);
            let lower = to_lowercase(&text);
            assert_eq!(lower, text.to_lowercase());
            assert_eq!(to_lowercase(&lower), lower);
        }
    }
}
