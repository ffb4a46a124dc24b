use lang_switch_indicator::handles::{owns_icon, should_delete_font, should_destroy_icon, IconSource};
use lang_switch_indicator::geometry::{center_coords, center_offset};
use lang_switch_indicator::keys::{is_typing_key_down, key_state_is_down, typing_key_codes};
use lang_switch_indicator::{copy_utf16_z, layout_to_indicator, to_utf16, IndicatorSize};

#[test]
fn font_heights_per_size() {
    assert_eq!(IndicatorSize::Small.font_height(), -96);
    assert_eq!(IndicatorSize::Medium.font_height(), -140);
    assert_eq!(IndicatorSize::Large.font_height(), -196);
}

#[test]
fn russian_layouts_show_ru() {
    assert_eq!(layout_to_indicator(0x0419_0419), "RU");
    assert_eq!(layout_to_indicator(0x0419), "RU");
    // A sub-language other than the default keeps the primary language.
    assert_eq!(layout_to_indicator(0x0819), "RU");
}

#[test]
fn english_layouts_show_en() {
    assert_eq!(layout_to_indicator(0x0409_0409), "EN");
    assert_eq!(layout_to_indicator(0x0809), "EN");
}

#[test]
fn other_layouts_show_language_id_in_hex() {
    assert_eq!(layout_to_indicator(0x0407_0407), "0407");
    assert_eq!(layout_to_indicator(0x040C), "040C");
    assert_eq!(layout_to_indicator(0xABCD), "ABCD");
    assert_eq!(layout_to_indicator(0), "0000");
    assert_eq!(layout_to_indicator(0x0001), "0001");
}

#[test]
fn only_the_low_word_counts() {
    // A layout handle with the sign bit set (a "device" handle) still names
    // its language in the low word.
    let hkl: isize = (-0x0F00_0000_isize) | 0x0422;
    assert_eq!(layout_to_indicator(hkl), "0422");
    assert_eq!(layout_to_indicator(-1), "FFFF");
}

#[test]
fn utf16_of_ascii_and_cyrillic() {
    assert_eq!(to_utf16("EN"), vec![0x45, 0x4E]);
    assert_eq!(to_utf16(""), Vec::<u16>::new());
    assert_eq!(to_utf16("Пауза"), "Пауза".encode_utf16().collect::<Vec<u16>>());
    assert_eq!(to_utf16("Я"), vec![0x042F]);
}

#[test]
fn utf16_of_supplementary_character() {
    assert_eq!(to_utf16("\u{1F600}"), vec![0xD83D, 0xDE00]);
    assert_eq!(to_utf16("a\u{10FFFF}"), vec![0x61, 0xDBFF, 0xDFFF]);
}

#[test]
fn copy_fits_and_terminates() {
    let mut buf = [0xFFFFu16; 8];
    copy_utf16_z(&mut buf, "abc");
    assert_eq!(buf, [0x61, 0x62, 0x63, 0, 0, 0, 0, 0]);
}

#[test]
fn copy_cuts_long_text() {
    let mut buf = [7u16; 4];
    copy_utf16_z(&mut buf, "abcdef");
    assert_eq!(buf, [0x61, 0x62, 0x63, 0]);
}

#[test]
fn copy_into_empty_and_single_unit_buffers() {
    let mut empty: [u16; 0] = [];
    copy_utf16_z(&mut empty, "abc");
    let mut one = [9u16; 1];
    copy_utf16_z(&mut one, "abc");
    assert_eq!(one, [0]);
}

#[test]
fn copy_tray_tooltip() {
    let mut tip = [1u16; 128];
    copy_utf16_z(&mut tip, "Индикатор раскладки");
    let expected: Vec<u16> = "Индикатор раскладки".encode_utf16().collect();
    assert_eq!(&tip[..expected.len()], expected.as_slice());
    assert!(tip[expected.len()..].iter().all(|&u| u == 0));
}

#[test]
fn window_centred_on_screen() {
    assert_eq!(center_coords(1920, 1080), (730, 420));
    assert_eq!(center_coords(461, 241), (0, 0));
    assert_eq!(center_coords(0, 0), (-230, -120));
    assert_eq!(center_coords(459, 239), (0, 0));
}

#[test]
fn text_centred_in_rect() {
    assert_eq!(center_offset(460, 101), 179);
    assert_eq!(center_offset(100, 103), -1);
}

#[test]
fn typing_keys_listed() {
    let codes = typing_key_codes();
    assert_eq!(codes.len(), 10 + 26 + 7 + 8 + 1);
    assert_eq!(codes[0], 0x30);
    assert_eq!(codes[9], 0x39);
    assert_eq!(codes[10], 0x41);
    assert_eq!(codes[35], 0x5A);
    assert_eq!(codes[36], 0xBA);
    assert_eq!(codes[42], 0xC0);
    assert_eq!(codes[43], 0xDB);
    assert_eq!(codes[50], 0xE2);
    assert_eq!(codes[51], 0x20);
}

#[test]
fn key_state_high_bit() {
    assert!(key_state_is_down(i16::MIN));
    assert!(key_state_is_down(-32767));
    assert!(key_state_is_down(-1));
    assert!(!key_state_is_down(0));
    assert!(!key_state_is_down(1));
    assert!(!key_state_is_down(i16::MAX));
}

#[test]
fn any_typing_key_down() {
    assert!(!is_typing_key_down(&[]));
    assert!(!is_typing_key_down(&[0, 1, 0]));
    assert!(is_typing_key_down(&[0, 0, i16::MIN]));
    assert!(is_typing_key_down(&[-32767, 0]));
}

#[test]
fn utf16_round_trip_and_length() {
    for text in ["", "EN", "Пауза печати: 5 с", "a\u{1F600}b\u{10FFFF}"] {
        let units = to_utf16(text);
        assert_eq!(String::from_utf16(&units).unwrap(), text);
        assert_eq!(units.len(), text.chars().map(char::len_utf16).sum::<usize>());
    }
}

#[test]
fn icon_and_font_ownership() {
    assert!(owns_icon(IconSource::Custom));
    assert!(!owns_icon(IconSource::System));
    assert!(should_destroy_icon(true, false));
    assert!(!should_destroy_icon(true, true));
    assert!(!should_destroy_icon(false, false));
    assert!(!should_destroy_icon(false, true));
    assert!(should_delete_font(false));
    assert!(!should_delete_font(true));
}
