use sample_browser::search::{filtered_query, string_to_u16s};
use sample_browser::selection::{scroll_target, RowLayout, RowRange};

#[test]
fn query_is_encoded_with_terminator() {
    assert_eq!(string_to_u16s("ab".to_string()), vec![0x61, 0x62, 0]);
    assert_eq!(string_to_u16s(String::new()), vec![0]);
    assert_eq!(string_to_u16s("é".to_string()), vec![0xE9, 0]);
    assert_eq!(string_to_u16s("\u{1F3B5}".to_string()), vec![0xD83C, 0xDFB5, 0]);
    let s = "drum \u{1D11E} kick";
    let mut expected: Vec<u16> = s.encode_utf16().collect();
    expected.push(0);
    assert_eq!(string_to_u16s(s.to_string()), expected);
}

#[test]
fn query_gets_filter_prefix() {
    assert_eq!(filtered_query("drum"), "ext:wav;mp3 path: !__MACOS !RECYCLE.BIN drum");
    assert_eq!(filtered_query(""), "ext:wav;mp3 path: !__MACOS !RECYCLE.BIN ");
}

#[test]
fn scroll_target_of_row() {
    let layout = RowLayout { area_top: 100, row_height: 20, spacing: 5, scroll_offset: 30 };
    assert_eq!(scroll_target(0, layout), RowRange { top: 70, bottom: 90 });
    assert_eq!(scroll_target(4, layout), RowRange { top: 170, bottom: 190 });
}
